//! Test discovery: finding the names of the tests that a source text declares.

use crate::text::string_views;
use regex::Regex;
use vstd::prelude::*;
use vstd::string::StrSliceExecFns;

verus! {

/// The pattern of a test declaration: a test attribute, then a function,
/// whose name is the pattern's fourth group.
pub const TEST_PATTERN: &'static str =
    r"(?m)#\[(cfg\(test\)|test|(tokio::)?test)\][\s\n]*(async\s+)?fn\s+(\w+)";

/// The group of [`TEST_PATTERN`] that holds the name of the test.
pub const NAME_GROUP: usize = 4;

/// Why a scan found nothing.
#[derive(Clone, Copy, Debug, PartialEq, Eq, Structural)]
pub enum ScanError {
    /// The pattern of a test declaration was not accepted as a regular expression.
    InvalidPattern,
}

/// A source file that was read: where it lies and what it holds.
pub struct SourceFile {
    pub path: String,
    pub content: String,
}

/// The error of `regex`, carried from the call to the place that maps it.
#[verifier::external_type_specification]
#[verifier::external_body]
pub struct ExRegexError(regex::Error);

/// What the regular expression engine finds: `None` where `pattern` is not
/// accepted; else, for each match of `pattern` in `haystack`, from left to
/// right, the text that group `group` matched, or `None` where the group took
/// no part in the match.
pub uninterp spec fn regex_captures(pattern: Seq<char>, group: nat, haystack: Seq<char>) -> Option<
    Seq<Option<Seq<char>>>,
>;

/// The captured texts of a sequence, each by its characters.
pub open spec fn capture_views(captures: Seq<Option<String>>) -> Seq<Option<Seq<char>>> {
    captures.map_values(
        |c: Option<String>|
            match c {
                Some(text) => Some(text@),
                None => None,
            },
    )
}

/// Compiles `pattern` with `regex::Regex::new` and runs it over `haystack`
/// with `Regex::captures_iter`, taking group `group` of each match with
/// `Captures::get`.
///
/// The contract claims that the outcome depends on the three arguments alone:
/// an error exactly where the engine does not accept the pattern, else one
/// entry for each match, in the order of the matches.
#[verifier::external_body]
fn capture_group(pattern: &str, group: usize, haystack: &str) -> (found: Result<
    Vec<Option<String>>,
    regex::Error,
>)
    ensures
        match found {
            Ok(captures) => regex_captures(pattern@, group as nat, haystack@) == Some(
                capture_views(captures@),
            ),
            Err(_) => regex_captures(pattern@, group as nat, haystack@) is None,
        },
{
    let regex = Regex::new(pattern)?;
    Ok(regex.captures_iter(haystack).map(|c| c.get(group).map(|m| m.as_str().to_string())).collect())
}

/// The captures that hold a text, in order.
pub open spec fn present(captures: Seq<Option<Seq<char>>>) -> Seq<Seq<char>>
    decreases captures.len(),
{
    if captures.len() == 0 {
        Seq::empty()
    } else {
        match captures.last() {
            Some(text) => present(captures.drop_last()).push(text),
            None => present(captures.drop_last()),
        }
    }
}

/// What group `group` of `pattern` matched in `content`, match by match,
/// without the matches in which the group took no part; `None` where the
/// pattern is not accepted.
pub open spec fn names_matching(pattern: Seq<char>, group: nat, content: Seq<char>) -> Option<
    Seq<Seq<char>>,
> {
    match regex_captures(pattern, group, content) {
        Some(captures) => Some(present(captures)),
        None => None,
    }
}

/// The names of the tests that a source text declares, in the order of their
/// declarations; `None` where the pattern of a declaration is not accepted.
pub open spec fn names_in(content: Seq<char>) -> Option<Seq<Seq<char>>> {
    names_matching(TEST_PATTERN@, NAME_GROUP as nat, content)
}

/// The groups of a scan: for each source that declares a test, in the order
/// of the sources, its path and the names of its tests. `None` where the
/// pattern of a declaration is not accepted.
pub open spec fn discovered(sources: Seq<SourceFile>) -> Option<Seq<(Seq<char>, Seq<Seq<char>>)>>
    decreases sources.len(),
{
    if sources.len() == 0 {
        Some(Seq::empty())
    } else {
        match (discovered(sources.drop_last()), names_in(sources.last().content@)) {
            (Some(groups), Some(names)) => Some(
                if names.len() > 0 {
                    groups.push((sources.last().path@, names))
                } else {
                    groups
                },
            ),
            _ => None,
        }
    }
}

/// The groups of a sequence, each by the characters of its path and names.
pub open spec fn group_views(groups: Seq<(String, Vec<String>)>) -> Seq<(Seq<char>, Seq<Seq<char>>)> {
    groups.map_values(|g: (String, Vec<String>)| (g.0@, string_views(g.1@)))
}

/// A scan that fails on some of the sources fails on all of them.
pub proof fn lemma_failure_spreads(sources: Seq<SourceFile>, n: int)
    requires
        0 <= n <= sources.len(),
        discovered(sources.take(n)) is None,
    ensures
        discovered(sources) is None,
    decreases sources.len() - n,
{
    if n < sources.len() {
        assert(sources.take(n + 1).drop_last() == sources.take(n));
        lemma_failure_spreads(sources, n + 1);
    } else {
        assert(sources.take(n) == sources);
    }
}

/// A scan never yields a group without tests.
pub proof fn lemma_groups_hold_tests(sources: Seq<SourceFile>)
    ensures
        discovered(sources) matches Some(groups) ==> forall|i: int|
            0 <= i < groups.len() ==> (#[trigger] groups[i]).1.len() > 0,
    decreases sources.len(),
{
    if sources.len() > 0 {
        lemma_groups_hold_tests(sources.drop_last());
    }
}

/// Whether a file with this extension is scanned: whether it is `rs`.
pub fn is_rust_extension(extension: Option<&str>) -> (scanned: bool)
    ensures
        scanned == (extension matches Some(text) && text@ == "rs"@),
{
    proof {
        reveal_strlit("rs");
    }
    match extension {
        Some(text) => {
            let scanned = text.unicode_len() == 2 && text.get_char(0) == 'r' && text.get_char(1)
                == 's';
            proof {
                if scanned {
                    assert(text@ =~= "rs"@);
                }
            }
            scanned
        },
        None => false,
    }
}

/// Keeps the captures that hold a text, in order.
pub fn present_names(captures: Vec<Option<String>>) -> (names: Vec<String>)
    ensures
        string_views(names@) == present(capture_views(captures@)),
{
    let mut names: Vec<String> = Vec::new();
    let ghost views = capture_views(captures@);
    let mut i: usize = 0;
    while i < captures.len()
        invariant
            i <= captures.len(),
            views == capture_views(captures@),
            string_views(names@) == present(views.take(i as int)),
        decreases captures.len() - i,
    {
        proof {
            assert(views.take(i + 1).drop_last() == views.take(i as int));
        }
        let ghost before = names@;
        match &captures[i] {
            Some(text) => {
                let name = text.clone();
                names.push(name);
                proof {
                    assert(string_views(names@) == string_views(before).push(name@));
                }
            },
            None => {},
        }
        i += 1;
    }
    proof {
        assert(views.take(i as int) == views);
    }
    names
}

/// The names that group `group` of `pattern` matches in `content`.
pub fn capture_names(pattern: &str, group: usize, content: &str) -> (found: Result<
    Vec<String>,
    ScanError,
>)
    ensures
        match found {
            Ok(names) => names_matching(pattern@, group as nat, content@) == Some(
                string_views(names@),
            ),
            Err(error) => error == ScanError::InvalidPattern && names_matching(
                pattern@,
                group as nat,
                content@,
            ) is None,
        },
{
    match capture_group(pattern, group, content) {
        Ok(captures) => Ok(present_names(captures)),
        Err(_) => Err(ScanError::InvalidPattern),
    }
}

/// The names of the tests that a source text declares.
pub fn test_names(content: &str) -> (found: Result<Vec<String>, ScanError>)
    ensures
        match found {
            Ok(names) => names_in(content@) == Some(string_views(names@)),
            Err(error) => error == ScanError::InvalidPattern && names_in(content@) is None,
        },
{
    capture_names(TEST_PATTERN, NAME_GROUP, content)
}

/// Scans sources for tests and groups the names by source. A source that
/// declares no test gets no group.
pub fn scan_for_tests(sources: &Vec<SourceFile>) -> (found: Result<
    Vec<(String, Vec<String>)>,
    ScanError,
>)
    ensures
        match found {
            Ok(groups) => discovered(sources@) == Some(group_views(groups@)),
            Err(error) => error == ScanError::InvalidPattern && discovered(sources@) is None,
        },
{
    let mut groups: Vec<(String, Vec<String>)> = Vec::new();
    let mut i: usize = 0;
    while i < sources.len()
        invariant
            i <= sources.len(),
            discovered(sources@.take(i as int)) == Some(group_views(groups@)),
        decreases sources.len() - i,
    {
        proof {
            assert(sources@.take(i + 1).drop_last() == sources@.take(i as int));
        }
        let ghost before = groups@;
        match test_names(sources[i].content.as_str()) {
            Ok(names) => {
                if names.len() > 0 {
                    let group = (sources[i].path.clone(), names);
                    groups.push(group);
                    proof {
                        assert(group_views(groups@) == group_views(before).push(
                            (group.0@, string_views(group.1@)),
                        ));
                    }
                }
            },
            Err(error) => {
                proof {
                    lemma_failure_spreads(sources@, i + 1);
                }
                return Err(error);
            },
        }
        i += 1;
    }
    proof {
        assert(sources@.take(i as int) == sources@);
    }
    Ok(groups)
}

} // verus!
