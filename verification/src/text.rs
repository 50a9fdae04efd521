//! Text helpers: splitting a chunk of output into lines, and writing a count
//! in decimal.

use vstd::prelude::*;
use vstd::std_specs::iter::IteratorSpec;
use vstd::string::StringExecFns;

verus! {

/// The strings of a sequence, each by its characters.
pub open spec fn string_views(strings: Seq<String>) -> Seq<Seq<char>> {
    strings.map_values(|s: String| s@)
}

/// The index of the first line feed of `text`, or its length where it has none.
pub open spec fn line_end(text: Seq<char>) -> nat
    decreases text.len(),
{
    if text.len() == 0 || text[0] == '\n' {
        0
    } else {
        1 + line_end(text.skip(1))
    }
}

/// A line without the carriage return that stood before its line feed.
pub open spec fn strip_cr(line: Seq<char>) -> Seq<char> {
    if line.len() > 0 && line.last() == '\r' {
        line.drop_last()
    } else {
        line
    }
}

/// The lines of a text. A line ends at a line feed, or at a carriage return
/// directly followed by a line feed; the terminator is not part of the line.
/// What follows the last line feed is a line of its own unless it is empty,
/// so a final terminator is optional. A carriage return elsewhere is an
/// ordinary character.
pub open spec fn lines_of(text: Seq<char>) -> Seq<Seq<char>>
    decreases text.len(),
{
    if text.len() == 0 {
        Seq::empty()
    } else {
        let end = line_end(text);
        if end >= text.len() {
            seq![text]
        } else {
            seq![strip_cr(text.take(end as int))] + lines_of(text.skip(end as int + 1))
        }
    }
}

/// `line_end` is the one index that has a line feed, or the end, and no line
/// feed before it.
pub proof fn lemma_line_end(text: Seq<char>, k: int)
    requires
        0 <= k <= text.len(),
        forall|j: int| 0 <= j < k ==> text[j] != '\n',
        k < text.len() ==> text[k] == '\n',
    ensures
        line_end(text) == k,
    decreases text.len(),
{
    if k > 0 {
        lemma_line_end(text.skip(1), k - 1);
    }
}

/// Splits a text into its lines.
pub fn split_lines(text: &str) -> (lines: Vec<String>)
    ensures
        string_views(lines@) == lines_of(text@),
{
    let n = text.unicode_len();
    let ghost s = text@;
    let mut lines: Vec<String> = Vec::new();
    let mut chars = text.chars();
    let mut start: usize = 0;
    let mut i: usize = 0;
    let mut after_cr = false;
    proof {
        assert(s.skip(0) == s);
        assert(string_views(lines@) == Seq::<Seq<char>>::empty());
    }
    while i < n
        invariant
            s == text@,
            n == s.len(),
            start <= i <= n,
            chars.remaining() == s.skip(i as int),
            after_cr == (i > start && s[i - 1] == '\r'),
            forall|j: int| start <= j < i ==> s[j] != '\n',
            string_views(lines@) + lines_of(s.skip(start as int)) == lines_of(s),
        decreases n - i,
    {
        let next = chars.next();
        let c = next.unwrap();
        assert(c == s[i as int]);
        if c == '\n' {
            let end = if after_cr { i - 1 } else { i };
            let line = String::from_str(text.substring_char(start, end));
            proof {
                let rest = s.skip(start as int);
                lemma_line_end(rest, i - start);
                assert(rest.take(i - start) == s.subrange(start as int, i as int));
                assert(rest.skip(i - start + 1) == s.skip(i + 1));
                assert(line@ == strip_cr(rest.take(i - start)));
                assert(string_views(lines@.push(line)) == string_views(lines@) + seq![line@]);
            }
            lines.push(line);
            start = i + 1;
            after_cr = false;
        } else {
            after_cr = c == '\r';
        }
        i += 1;
        proof {
            assert(s.skip(i - 1).drop_first() == s.skip(i as int));
        }
    }
    if start < n {
        let line = String::from_str(text.substring_char(start, n));
        proof {
            let rest = s.skip(start as int);
            lemma_line_end(rest, n - start);
            assert(rest == s.subrange(start as int, n as int));
            assert(string_views(lines@.push(line)) == string_views(lines@) + seq![line@]);
        }
        lines.push(line);
    }
    lines
}

/// The character of a decimal digit.
pub open spec fn digit(d: nat) -> char {
    if d == 0 {
        '0'
    } else if d == 1 {
        '1'
    } else if d == 2 {
        '2'
    } else if d == 3 {
        '3'
    } else if d == 4 {
        '4'
    } else if d == 5 {
        '5'
    } else if d == 6 {
        '6'
    } else if d == 7 {
        '7'
    } else if d == 8 {
        '8'
    } else {
        '9'
    }
}

/// A number in decimal, without leading zeros; 0 is written `0`.
pub open spec fn decimal(n: nat) -> Seq<char>
    decreases n,
{
    if n < 10 {
        seq![digit(n)]
    } else {
        decimal(n / 10).push(digit(n % 10))
    }
}

/// The characters of a run of digits that is held lowest digit first.
spec fn digits_text(digits: Seq<u8>) -> Seq<char>
    decreases digits.len(),
{
    if digits.len() == 0 {
        Seq::empty()
    } else {
        seq![digit(digits.last() as nat)] + digits_text(digits.drop_last())
    }
}

/// What stands before the last digit of a number in decimal.
spec fn leading(n: nat) -> Seq<char> {
    if n == 0 {
        Seq::empty()
    } else {
        decimal(n)
    }
}

fn digit_str(d: u8) -> (s: &'static str)
    requires
        d < 10,
    ensures
        s@ == seq![digit(d as nat)],
{
    proof {
        reveal_strlit("0");
        reveal_strlit("1");
        reveal_strlit("2");
        reveal_strlit("3");
        reveal_strlit("4");
        reveal_strlit("5");
        reveal_strlit("6");
        reveal_strlit("7");
        reveal_strlit("8");
        reveal_strlit("9");
    }
    let s = match d {
        0 => "0",
        1 => "1",
        2 => "2",
        3 => "3",
        4 => "4",
        5 => "5",
        6 => "6",
        7 => "7",
        8 => "8",
        _ => "9",
    };
    assert(s@ =~= seq![digit(d as nat)]);
    s
}

/// Writes a number in decimal.
pub fn decimal_string(n: usize) -> (s: String)
    ensures
        s@ == decimal(n as nat),
{
    let mut digits: Vec<u8> = Vec::new();
    digits.push((n % 10) as u8);
    let mut rest = n / 10;
    proof {
        assert(digits_text(digits@) == seq![digit((n % 10) as nat)]) by {
            assert(digits@.drop_last() == Seq::<u8>::empty());
            assert(digits_text(digits@.drop_last()) == Seq::<char>::empty());
        }
        assert(decimal(n as nat) == leading(rest as nat) + digits_text(digits@));
    }
    while rest > 0
        invariant
            decimal(n as nat) == leading(rest as nat) + digits_text(digits@),
            forall|j: int| 0 <= j < digits@.len() ==> digits@[j] < 10,
        decreases rest,
    {
        let d = (rest % 10) as u8;
        let ghost before = digits@;
        digits.push(d);
        proof {
            assert(digits@.drop_last() == before);
            assert(decimal(rest as nat) == leading((rest / 10) as nat) + seq![digit(d as nat)]);
        }
        rest = rest / 10;
    }
    let mut s = String::new();
    let mut i = digits.len();
    proof {
        assert(digits@.take(i as int) == digits@);
        assert(s@ + digits_text(digits@) == digits_text(digits@));
    }
    while i > 0
        invariant
            i <= digits@.len(),
            forall|j: int| 0 <= j < digits@.len() ==> digits@[j] < 10,
            s@ + digits_text(digits@.take(i as int)) == digits_text(digits@),
        decreases i,
    {
        proof {
            assert(digits@.take(i as int).drop_last() == digits@.take(i - 1));
        }
        i -= 1;
        s.append(digit_str(digits[i]));
    }
    proof {
        assert(digits@.take(0) == Seq::<u8>::empty());
    }
    s
}

} // verus!
