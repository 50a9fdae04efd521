//! The bounded store of output lines.

use crate::text::{lines_of, split_lines, string_views};
use vstd::prelude::*;
use vstd::slice::slice_subrange;

verus! {

/// The number of lines a buffer keeps unless told otherwise.
pub const DEFAULT_CAPACITY: usize = 1000;

/// The most recent `capacity` lines of `lines`: all of them where they fit,
/// else what is left once the oldest are dropped.
pub open spec fn newest(lines: Seq<Seq<char>>, capacity: nat) -> Seq<Seq<char>> {
    if lines.len() <= capacity {
        lines
    } else {
        lines.skip(lines.len() - capacity)
    }
}

/// The content of a buffer of `capacity` lines that held `lines`, after `text`
/// was appended to it.
pub open spec fn appended(lines: Seq<Seq<char>>, capacity: nat, text: Seq<char>) -> Seq<Seq<char>> {
    newest(lines + lines_of(text), capacity)
}

/// The content of a buffer after each of `chunks` was appended to it in turn.
pub open spec fn appended_all(lines: Seq<Seq<char>>, capacity: nat, chunks: Seq<Seq<char>>) -> Seq<
    Seq<char>,
>
    decreases chunks.len(),
{
    if chunks.len() == 0 {
        lines
    } else {
        appended(appended_all(lines, capacity, chunks.drop_last()), capacity, chunks.last())
    }
}

/// All the lines of `chunks`, in order.
pub open spec fn all_lines(chunks: Seq<Seq<char>>) -> Seq<Seq<char>>
    decreases chunks.len(),
{
    if chunks.len() == 0 {
        Seq::empty()
    } else {
        all_lines(chunks.drop_last()) + lines_of(chunks.last())
    }
}

/// The first and one-past-last index of the lines that a request for `count`
/// lines from `start` on gets from a store of `len` lines.
pub open spec fn slice_bounds(len: nat, start: nat, count: nat) -> (int, int) {
    let lo = if start < len { start as int } else { len as int };
    let hi = if start + count < len { (start + count) as int } else { len as int };
    (lo, hi)
}

/// Dropping old lines never leaves more than the capacity.
pub proof fn lemma_newest_bounded(lines: Seq<Seq<char>>, capacity: nat)
    ensures
        newest(lines, capacity).len() <= capacity,
        newest(lines, capacity).len() <= lines.len(),
        lines.len() <= capacity ==> newest(lines, capacity) == lines,
{
}

/// Lines that were dropped earlier would be dropped later too: keeping the
/// newest of what was kept and then extended is keeping the newest of all.
pub proof fn lemma_newest_absorbs(
    lines: Seq<Seq<char>>,
    more: Seq<Seq<char>>,
    capacity: nat,
)
    ensures
        newest(newest(lines, capacity) + more, capacity) == newest(lines + more, capacity),
{
    let kept = newest(lines, capacity);
    if lines.len() > capacity {
        let dropped = lines.len() - capacity;
        assert(kept + more == (lines + more).skip(dropped));
        if (kept + more).len() > capacity {
            assert((kept + more).skip((kept + more).len() - capacity) == (lines + more).skip(
                (lines + more).len() - capacity,
            ));
        } else {
            assert(more.len() == 0);
        }
    }
}

/// However many chunks are appended, a buffer that was within its capacity
/// stays within it.
pub proof fn lemma_appends_stay_bounded(
    lines: Seq<Seq<char>>,
    capacity: nat,
    chunks: Seq<Seq<char>>,
)
    requires
        lines.len() <= capacity,
    ensures
        appended_all(lines, capacity, chunks).len() <= capacity,
    decreases chunks.len(),
{
    if chunks.len() > 0 {
        lemma_appends_stay_bounded(lines, capacity, chunks.drop_last());
    }
}

/// After any number of appends a buffer holds the newest lines of all that it
/// was given, in the order in which they came.
pub proof fn lemma_appends_keep_newest(
    lines: Seq<Seq<char>>,
    capacity: nat,
    chunks: Seq<Seq<char>>,
)
    requires
        lines.len() <= capacity,
    ensures
        appended_all(lines, capacity, chunks) == newest(lines + all_lines(chunks), capacity),
    decreases chunks.len(),
{
    if chunks.len() == 0 {
        assert(lines + all_lines(chunks) == lines);
    } else {
        let front = chunks.drop_last();
        lemma_appends_keep_newest(lines, capacity, front);
        lemma_newest_absorbs(lines + all_lines(front), lines_of(chunks.last()), capacity);
        assert(lines + all_lines(front) + lines_of(chunks.last()) == lines + all_lines(chunks));
    }
}

/// A store of text lines that keeps the most recent `capacity` of them.
pub struct OutputBuffer {
    pub lines: Vec<String>,
    pub capacity: usize,
}

impl View for OutputBuffer {
    type V = Seq<Seq<char>>;

    open spec fn view(&self) -> Seq<Seq<char>> {
        string_views(self.lines@)
    }
}

impl OutputBuffer {
    /// The buffer holds no more lines than its capacity.
    pub open spec fn wf(&self) -> bool {
        self@.len() <= self.capacity
    }

    /// An empty buffer of the default capacity.
    pub fn new() -> (buffer: OutputBuffer)
        ensures
            buffer@ == Seq::<Seq<char>>::empty(),
            buffer.capacity == DEFAULT_CAPACITY,
            buffer.wf(),
    {
        OutputBuffer { lines: Vec::new(), capacity: DEFAULT_CAPACITY }
    }

    /// An empty buffer that keeps up to `capacity` lines.
    pub fn with_capacity(capacity: usize) -> (buffer: OutputBuffer)
        ensures
            buffer@ == Seq::<Seq<char>>::empty(),
            buffer.capacity == capacity,
            buffer.wf(),
    {
        OutputBuffer { lines: Vec::new(), capacity }
    }

    /// Splits `text` into lines, adds them at the end and drops the oldest
    /// lines until no more than the capacity are left.
    pub fn append(&mut self, text: &str)
        ensures
            final(self)@ == appended(old(self)@, old(self).capacity as nat, text@),
            final(self).capacity == old(self).capacity,
            final(self).wf(),
    {
        let mut fresh = split_lines(text);
        let ghost before = self.lines@;
        let ghost added = fresh@;
        self.lines.append(&mut fresh);
        proof {
            assert(string_views(before + added) == string_views(before) + string_views(added));
        }
        let len = self.lines.len();
        if len > self.capacity {
            let kept = self.lines.split_off(len - self.capacity);
            proof {
                assert(string_views(kept@) == string_views(before + added).skip(
                    len - self.capacity,
                ));
            }
            self.lines = kept;
        }
    }

    /// Drops every line.
    pub fn clear(&mut self)
        ensures
            final(self)@ == Seq::<Seq<char>>::empty(),
            final(self).capacity == old(self).capacity,
            final(self).wf(),
    {
        self.lines.clear();
    }

    /// The number of lines held.
    pub fn line_count(&self) -> (count: usize)
        ensures
            count == self@.len(),
    {
        self.lines.len()
    }

    /// Up to `count` lines from line `start` on; fewer where the buffer ends
    /// before that, none where `start` is at or past its end.
    pub fn slice(&self, start: usize, count: usize) -> (lines: &[String])
        ensures
            string_views(lines@) == self@.subrange(
                slice_bounds(self@.len(), start as nat, count as nat).0,
                slice_bounds(self@.len(), start as nat, count as nat).1,
            ),
    {
        let len = self.lines.len();
        let lo = if start < len { start } else { len };
        let hi = if count < len - lo { lo + count } else { len };
        let lines = slice_subrange(self.lines.as_slice(), lo, hi);
        proof {
            assert(string_views(lines@) == string_views(self.lines@).subrange(lo as int, hi as int));
        }
        lines
    }
}

} // verus!
