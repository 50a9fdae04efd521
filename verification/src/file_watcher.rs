//! The watch-mode coordinator: from change events to reruns.

use crate::app::{App, Command};
use std::collections::VecDeque;
use vstd::prelude::*;

verus! {

/// What a modification changed.
#[derive(Clone, Copy, Debug, PartialEq, Eq, Structural)]
pub enum ModifyKind {
    Any,
    Data,
    Metadata,
    Name,
    Other,
}

/// The kind of a change in the watched directory.
#[derive(Clone, Copy, Debug, PartialEq, Eq, Structural)]
pub enum ChangeKind {
    Any,
    Access,
    Create,
    Modify(ModifyKind),
    Remove,
    Other,
}

/// Whether a change may have altered what a file holds: a modification that
/// is not one of the metadata alone.
pub open spec fn is_content_change(kind: ChangeKind) -> bool {
    kind matches ChangeKind::Modify(what) && what != ModifyKind::Metadata
}

/// Whether any of `events` is a content change.
pub open spec fn any_content_change(events: Seq<ChangeKind>) -> bool {
    exists|i: int| 0 <= i < events.len() && is_content_change(#[trigger] events[i])
}

/// The change events that arrived and were not looked at yet, oldest first.
pub struct FileWatcher {
    pub pending: VecDeque<ChangeKind>,
}

impl View for FileWatcher {
    type V = Seq<ChangeKind>;

    open spec fn view(&self) -> Seq<ChangeKind> {
        self.pending@
    }
}

impl FileWatcher {
    /// A watcher with no event pending.
    pub fn new() -> (watcher: FileWatcher)
        ensures
            watcher@ == Seq::<ChangeKind>::empty(),
    {
        FileWatcher { pending: VecDeque::new() }
    }

    /// Takes note of an event that arrived.
    pub fn record(&mut self, kind: ChangeKind)
        ensures
            final(self)@ == old(self)@.push(kind),
    {
        self.pending.push_back(kind);
    }

    /// Hands out the oldest pending event, if there is one.
    pub fn check_events(&mut self) -> (event: Option<ChangeKind>)
        ensures
            match event {
                Some(kind) => old(self)@.len() > 0 && kind == old(self)@[0] && final(self)@
                    == old(self)@.drop_first(),
                None => old(self)@.len() == 0 && final(self)@ == old(self)@,
            },
    {
        self.pending.pop_front()
    }

    /// Whether an event calls for a rerun: whether it is a content change.
    pub fn should_run_tests(&self, event: &ChangeKind) -> (run: bool)
        ensures
            run == is_content_change(*event),
    {
        match event {
            ChangeKind::Modify(what) => match what {
                ModifyKind::Metadata => false,
                _ => true,
            },
            _ => false,
        }
    }

    /// One tick of the scheduler. With watch mode on, all pending events are
    /// taken as one batch, and the batch calls for one rerun where it holds a
    /// content change. With watch mode off the events stay pending.
    pub fn poll(&mut self, watch_mode: bool) -> (run: bool)
        ensures
            run == (watch_mode && any_content_change(old(self)@)),
            final(self)@ == if watch_mode {
                Seq::<ChangeKind>::empty()
            } else {
                old(self)@
            },
    {
        if !watch_mode {
            return false;
        }
        let ghost batch = self.pending@;
        let ghost mut seen: int = 0;
        let mut run = false;
        loop
            invariant
                0 <= seen <= batch.len(),
                self.pending@ == batch.skip(seen),
                run == any_content_change(batch.take(seen)),
            ensures
                self.pending@ == Seq::<ChangeKind>::empty(),
                run == any_content_change(batch),
            decreases batch.len() - seen,
        {
            match self.pending.pop_front() {
                Some(kind) => {
                    let hit = self.should_run_tests(&kind);
                    proof {
                        assert(kind == batch[seen]);
                        assert(batch.skip(seen).subrange(1, batch.len() - seen) == batch.skip(
                            seen + 1,
                        ));
                        let longer = batch.take(seen + 1);
                        assert(longer.drop_last() == batch.take(seen));
                        if run {
                            let i = choose|i: int|
                                0 <= i < seen && is_content_change(#[trigger] batch.take(seen)[i]);
                            assert(is_content_change(longer[i]));
                        }
                        if hit {
                            assert(is_content_change(longer[seen]));
                        }
                        if any_content_change(longer) {
                            let i = choose|i: int|
                                0 <= i < longer.len() && is_content_change(#[trigger] longer[i]);
                            if i < seen {
                                assert(is_content_change(batch.take(seen)[i]));
                            }
                        }
                        seen = seen + 1;
                    }
                    run = run || hit;
                },
                None => {
                    proof {
                        assert(batch.take(seen) == batch);
                    }
                    break ;
                },
            }
        }
        run
    }

    /// One tick of the scheduler in a session: where the events call for a
    /// rerun, the output is cleared and the caller is asked to run the selected
    /// test.
    pub fn tick(&mut self, app: &mut App) -> (command: Command)
        ensures
            command == if old(app).watch_mode && any_content_change(old(self)@) {
                Command::RunTest
            } else {
                Command::Continue
            },
            final(self)@ == if old(app).watch_mode {
                Seq::<ChangeKind>::empty()
            } else {
                old(self)@
            },
            command == Command::Continue ==> *final(app) == *old(app),
            command == Command::RunTest ==> {
                &&& final(app).test_output@ == Seq::<Seq<char>>::empty()
                &&& final(app).test_output.capacity == old(app).test_output.capacity
                &&& final(app).output_scroll == 0
                &&& final(app).follow_output
                &&& final(app).same_session(old(app))
            },
            old(app).wf() ==> final(app).wf(),
    {
        if self.poll(app.watch_mode) {
            app.clear_test_output();
            Command::RunTest
        } else {
            Command::Continue
        }
    }
}

} // verus!
