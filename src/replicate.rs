//! The depth-bounded tree replicator, as a machine that decides the next
//! filesystem action from the answer to the last one.
//!
//! The first level (depth 0) is the listing handed to [`Replicator::start`]; each
//! directory entry descended into opens a level one deeper. A level deeper than
//! the maximum depth is closed at once, before its destination is looked at or
//! any of its entries is read. A destination directory is created, with its
//! missing ancestors, when a level within the bound is entered and it does not
//! exist yet.
use vstd::prelude::*;

use crate::error::Error;
use crate::protocol::{Action, Event};

verus! {

/// What the innermost open level waits for.
#[derive(Clone, Copy, Debug, PartialEq, Eq, Structural)]
pub enum Stage {
    /// Whether its destination exists.
    CheckingDest,
    /// The creation of its destination.
    CreatingDest,
    /// Its next entry.
    Listing,
    /// Whether the current entry is a file.
    Classifying,
    /// The copy of the current entry.
    Copying,
    /// The opening of the current entry as a nested level.
    Opening,
    /// The closing of the nested level it had opened.
    Resuming,
}

/// The state of one replication: how many levels are open, and what the
/// innermost one waits for. Every level but the innermost waits for the nested
/// level it opened. No level is open once the replication has finished.
#[derive(Debug)]
pub struct Replicator {
    pub max_depth: u8,
    pub levels: usize,
    pub stage: Stage,
}

/// The outcome of a read-side failure.
pub open spec fn lookup_failure(e: std::io::Error) -> Action {
    Action::Finish(Err(Error::Lookup(e)))
}

/// The outcome of a write-side failure.
pub open spec fn copy_failure(e: std::io::Error) -> Action {
    Action::Finish(Err(Error::CopyError(e)))
}

impl Replicator {
    /// At most one level per depth from 0 to `max_depth` is open.
    pub open spec fn wf(&self) -> bool {
        self.levels <= self.max_depth + 1
    }

    pub open spec fn finished(&self) -> bool {
        self.levels == 0
    }

    /// The depth of the innermost open level.
    pub open spec fn depth(&self) -> int {
        self.levels - 1
    }

    /// The events that answer the action the innermost level waits on.
    pub open spec fn accepts(&self, ev: &Event) -> bool {
        match self.stage {
            Stage::CheckingDest => ev is Flag,
            Stage::Listing => ev is Entry || ev is End || ev is Failed,
            Stage::Classifying => ev is Flag || ev is Failed,
            Stage::Resuming => ev is Done,
            _ => ev is Done || ev is Failed,
        }
    }

    /// The state `levels` open levels, the innermost waiting at `stage`.
    pub open spec fn at(&self, levels: int, stage: Stage) -> Replicator {
        Replicator { max_depth: self.max_depth, levels: levels as usize, stage }
    }

    /// The state once the replication has finished.
    pub open spec fn done(&self) -> Replicator {
        self.at(0, self.stage)
    }

    /// Closing the innermost level after its last entry: the whole replication
    /// succeeds when it is the first level; else the level that opened it resumes.
    pub open spec fn close(&self) -> (Replicator, Action) {
        if self.levels == 1 {
            (self.done(), Action::Finish(Ok(())))
        } else {
            (self.at(self.levels - 1, Stage::Resuming), Action::Leave)
        }
    }

    /// The next state and action, given the answer `ev` to the last action.
    pub open spec fn after(&self, ev: Event) -> (Replicator, Action) {
        match (self.stage, ev) {
            (Stage::CheckingDest, Event::Flag(true)) => (self.at(self.levels as int, Stage::Listing), Action::NextEntry),
            (Stage::CheckingDest, _) => (self.at(self.levels as int, Stage::CreatingDest), Action::CreateDest),
            (Stage::CreatingDest, Event::Failed(e)) => (self.done(), copy_failure(e)),
            (Stage::CreatingDest, _) => (self.at(self.levels as int, Stage::Listing), Action::NextEntry),
            (Stage::Listing, Event::Entry) => (self.at(self.levels as int, Stage::Classifying), Action::ReadKind),
            (Stage::Listing, Event::Failed(e)) => (self.done(), lookup_failure(e)),
            (Stage::Listing, _) => self.close(),
            (Stage::Classifying, Event::Flag(true)) => (self.at(self.levels as int, Stage::Copying), Action::CopyEntry),
            (Stage::Classifying, Event::Failed(e)) => (self.done(), lookup_failure(e)),
            (Stage::Classifying, _) => (self.at(self.levels as int, Stage::Opening), Action::OpenEntry),
            (Stage::Copying, Event::Failed(e)) => (self.done(), copy_failure(e)),
            (Stage::Copying, _) => (self.at(self.levels as int, Stage::Listing), Action::NextEntry),
            (Stage::Opening, Event::Failed(e)) => (self.done(), lookup_failure(e)),
            (Stage::Opening, _) => if self.levels > self.max_depth {
                (self.at(self.levels as int, Stage::Resuming), Action::Leave)
            } else {
                (self.at(self.levels + 1, Stage::CheckingDest), Action::CheckDest)
            },
            (Stage::Resuming, _) => (self.at(self.levels as int, Stage::Listing), Action::NextEntry),
        }
    }

    /// Begins a replication of the first level, which the driver holds, with
    /// the given maximum depth. The first level is always within the bound.
    pub fn start(max_depth: u8) -> (r: (Replicator, Action))
        ensures
            r.0.wf(),
            r.0.max_depth == max_depth,
            r.0.levels == 1,
            r.0.stage == Stage::CheckingDest,
            r.1 is CheckDest,
    {
        (Replicator { max_depth, levels: 1, stage: Stage::CheckingDest }, Action::CheckDest)
    }

    /// Whether `ev` answers the action the innermost level waits on.
    pub fn accepts_event(&self, ev: &Event) -> (r: bool)
        ensures
            r == self.accepts(ev),
    {
        match self.stage {
            Stage::CheckingDest => matches!(ev, Event::Flag(_)),
            Stage::Listing => matches!(ev, Event::Entry | Event::End | Event::Failed(_)),
            Stage::Classifying => matches!(ev, Event::Flag(_) | Event::Failed(_)),
            Stage::Resuming => matches!(ev, Event::Done),
            _ => matches!(ev, Event::Done | Event::Failed(_)),
        }
    }

    /// Takes the answer to the last action and returns the next one.
    pub fn step(&mut self, ev: Event) -> (r: Action)
        requires
            old(self).wf(),
            !old(self).finished(),
            old(self).accepts(&ev),
        ensures
            (*final(self), r) == old(self).after(ev),
            final(self).wf(),
    {
        let levels = self.levels;
        match (self.stage, ev) {
            (Stage::CheckingDest, Event::Flag(true)) => {
                self.stage = Stage::Listing;
                Action::NextEntry
            },
            (Stage::CheckingDest, _) => {
                self.stage = Stage::CreatingDest;
                Action::CreateDest
            },
            (Stage::CreatingDest, Event::Failed(e)) => {
                self.levels = 0;
                Action::Finish(Err(Error::CopyError(e)))
            },
            (Stage::CreatingDest, _) => {
                self.stage = Stage::Listing;
                Action::NextEntry
            },
            (Stage::Listing, Event::Entry) => {
                self.stage = Stage::Classifying;
                Action::ReadKind
            },
            (Stage::Listing, Event::Failed(e)) => {
                self.levels = 0;
                Action::Finish(Err(Error::Lookup(e)))
            },
            (Stage::Listing, _) => {
                if levels == 1 {
                    self.levels = 0;
                    Action::Finish(Ok(()))
                } else {
                    self.levels = levels - 1;
                    self.stage = Stage::Resuming;
                    Action::Leave
                }
            },
            (Stage::Classifying, Event::Flag(true)) => {
                self.stage = Stage::Copying;
                Action::CopyEntry
            },
            (Stage::Classifying, Event::Failed(e)) => {
                self.levels = 0;
                Action::Finish(Err(Error::Lookup(e)))
            },
            (Stage::Classifying, _) => {
                self.stage = Stage::Opening;
                Action::OpenEntry
            },
            (Stage::Copying, Event::Failed(e)) => {
                self.levels = 0;
                Action::Finish(Err(Error::CopyError(e)))
            },
            (Stage::Copying, _) => {
                self.stage = Stage::Listing;
                Action::NextEntry
            },
            (Stage::Opening, Event::Failed(e)) => {
                self.levels = 0;
                Action::Finish(Err(Error::Lookup(e)))
            },
            (Stage::Opening, _) => {
                if levels > self.max_depth as usize {
                    self.stage = Stage::Resuming;
                    Action::Leave
                } else {
                    self.levels = levels + 1;
                    self.stage = Stage::CheckingDest;
                    Action::CheckDest
                }
            },
            (Stage::Resuming, _) => {
                self.stage = Stage::Listing;
                Action::NextEntry
            },
        }
    }
}

/// Depth bound: whatever the answer, no level deeper than the maximum depth is
/// ever open, so every destination checked or created and every entry read,
/// copied or descended into lies at a depth from 0 to the maximum. A directory
/// entry that would open a level past the bound is closed again at once, and
/// exceeding the bound is never an error.
pub proof fn depth_bound(r: Replicator, ev: Event)
    requires
        r.wf(),
        !r.finished(),
        r.accepts(&ev),
    ensures
        ({
            let (next, a) = r.after(ev);
            &&& next.wf()
            &&& (a is CheckDest || a is CreateDest || a is NextEntry || a is ReadKind || a is CopyEntry
                || a is OpenEntry) ==> 0 <= next.depth() <= r.max_depth
            &&& (r.stage == Stage::Opening && ev is Done && r.levels > r.max_depth) ==> {
                &&& a is Leave
                &&& next.levels == r.levels
            }
        }),
{
}

/// Within the bound nothing is skipped: at a level no deeper than the maximum
/// depth, every entry read is classified, a file is copied, and a directory is
/// opened; a directory opened from a level shallower than the maximum is
/// entered as the next level, and its destination is created when missing.
pub proof fn nothing_skipped_within_bound(r: Replicator, ev: Event)
    requires
        r.wf(),
        !r.finished(),
        r.accepts(&ev),
    ensures
        r.stage == Stage::Listing && ev is Entry ==> r.after(ev).1 is ReadKind,
        r.stage == Stage::Classifying && ev == Event::Flag(true) ==> r.after(ev).1 is CopyEntry,
        r.stage == Stage::Classifying && ev == Event::Flag(false) ==> r.after(ev).1 is OpenEntry,
        r.stage == Stage::Opening && ev is Done && r.levels <= r.max_depth ==> {
            &&& r.after(ev).1 is CheckDest
            &&& r.after(ev).0.levels == r.levels + 1
        },
        r.stage == Stage::CheckingDest && ev == Event::Flag(false) ==> r.after(ev).1 is CreateDest,
        r.stage == Stage::CheckingDest && ev == Event::Flag(true) ==> r.after(ev).1 is NextEntry,
{
}

} // verus!
