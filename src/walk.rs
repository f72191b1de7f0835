//! What a whole replication does on a filesystem that answers without fault:
//! a model of directory trees, the run of the replicator over one, and the
//! proof that the run copies exactly the files that lie within the bound.
use vstd::prelude::*;

use crate::protocol::{Action, Event};
use crate::replicate::{Replicator, Stage};

verus! {

/// A filesystem entry: a file, or a directory with its entries in listing order.
pub enum Tree {
    File,
    Dir(Seq<Tree>),
}

/// Where an entry lies: the positions, in their listings, of the directories
/// that lead to it and of the entry itself.
pub type Position = Seq<nat>;

/// The positions of the files of a listing, in listing order, depth first,
/// leaving out what lies below directories at the bound: entries of the
/// listing lie at `depth`, and a directory's entries are copied only when they
/// lie no deeper than `max`. `kids` are the listing's entries from position
/// `first` on, `base` the position of the listing's directory.
pub open spec fn files_within(kids: Seq<Tree>, depth: int, max: int, base: Position, first: nat) -> Seq<Position>
    decreases kids,
{
    if kids.len() == 0 {
        seq![]
    } else {
        let here = base.push(first);
        let head = match kids[0] {
            Tree::File => seq![here],
            Tree::Dir(g) => if depth + 1 <= max {
                files_within(g, depth + 1, max, here, 0)
            } else {
                seq![]
            },
        };
        head + files_within(kids.subrange(1, kids.len() as int), depth, max, base, first + 1)
    }
}

/// The positions of all files of a listing, in listing order, depth first.
pub open spec fn all_files(kids: Seq<Tree>, base: Position, first: nat) -> Seq<Position>
    decreases kids,
{
    if kids.len() == 0 {
        seq![]
    } else {
        let here = base.push(first);
        let head = match kids[0] {
            Tree::File => seq![here],
            Tree::Dir(g) => all_files(g, here, 0),
        };
        head + all_files(kids.subrange(1, kids.len() as int), base, first + 1)
    }
}

/// Every entry of the listing, whose entries lie at `depth`, lies no deeper than `max`.
pub open spec fn fits(kids: Seq<Tree>, depth: int, max: int) -> bool
    decreases kids,
{
    if kids.len() == 0 {
        true
    } else {
        &&& depth <= max
        &&& match kids[0] {
            Tree::File => true,
            Tree::Dir(g) => fits(g, depth + 1, max),
        }
        &&& fits(kids.subrange(1, kids.len() as int), depth, max)
    }
}

/// The run of a replicator whose innermost level waits for its next entry,
/// over a listing, on a filesystem that answers each action without fault: an
/// entry is a file or a directory as the tree says, a file copy and a listing
/// succeed, and a destination is missing and then created. The result is the
/// state and action once the listing has ended, with the positions of the
/// entries copied; `None` where the replicator asks for an action that the
/// listing does not call for. `kids`, `base` and `first` are as in
/// [`files_within`].
pub open spec fn walk(r: Replicator, kids: Seq<Tree>, base: Position, first: nat) -> Option<(Replicator, Action, Seq<Position>)>
    decreases kids,
{
    if kids.len() == 0 {
        let (r1, a1) = r.after(Event::End);
        Some((r1, a1, seq![]))
    } else {
        let here = base.push(first);
        let rest = kids.subrange(1, kids.len() as int);
        let (r1, a1) = r.after(Event::Entry);
        if !(a1 is ReadKind) {
            None
        } else {
            match kids[0] {
                Tree::File => {
                    let (r2, a2) = r1.after(Event::Flag(true));
                    let (r3, a3) = r2.after(Event::Done);
                    if !(a2 is CopyEntry) || !(a3 is NextEntry) {
                        None
                    } else {
                        match walk(r3, rest, base, first + 1) {
                            Some((rf, af, copied)) => Some((rf, af, seq![here] + copied)),
                            None => None,
                        }
                    }
                },
                Tree::Dir(g) => {
                    let (r2, a2) = r1.after(Event::Flag(false));
                    let (r3, a3) = r2.after(Event::Done);
                    if !(a2 is OpenEntry) {
                        None
                    } else if a3 is Leave {
                        let (r4, a4) = r3.after(Event::Done);
                        if !(a4 is NextEntry) {
                            None
                        } else {
                            walk(r4, rest, base, first + 1)
                        }
                    } else if a3 is CheckDest {
                        let (r4, a4) = r3.after(Event::Flag(false));
                        let (r5, a5) = r4.after(Event::Done);
                        if !(a4 is CreateDest) || !(a5 is NextEntry) {
                            None
                        } else {
                            match walk(r5, g, here, 0) {
                                Some((r6, a6, inner)) => {
                                    let (r7, a7) = r6.after(Event::Done);
                                    if !(a6 is Leave) || !(a7 is NextEntry) {
                                        None
                                    } else {
                                        match walk(r7, rest, base, first + 1) {
                                            Some((rf, af, copied)) => Some((rf, af, inner + copied)),
                                            None => None,
                                        }
                                    }
                                },
                                None => None,
                            }
                        }
                    } else {
                        None
                    }
                },
            }
        }
    }
}

/// The run over a listing copies exactly the files within the bound, and ends
/// by closing the level: the whole replication succeeds at the first level,
/// and a nested level hands back to the level that opened it.
pub proof fn walk_copies_files_within(r: Replicator, kids: Seq<Tree>, base: Position, first: nat)
    requires
        r.wf(),
        r.levels >= 1,
        r.stage == Stage::Listing,
    ensures
        walk(r, kids, base, first) matches Some((rf, af, copied)) && {
            &&& copied == files_within(kids, r.depth(), r.max_depth as int, base, first)
            &&& rf.max_depth == r.max_depth
            &&& r.levels == 1 ==> rf.finished() && af == Action::Finish(Ok(()))
            &&& r.levels > 1 ==> {
                &&& rf.levels == r.levels - 1
                &&& rf.stage == Stage::Resuming
                &&& af is Leave
            }
        },
    decreases kids,
{
    if kids.len() > 0 {
        let here = base.push(first);
        let rest = kids.subrange(1, kids.len() as int);
        let (r1, a1) = r.after(Event::Entry);
        let (r2, a2) = r1.after(Event::Flag(true));
        let (r3, a3) = r2.after(Event::Done);
        walk_copies_files_within(r3, rest, base, first + 1);
        if let Tree::Dir(g) = kids[0] {
            let (r2, a2) = r1.after(Event::Flag(false));
            let (r3, a3) = r2.after(Event::Done);
            if a3 is Leave {
                let (r4, a4) = r3.after(Event::Done);
                walk_copies_files_within(r4, rest, base, first + 1);
            } else {
                let (r4, a4) = r3.after(Event::Flag(false));
                let (r5, a5) = r4.after(Event::Done);
                walk_copies_files_within(r5, g, here, 0);
                let (r6, a6, inner) = walk(r5, g, here, 0)->Some_0;
                let (r7, a7) = r6.after(Event::Done);
                walk_copies_files_within(r7, rest, base, first + 1);
            }
        }
    }
}

/// Within the bound, the files within it are all files.
pub proof fn files_within_fitting(kids: Seq<Tree>, depth: int, max: int, base: Position, first: nat)
    requires
        fits(kids, depth, max),
    ensures
        files_within(kids, depth, max, base, first) == all_files(kids, base, first),
    decreases kids,
{
    if kids.len() > 0 {
        let rest = kids.subrange(1, kids.len() as int);
        files_within_fitting(rest, depth, max, base, first + 1);
        if let Tree::Dir(g) = kids[0] {
            let here = base.push(first);
            files_within_fitting(g, depth + 1, max, here, 0);
            assert(fits(g, depth + 1, max));
            assert(depth + 1 <= max || g.len() == 0);
        }
    }
}

/// A file within the bound lies no deeper than the bound: a position of
/// length `n` is that of an entry at depth `n - 1`.
pub proof fn files_within_are_shallow(kids: Seq<Tree>, depth: int, max: int, base: Position, first: nat)
    requires
        base.len() == depth,
        0 <= depth <= max,
    ensures
        forall|i: int|
            0 <= i < files_within(kids, depth, max, base, first).len()
                ==> #[trigger] files_within(kids, depth, max, base, first)[i].len() <= max + 1,
    decreases kids,
{
    if kids.len() > 0 {
        let rest = kids.subrange(1, kids.len() as int);
        let here = base.push(first);
        files_within_are_shallow(rest, depth, max, base, first + 1);
        let head = match kids[0] {
            Tree::File => seq![here],
            Tree::Dir(g) => if depth + 1 <= max {
                files_within(g, depth + 1, max, here, 0)
            } else {
                seq![]
            },
        };
        if let Tree::Dir(g) = kids[0] {
            if depth + 1 <= max {
                files_within_are_shallow(g, depth + 1, max, here, 0);
            }
        }
        let tail = files_within(rest, depth, max, base, first + 1);
        assert(files_within(kids, depth, max, base, first) == head + tail);
        assert forall|i: int| 0 <= i < head.len() implies #[trigger] head[i].len() <= max + 1 by {}
        assert forall|i: int| 0 <= i < (head + tail).len() implies #[trigger] (head + tail)[i].len() <= max + 1 by {
            if i >= head.len() {
                assert((head + tail)[i] == tail[i - head.len()]);
            }
        }
    }
}

/// Depth bound over a whole replication: on a filesystem that answers without
/// fault, whatever the tree, the replication succeeds and copies exactly the
/// files within the bound, none of them deeper than the maximum depth.
pub proof fn replication_bounded(max_depth: u8, kids: Seq<Tree>)
    ensures
        ({
            let r0 = Replicator { max_depth, levels: 1, stage: Stage::CheckingDest };
            let (r1, a1) = r0.after(Event::Flag(false));
            let (r2, a2) = r1.after(Event::Done);
            &&& a1 is CreateDest
            &&& a2 is NextEntry
            &&& walk(r2, kids, seq![], 0) matches Some((rf, af, copied)) && {
                &&& copied == files_within(kids, 0, max_depth as int, seq![], 0)
                &&& forall|i: int| 0 <= i < copied.len() ==> #[trigger] copied[i].len() <= max_depth + 1
                &&& rf.finished()
                &&& af == Action::Finish(Ok(()))
            }
        }),
{
    let r0 = Replicator { max_depth, levels: 1, stage: Stage::CheckingDest };
    let (r1, a1) = r0.after(Event::Flag(false));
    let (r2, a2) = r1.after(Event::Done);
    walk_copies_files_within(r2, kids, seq![], 0);
    files_within_are_shallow(kids, 0, max_depth as int, seq![], 0);
}

/// Completeness at bounded depth: a replication started on a listing whose
/// entries all lie no deeper than the maximum depth, on a filesystem that
/// answers without fault, creates the missing destination, copies every file
/// of the tree, each to the same position, and succeeds.
pub proof fn replication_complete(max_depth: u8, kids: Seq<Tree>)
    requires
        fits(kids, 0, max_depth as int),
    ensures
        ({
            let r0 = Replicator { max_depth, levels: 1, stage: Stage::CheckingDest };
            let (r1, a1) = r0.after(Event::Flag(false));
            let (r2, a2) = r1.after(Event::Done);
            &&& a1 is CreateDest
            &&& a2 is NextEntry
            &&& walk(r2, kids, seq![], 0) matches Some((rf, af, copied)) && {
                &&& copied == all_files(kids, seq![], 0)
                &&& rf.finished()
                &&& af == Action::Finish(Ok(()))
            }
        }),
{
    let r0 = Replicator { max_depth, levels: 1, stage: Stage::CheckingDest };
    let (r1, a1) = r0.after(Event::Flag(false));
    let (r2, a2) = r1.after(Event::Done);
    walk_copies_files_within(r2, kids, seq![], 0);
    files_within_fitting(kids, 0, max_depth as int, seq![], 0);
}

} // verus!
