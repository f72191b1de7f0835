//! The two snippet operations, instantiate and capture, as a machine that
//! decides the next filesystem action from the answer to the last one. Both
//! end in the tree replicator, or in a single file copy for a captured file.
use vstd::prelude::*;

use crate::error::Error;
use crate::protocol::{Action, Event, Place, Root};
use crate::replicate::{copy_failure, lookup_failure, Replicator, Stage};
use crate::template_name::{backslashed, TemplateName};

verus! {

/// The directory under the configuration root that holds all snippets.
pub const TEMPLATE_FOLDER: &'static str = "templates";

/// Which operation a session carries out.
#[derive(Clone, Copy, Debug, PartialEq, Eq, Structural)]
pub enum Operation {
    /// Copy a snippet out of the store; with `with_parent`, into a directory
    /// named after the snippet inside the target.
    Instantiate { with_parent: bool },
    /// Copy a file or directory into the store; without `append`, whatever the
    /// store held under that name is removed first.
    Capture { append: bool },
}

/// What a session waits for.
#[derive(Clone, Copy, Debug, PartialEq, Eq, Structural)]
pub enum Phase {
    /// The working directory, taken as the target.
    ResolvingTarget,
    /// The opening of the snippet's listing.
    OpeningTemplate,
    /// Whether the snippet's listing has an entry.
    Peeking,
    /// Whether the snippet's store directory exists.
    CheckingStore,
    /// The removal of the snippet's store directory.
    Clearing,
    /// Whether the captured path is a file.
    Inspecting,
    /// Whether the captured file has a name.
    Naming,
    /// The creation of the snippet's store directory.
    CreatingStore,
    /// The copy of the captured file into the store.
    CopyingFile,
    /// The opening of the captured directory's listing.
    OpeningSource,
    /// The opening of the first level of the replication.
    Entering,
    /// The replication.
    Replicating,
    /// Nothing: the operation is over.
    Finished,
}

/// One instantiate or capture operation in progress. `name` is the snippet's
/// name as path text.
#[derive(Debug)]
pub struct Session {
    pub name: String,
    pub max_depth: u8,
    pub operation: Operation,
    pub phase: Phase,
    pub copy: Replicator,
}

/// The segments of a snippet's store directory below the configuration root.
pub open spec fn store_segments(name: Seq<char>) -> Seq<Seq<char>> {
    seq![TEMPLATE_FOLDER@, name]
}

impl Session {
    /// The replication runs exactly in the replicating phase, and an instantiate
    /// session never passes through the phases of a capture.
    pub open spec fn wf(&self) -> bool {
        &&& self.copy.wf()
        &&& self.copy.max_depth == self.max_depth
        &&& (self.phase == Phase::Replicating <==> !self.copy.finished())
        &&& self.operation is Instantiate ==> {
            ||| self.phase == Phase::ResolvingTarget
            ||| self.phase == Phase::OpeningTemplate
            ||| self.phase == Phase::Peeking
            ||| self.phase == Phase::Entering
            ||| self.phase == Phase::Replicating
            ||| self.phase == Phase::Finished
        }
        &&& self.operation == (Operation::Capture { append: true }) ==> {
            &&& self.phase != Phase::CheckingStore
            &&& self.phase != Phase::Clearing
        }
    }

    pub open spec fn finished(&self) -> bool {
        self.phase == Phase::Finished
    }

    /// The directory a place lies under.
    pub open spec fn root_of(&self, place: Place) -> Root {
        match place {
            Place::Source => Root::Source,
            Place::Destination => if self.operation is Instantiate {
                Root::Target
            } else {
                Root::Config
            },
            Place::Store => Root::Config,
        }
    }

    /// The path segments of a place below its root directory. An instantiate
    /// copies into the target itself, or with `with_parent` into the target
    /// joined with the snippet's name; a capture copies into the store.
    pub open spec fn segments_of(&self, place: Place) -> Seq<Seq<char>> {
        match place {
            Place::Source => seq![],
            Place::Destination => match self.operation {
                Operation::Instantiate { with_parent } => if with_parent {
                    seq![self.name@]
                } else {
                    seq![]
                },
                Operation::Capture { .. } => store_segments(self.name@),
            },
            Place::Store => store_segments(self.name@),
        }
    }

    /// The events that answer the action the session waits on.
    pub open spec fn accepts(&self, ev: &Event) -> bool {
        match self.phase {
            Phase::Peeking | Phase::CheckingStore | Phase::Naming => ev is Flag,
            Phase::Inspecting => ev is Flag || ev is Failed,
            Phase::Entering => ev is Done,
            Phase::Replicating => self.copy.accepts(ev),
            Phase::Finished => false,
            _ => ev is Done || ev is Failed,
        }
    }

    /// This session in another phase.
    pub open spec fn in_phase(&self, phase: Phase) -> Session {
        Session { phase, ..*self }
    }

    /// The next state and action, given the answer `ev` to the last action.
    pub open spec fn after(&self, ev: Event) -> (Session, Action) {
        match (self.phase, ev) {
            (Phase::ResolvingTarget, Event::Failed(e)) => (self.in_phase(Phase::Finished), lookup_failure(e)),
            (Phase::ResolvingTarget, _) => (self.in_phase(Phase::OpeningTemplate), Action::OpenListing(Place::Store)),
            (Phase::OpeningTemplate, Event::Failed(e)) => (self.in_phase(Phase::Finished), lookup_failure(e)),
            (Phase::OpeningTemplate, _) => (self.in_phase(Phase::Peeking), Action::PeekListing),
            (Phase::Peeking, Event::Flag(true)) => (self.in_phase(Phase::Entering), Action::BeginCopy(Place::Destination)),
            (Phase::Peeking, _) => (self.in_phase(Phase::Finished), Action::Finish(Err(Error::EmptyDirectory))),
            (Phase::CheckingStore, Event::Flag(true)) => (self.in_phase(Phase::Clearing), Action::RemoveAll(Place::Store)),
            (Phase::CheckingStore, _) => (self.in_phase(Phase::Inspecting), Action::Inspect(Place::Source)),
            (Phase::Clearing, Event::Failed(e)) => (self.in_phase(Phase::Finished), copy_failure(e)),
            (Phase::Clearing, _) => (self.in_phase(Phase::Inspecting), Action::Inspect(Place::Source)),
            (Phase::Inspecting, Event::Failed(e)) => (self.in_phase(Phase::Finished), lookup_failure(e)),
            (Phase::Inspecting, Event::Flag(true)) => (self.in_phase(Phase::Naming), Action::CheckFileName(Place::Source)),
            (Phase::Inspecting, _) => (self.in_phase(Phase::OpeningSource), Action::OpenListing(Place::Source)),
            (Phase::Naming, Event::Flag(true)) => (self.in_phase(Phase::CreatingStore), Action::CreateAll(Place::Store)),
            (Phase::Naming, _) => (self.in_phase(Phase::Finished), Action::Finish(Err(Error::MissingFilename))),
            (Phase::CreatingStore, Event::Failed(e)) => (self.in_phase(Phase::Finished), copy_failure(e)),
            (Phase::CreatingStore, _) => (self.in_phase(Phase::CopyingFile), Action::CopyFileInto(Place::Source, Place::Store)),
            (Phase::CopyingFile, Event::Failed(e)) => (self.in_phase(Phase::Finished), copy_failure(e)),
            (Phase::CopyingFile, _) => (self.in_phase(Phase::Finished), Action::Finish(Ok(()))),
            (Phase::OpeningSource, Event::Failed(e)) => (self.in_phase(Phase::Finished), lookup_failure(e)),
            (Phase::OpeningSource, _) => (self.in_phase(Phase::Entering), Action::BeginCopy(Place::Destination)),
            (Phase::Entering, _) => (
                Session {
                    phase: Phase::Replicating,
                    copy: Replicator { max_depth: self.max_depth, levels: 1, stage: Stage::CheckingDest },
                    ..*self
                },
                Action::CheckDest,
            ),
            (Phase::Replicating, ev) => {
                let (copy, a) = self.copy.after(ev);
                (
                    Session {
                        phase: if copy.finished() { Phase::Finished } else { Phase::Replicating },
                        copy,
                        ..*self
                    },
                    a,
                )
            },
            (Phase::Finished, _) => (*self, Action::Finish(Ok(()))),
        }
    }

    /// A session that instantiates the snippet `name`. Without a given target
    /// it first resolves the working directory as the target.
    pub fn instantiate(name: &TemplateName, with_parent: bool, target_given: bool, max_depth: u8) -> (r: (Session, Action))
        ensures
            r.0.wf(),
            r.0.name@ == name@ || r.0.name@ == backslashed(name@),
            r.0.max_depth == max_depth,
            r.0.operation == (Operation::Instantiate { with_parent }),
            target_given ==> r.0.phase == Phase::OpeningTemplate && r.1 == Action::OpenListing(Place::Store),
            !target_given ==> r.0.phase == Phase::ResolvingTarget && r.1 is ResolveWorkingDir,
    {
        let (phase, first) = if target_given {
            (Phase::OpeningTemplate, Action::OpenListing(Place::Store))
        } else {
            (Phase::ResolvingTarget, Action::ResolveWorkingDir)
        };
        let session = Session {
            name: name.normalized(),
            max_depth,
            operation: Operation::Instantiate { with_parent },
            phase,
            copy: Replicator { max_depth, levels: 0, stage: Stage::CheckingDest },
        };
        (session, first)
    }

    /// A session that captures the source path as the snippet `name`. Without
    /// `append` it first looks whether the snippet's store directory exists.
    pub fn capture(name: &TemplateName, append: bool, max_depth: u8) -> (r: (Session, Action))
        ensures
            r.0.wf(),
            r.0.name@ == name@ || r.0.name@ == backslashed(name@),
            r.0.max_depth == max_depth,
            r.0.operation == (Operation::Capture { append }),
            !append ==> r.0.phase == Phase::CheckingStore && r.1 == Action::Exists(Place::Store),
            append ==> r.0.phase == Phase::Inspecting && r.1 == Action::Inspect(Place::Source),
    {
        let (phase, first) = if append {
            (Phase::Inspecting, Action::Inspect(Place::Source))
        } else {
            (Phase::CheckingStore, Action::Exists(Place::Store))
        };
        let session = Session {
            name: name.normalized(),
            max_depth,
            operation: Operation::Capture { append },
            phase,
            copy: Replicator { max_depth, levels: 0, stage: Stage::CheckingDest },
        };
        (session, first)
    }

    /// The root directory and the path segments below it of a place.
    pub fn resolve(&self, place: Place) -> (r: (Root, Vec<String>))
        ensures
            r.0 == self.root_of(place),
            r.1@.map_values(|s: String| s@) == self.segments_of(place),
    {
        let mut parts: Vec<String> = Vec::new();
        let root = match place {
            Place::Source => Root::Source,
            Place::Destination => match self.operation {
                Operation::Instantiate { with_parent } => {
                    if with_parent {
                        parts.push(self.name.clone());
                    }
                    Root::Target
                },
                Operation::Capture { .. } => {
                    parts.push(TEMPLATE_FOLDER.to_owned());
                    parts.push(self.name.clone());
                    Root::Config
                },
            },
            Place::Store => {
                parts.push(TEMPLATE_FOLDER.to_owned());
                parts.push(self.name.clone());
                Root::Config
            },
        };
        assert(parts@.map_values(|s: String| s@) =~= self.segments_of(place));
        (root, parts)
    }

    /// Whether `ev` answers the action the session waits on.
    pub fn accepts_event(&self, ev: &Event) -> (r: bool)
        ensures
            r == self.accepts(ev),
    {
        match self.phase {
            Phase::Peeking | Phase::CheckingStore | Phase::Naming => matches!(ev, Event::Flag(_)),
            Phase::Inspecting => matches!(ev, Event::Flag(_) | Event::Failed(_)),
            Phase::Entering => matches!(ev, Event::Done),
            Phase::Replicating => self.copy.accepts_event(ev),
            Phase::Finished => false,
            _ => matches!(ev, Event::Done | Event::Failed(_)),
        }
    }

    /// Takes the answer to the last action and returns the next one.
    pub fn step(&mut self, ev: Event) -> (r: Action)
        requires
            old(self).wf(),
            old(self).accepts(&ev),
        ensures
            (*final(self), r) == old(self).after(ev),
            final(self).wf(),
    {
        match (self.phase, ev) {
            (Phase::ResolvingTarget, Event::Failed(e)) => {
                self.phase = Phase::Finished;
                Action::Finish(Err(Error::Lookup(e)))
            },
            (Phase::ResolvingTarget, _) => {
                self.phase = Phase::OpeningTemplate;
                Action::OpenListing(Place::Store)
            },
            (Phase::OpeningTemplate, Event::Failed(e)) => {
                self.phase = Phase::Finished;
                Action::Finish(Err(Error::Lookup(e)))
            },
            (Phase::OpeningTemplate, _) => {
                self.phase = Phase::Peeking;
                Action::PeekListing
            },
            (Phase::Peeking, Event::Flag(true)) => {
                self.phase = Phase::Entering;
                Action::BeginCopy(Place::Destination)
            },
            (Phase::Peeking, _) => {
                self.phase = Phase::Finished;
                Action::Finish(Err(Error::EmptyDirectory))
            },
            (Phase::CheckingStore, Event::Flag(true)) => {
                self.phase = Phase::Clearing;
                Action::RemoveAll(Place::Store)
            },
            (Phase::CheckingStore, _) => {
                self.phase = Phase::Inspecting;
                Action::Inspect(Place::Source)
            },
            (Phase::Clearing, Event::Failed(e)) => {
                self.phase = Phase::Finished;
                Action::Finish(Err(Error::CopyError(e)))
            },
            (Phase::Clearing, _) => {
                self.phase = Phase::Inspecting;
                Action::Inspect(Place::Source)
            },
            (Phase::Inspecting, Event::Failed(e)) => {
                self.phase = Phase::Finished;
                Action::Finish(Err(Error::Lookup(e)))
            },
            (Phase::Inspecting, Event::Flag(true)) => {
                self.phase = Phase::Naming;
                Action::CheckFileName(Place::Source)
            },
            (Phase::Inspecting, _) => {
                self.phase = Phase::OpeningSource;
                Action::OpenListing(Place::Source)
            },
            (Phase::Naming, Event::Flag(true)) => {
                self.phase = Phase::CreatingStore;
                Action::CreateAll(Place::Store)
            },
            (Phase::Naming, _) => {
                self.phase = Phase::Finished;
                Action::Finish(Err(Error::MissingFilename))
            },
            (Phase::CreatingStore, Event::Failed(e)) => {
                self.phase = Phase::Finished;
                Action::Finish(Err(Error::CopyError(e)))
            },
            (Phase::CreatingStore, _) => {
                self.phase = Phase::CopyingFile;
                Action::CopyFileInto(Place::Source, Place::Store)
            },
            (Phase::CopyingFile, Event::Failed(e)) => {
                self.phase = Phase::Finished;
                Action::Finish(Err(Error::CopyError(e)))
            },
            (Phase::CopyingFile, _) => {
                self.phase = Phase::Finished;
                Action::Finish(Ok(()))
            },
            (Phase::OpeningSource, Event::Failed(e)) => {
                self.phase = Phase::Finished;
                Action::Finish(Err(Error::Lookup(e)))
            },
            (Phase::OpeningSource, _) => {
                self.phase = Phase::Entering;
                Action::BeginCopy(Place::Destination)
            },
            (Phase::Entering, _) => {
                let (copy, first) = Replicator::start(self.max_depth);
                self.copy = copy;
                self.phase = Phase::Replicating;
                first
            },
            (Phase::Replicating, ev) => {
                let a = self.copy.step(ev);
                if self.copy.levels == 0 {
                    self.phase = Phase::Finished;
                }
                a
            },
            (Phase::Finished, _) => Action::Finish(Ok(())),
        }
    }
}

/// Empty snippets: an instantiate session whose snippet listing is empty
/// finishes with `EmptyDirectory`; and until its replication starts, an
/// instantiate session asks for no change to the filesystem, so an empty
/// snippet leaves no trace at the destination.
pub proof fn empty_snippet_rule(s: Session, ev: Event)
    requires
        s.wf(),
        s.operation is Instantiate,
        s.accepts(&ev),
    ensures
        s.phase == Phase::Peeking && ev == Event::Flag(false) ==> {
            &&& s.after(ev).1 == Action::Finish(Err(Error::EmptyDirectory))
            &&& s.after(ev).0.finished()
        },
        s.phase != Phase::Replicating ==> !s.after(ev).1.writes(),
{
}

/// Destructive overwrite: without `append`, a capture first asks whether the
/// snippet's store directory exists and, when it does, removes it before it
/// reads the source or writes anything; a failed removal ends the capture.
pub proof fn capture_clears_store(s: Session, ev: Event)
    requires
        s.wf(),
        s.operation == (Operation::Capture { append: false }),
        s.accepts(&ev),
    ensures
        s.phase == Phase::CheckingStore && ev == Event::Flag(true) ==> s.after(ev).1 == Action::RemoveAll(Place::Store),
        s.phase == Phase::CheckingStore && ev == Event::Flag(false) ==> s.after(ev).1 == Action::Inspect(Place::Source),
        s.phase == Phase::Clearing && ev is Done ==> s.after(ev).1 == Action::Inspect(Place::Source),
        s.phase == Phase::Clearing && ev is Failed ==> s.after(ev).1 matches Action::Finish(Err(Error::CopyError(_))),
{
}

/// Additive capture: with `append`, a capture never removes anything, so what
/// the store held before stays beside what is copied in.
pub proof fn append_keeps_store(s: Session, ev: Event)
    requires
        s.wf(),
        s.operation == (Operation::Capture { append: true }),
        s.accepts(&ev),
    ensures
        !(s.after(ev).1 is RemoveAll),
        s.after(ev).0.wf(),
{
}

/// Single-file capture: a captured file with a name is copied, under that name,
/// into the store directory `templates/<name>` below the configuration root,
/// which is created first.
pub proof fn single_file_capture(s: Session, ev: Event)
    requires
        s.wf(),
        s.operation is Capture,
        s.accepts(&ev),
    ensures
        s.phase == Phase::Inspecting && ev == Event::Flag(true) ==> s.after(ev).1 == Action::CheckFileName(Place::Source),
        s.phase == Phase::Naming && ev == Event::Flag(true) ==> s.after(ev).1 == Action::CreateAll(Place::Store),
        s.phase == Phase::Naming && ev == Event::Flag(false) ==> s.after(ev).1 == Action::Finish(Err(Error::MissingFilename)),
        s.phase == Phase::CreatingStore && ev is Done ==> s.after(ev).1 == Action::CopyFileInto(Place::Source, Place::Store),
        s.root_of(Place::Store) == Root::Config,
        s.segments_of(Place::Store) == seq![TEMPLATE_FOLDER@, s.name@],
        s.root_of(Place::Source) == Root::Source,
        s.segments_of(Place::Source) == Seq::<Seq<char>>::empty(),
{
}

/// With-parent: a non-empty snippet is replicated into the target joined with
/// the snippet's name when `with_parent` is set, and into the target itself
/// otherwise.
pub proof fn with_parent_destination(s: Session, ev: Event)
    requires
        s.wf(),
        s.operation is Instantiate,
        s.accepts(&ev),
    ensures
        s.phase == Phase::Peeking && ev == Event::Flag(true) ==> s.after(ev).1 == Action::BeginCopy(Place::Destination),
        s.root_of(Place::Destination) == Root::Target,
        s.operation == (Operation::Instantiate { with_parent: true }) ==> s.segments_of(Place::Destination) == seq![s.name@],
        s.operation == (Operation::Instantiate { with_parent: false }) ==> s.segments_of(Place::Destination) == Seq::<Seq<char>>::empty(),
{
}

} // verus!
