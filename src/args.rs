//! The arguments of the two operations, as the command line hands them over.
use vstd::prelude::*;

use crate::protocol::{Action, Place};
use crate::session::{Operation, Phase, Session};
use crate::template_name::{backslashed, TemplateName};

verus! {

/// A filesystem path, carried through to the driver and never inspected here.
#[verifier::external_type_specification]
#[verifier::external_body]
pub struct ExPathBuf(std::path::PathBuf);

/// Everything the command line gives: where snippets are stored, and what to do.
#[derive(Debug)]
pub struct Args {
    /// Location of snippets storage.
    pub config_location: std::path::PathBuf,
    pub command: Command,
}

/// The operations the tool offers.
#[derive(Debug)]
pub enum Command {
    /// Instantiate a snippet.
    New(NewArgs),
    /// Create a new snippet.
    Register(RegisterArgs),
}

/// Arguments of an instantiate operation.
#[derive(Default, Debug)]
pub struct NewArgs {
    /// Place the snippet under a directory path named after it.
    pub with_parent: bool,
    /// The snippet to copy out.
    pub template_name: TemplateName,
    /// Target directory; the working directory when absent.
    pub target_path: Option<std::path::PathBuf>,
    /// Deepest directory level that is copied.
    pub max_depth: u8,
}

/// Arguments of a capture operation.
#[derive(Default, Debug)]
pub struct RegisterArgs {
    /// The snippet to create.
    pub template_name: TemplateName,
    /// A single file, or a directory whose contents are captured.
    pub target_path: std::path::PathBuf,
    /// Keep what the snippet already holds and add to it.
    pub append: bool,
    /// Deepest directory level that is copied.
    pub max_depth: u8,
}

impl NewArgs {
    /// The instantiate session these arguments ask for, with its first action.
    pub fn session(&self) -> (r: (Session, Action))
        ensures
            r.0.wf(),
            r.0.name@ == self.template_name@ || r.0.name@ == backslashed(self.template_name@),
            r.0.max_depth == self.max_depth,
            r.0.operation == (Operation::Instantiate { with_parent: self.with_parent }),
            self.target_path is Some ==> r.0.phase == Phase::OpeningTemplate && r.1 == Action::OpenListing(Place::Store),
            self.target_path is None ==> r.0.phase == Phase::ResolvingTarget && r.1 is ResolveWorkingDir,
    {
        Session::instantiate(&self.template_name, self.with_parent, self.target_path.is_some(), self.max_depth)
    }
}

impl RegisterArgs {
    /// The capture session these arguments ask for, with its first action.
    pub fn session(&self) -> (r: (Session, Action))
        ensures
            r.0.wf(),
            r.0.name@ == self.template_name@ || r.0.name@ == backslashed(self.template_name@),
            r.0.max_depth == self.max_depth,
            r.0.operation == (Operation::Capture { append: self.append }),
            !self.append ==> r.0.phase == Phase::CheckingStore && r.1 == Action::Exists(Place::Store),
            self.append ==> r.0.phase == Phase::Inspecting && r.1 == Action::Inspect(Place::Source),
    {
        Session::capture(&self.template_name, self.append, self.max_depth)
    }
}

} // verus!
