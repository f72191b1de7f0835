use vstd::prelude::*;

use crate::error::Error;

verus! {

/// A directory that only the driver can resolve to a real path.
#[derive(Clone, Copy, Debug, PartialEq, Eq, Structural)]
pub enum Root {
    /// The configuration root, under which the snippet store lives.
    Config,
    /// The directory a snippet is instantiated into: the one given, or else the
    /// working directory.
    Target,
    /// The file or directory being captured.
    Source,
}

/// A path that an operation works on, named by its role.
#[derive(Clone, Copy, Debug, PartialEq, Eq, Structural)]
pub enum Place {
    /// The snippet's directory in the store.
    Store,
    /// Where the first level of a replication is copied to.
    Destination,
    /// The file or directory being captured.
    Source,
}

/// What the driver observed when it carried out the last action.
#[derive(Debug)]
pub enum Event {
    /// The action succeeded and has no answer.
    Done,
    /// The answer to a yes/no question (exists, is a file, is non-empty, has a name).
    Flag(bool),
    /// The listing yielded its next entry, which is now the current entry.
    Entry,
    /// The listing has no more entries.
    End,
    /// The filesystem operation failed.
    Failed(std::io::Error),
}

/// What the driver is asked to do next.
///
/// The driver keeps a stack of open levels; each level holds a directory listing,
/// the destination it is copied into, and the entry most recently read from it.
/// The replication actions speak of the innermost level.
#[derive(Debug)]
pub enum Action {
    /// Take the current working directory as the target. Answer: `Done` or `Failed`.
    ResolveWorkingDir,
    /// Open the listing of a directory and hold it as the pending listing.
    /// Answer: `Done` or `Failed`.
    OpenListing(Place),
    /// Whether the pending listing has at least one entry, without consuming it.
    /// Answer: `Flag`.
    PeekListing,
    /// Whether a path exists. Answer: `Flag`.
    Exists(Place),
    /// Remove a directory and everything beneath it. Answer: `Done` or `Failed`.
    RemoveAll(Place),
    /// Whether a path is a regular file, by its metadata. Answer: `Flag` or `Failed`.
    Inspect(Place),
    /// Whether a path has a final file name component. Answer: `Flag`.
    CheckFileName(Place),
    /// Create a directory with all its missing ancestors. Answer: `Done` or `Failed`.
    CreateAll(Place),
    /// Copy the file at the first path into the directory at the second, under
    /// its own file name. Answer: `Done` or `Failed`.
    CopyFileInto(Place, Place),
    /// Open the first level: the pending listing, copied into this destination.
    /// Answer: `Done`.
    BeginCopy(Place),
    /// Whether the destination of the innermost level exists. Answer: `Flag`.
    CheckDest,
    /// Create the destination of the innermost level with all its missing
    /// ancestors. Answer: `Done` or `Failed`.
    CreateDest,
    /// Read the next entry of the innermost listing. Answer: `Entry`, `End` or `Failed`.
    NextEntry,
    /// Whether the current entry is a regular file, by metadata fetched now.
    /// Answer: `Flag` or `Failed`.
    ReadKind,
    /// Copy the current entry into the innermost destination under its own name.
    /// Answer: `Done` or `Failed`.
    CopyEntry,
    /// Open the listing of the current entry and push it as a new innermost
    /// level, copied into the innermost destination joined with the entry's
    /// name. Answer: `Done` or `Failed`.
    OpenEntry,
    /// Close the innermost level. Answer: `Done`.
    Leave,
    /// The operation is over, with this outcome.
    Finish(Result<(), Error>),
}

impl Action {
    /// The actions that change the filesystem.
    pub open spec fn writes(&self) -> bool {
        ||| self is RemoveAll
        ||| self is CreateAll
        ||| self is CopyFileInto
        ||| self is CreateDest
        ||| self is CopyEntry
    }
}

} // verus!
