use vstd::prelude::*;

verus! {

/// The I/O failure that caused a lookup or copy error; carried along, never inspected.
#[verifier::external_type_specification]
#[verifier::external_body]
pub struct ExIoError(std::io::Error);

/// Every way an instantiate or capture operation can fail.
#[derive(Debug)]
pub enum Error {
    /// A write-side filesystem operation failed (copy, create, remove).
    CopyError(std::io::Error),
    /// A read-side filesystem operation failed (listing, metadata, entry).
    Lookup(std::io::Error),
    /// The snippet to instantiate has no entries.
    EmptyDirectory,
    /// The captured file has no file name component.
    MissingFilename,
}

} // verus!
