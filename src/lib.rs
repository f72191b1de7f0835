//! Snippet storage: capture files and directory trees as named snippets and
//! instantiate them again, through a depth-bounded tree replicator.
pub mod args;
pub mod error;
pub mod protocol;
pub mod replicate;
pub mod session;
pub mod template_name;
pub mod walk;
