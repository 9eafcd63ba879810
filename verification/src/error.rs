//! The ways an update can fail.

use vstd::prelude::*;

verus! {

/// Why an update was abandoned.
#[derive(Clone, Copy, Debug, PartialEq, Eq, Structural)]
pub enum UpdateError {
    /// The release feed or the artifact could not be fetched.
    NetworkFailure,
    /// The feed, a tag or the running version could not be read.
    DecodeFailure,
    /// The artifact is no archive, or the entry that decides cannot be read.
    CorruptArchive,
    /// The archive holds no regular file.
    MissingEntry,
    /// A rename, write or delete of the handoff failed.
    FilesystemFailure,
    /// The helper process could not be launched.
    SpawnFailure,
}

} // verus!
