//! The error taxonomy of the synchronization core.

use vstd::prelude::*;

verus! {

/// Every failure the core can report. String payloads carry the offending
/// name (a URL, a branch, a tag, a revision, or a file path) so that the
/// shell can print it alongside the message.
#[derive(Debug, Clone)]
pub enum ErrorKind {
    /// The current directory is not inside a version-controlled target.
    RepoDiscover,
    /// Cloning the upstream repository at the given URL failed.
    RepoClone(String),
    /// The selected branch does not exist upstream.
    BranchNotFound(String),
    /// The selected tag does not exist upstream.
    TagNotFound(String),
    /// The tracked revision is no longer resolvable upstream.
    RevisionNotFound(String),
    /// The tracking record at the given path could not be read.
    ConfigLoad(String),
    /// The tracking record at the given path could not be written.
    ConfigSave(String),
    /// The dry-run pass found operations that would clobber locally
    /// modified or uncommitted content, and force was not set.
    AbortByModified,
    /// The dry-run pass of a first synchronization found files that already
    /// exist in the target, and force was not set.
    AbortByExist,
    /// A first synchronization was requested but a tracking record already
    /// exists at the given path.
    AbortByConfigExist(String),
    /// The upstream tree diff reported a change kind the core does not
    /// support (a rename, copy, or type change); the whole operation is
    /// aborted rather than guessing at a safe default.
    UnsupportedDelta,
}

} // verus!
