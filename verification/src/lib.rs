//! Keeps a target repository's working tree synchronized with a subset of
//! files taken from an upstream "skeleton" repository tracked at a specific
//! revision, branch, or tag.
//!
//! This crate is the reconciliation core: it derives the file-level
//! operations (copy/delete) that bring the target into alignment with an
//! upstream snapshot, classifies each operation's risk from the target's
//! local state, and runs the two-phase dry-run/apply protocol with an
//! abort-unless-forced gate. The version-control backend, the filesystem,
//! and the terminal are driven by a thin unverified shell around this crate.

pub mod cli;
pub mod config;
pub mod error;
pub mod file;
pub mod engine;
pub mod policy;
