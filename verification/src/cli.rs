//! The subcommands and the decisions they imply: which flow each one
//! drives, whether it forces past the abort gate, and how a selector is
//! spelled as a reference name for the version-control backend.

use vstd::prelude::*;
use vstd::string::StringExecFns;
use crate::engine::FlowKind;

verus! {

/// One parsed invocation. The shell parses the command line into this
/// and everything decided from it is decided here.
#[derive(Debug, Clone)]
pub enum Opt {
    /// First synchronization against the upstream at `url`, optionally
    /// pinned to a branch or a tag (at most one of the two).
    Init { url: String, branch: Option<String>, tag: Option<String>, force: bool },
    /// Update to the latest revision of the tracked selector.
    Update { force: bool },
    /// Retarget to a branch, then update.
    Branch { branch: String, force: bool },
    /// Retarget to a tag, then update.
    Tag { tag: String, force: bool },
    /// Remove every file the skeleton installed, and the tracking record.
    Clean { force: bool },
}

/// The flow a subcommand drives: branch and tag retargets reconcile
/// exactly like an update, from the previously tracked revision to the
/// newly resolved head.
pub open spec fn flow_of(o: Opt) -> FlowKind {
    match o {
        Opt::Init { .. } => FlowKind::Init,
        Opt::Update { .. } => FlowKind::Update,
        Opt::Branch { .. } => FlowKind::Update,
        Opt::Tag { .. } => FlowKind::Update,
        Opt::Clean { .. } => FlowKind::Clean,
    }
}

/// Whether the invocation suppresses the abort gate.
pub open spec fn force_of(o: Opt) -> bool {
    match o {
        Opt::Init { force, .. } => force,
        Opt::Update { force } => force,
        Opt::Branch { force, .. } => force,
        Opt::Tag { force, .. } => force,
        Opt::Clean { force } => force,
    }
}

impl Opt {
    /// Decides [`flow_of`] for this invocation.
    pub fn flow_kind(&self) -> (f: FlowKind)
        ensures
            f == flow_of(*self),
    {
        match self {
            Opt::Init { .. } => FlowKind::Init,
            Opt::Update { .. } => FlowKind::Update,
            Opt::Branch { .. } => FlowKind::Update,
            Opt::Tag { .. } => FlowKind::Update,
            Opt::Clean { .. } => FlowKind::Clean,
        }
    }

    /// Decides [`force_of`] for this invocation.
    pub fn force_flag(&self) -> (b: bool)
        ensures
            b == force_of(*self),
    {
        match self {
            Opt::Init { force, .. } => *force,
            Opt::Update { force } => *force,
            Opt::Branch { force, .. } => *force,
            Opt::Tag { force, .. } => *force,
            Opt::Clean { force } => *force,
        }
    }
}

/// A branch selector resolves to the tip of the remote-tracking branch
/// of this name.
pub fn branch_ref_name(name: &str) -> (r: String)
    ensures
        r@ == "origin/"@ + name@,
{
    let prefix: String = "origin/".to_owned();
    prefix.concat(name)
}

/// A tag selector resolves to the target of the reference of this name.
pub fn tag_ref_name(name: &str) -> (r: String)
    ensures
        r@ == "refs/tags/"@ + name@,
{
    let prefix: String = "refs/tags/".to_owned();
    prefix.concat(name)
}

} // verus!
