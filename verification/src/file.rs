//! Per-file decision logic: whether two contents differ, how risky one
//! copy or delete is given the target's local state, and what the apply
//! pass must do for it.
//!
//! The shell gathers an [`Observation`] per path (byte contents, working
//! tree status, on-disk existence) and every decision taken on it is made
//! here, in verified code.

use vstd::prelude::*;

verus! {

/// What the target repository's version control reports about a path.
///
/// `Unavailable` means the status oracle could not answer (for example the
/// path is outside version control entirely); the core then falls back to
/// plain on-disk existence, treating "exists" as unsafe.
#[derive(Debug, Clone, Copy, PartialEq, Eq, Structural)]
pub enum LocalStatus {
    /// Tracked and without local changes.
    Clean,
    /// Tracked, with local modifications (or locally deleted).
    Modified,
    /// Present on disk but not tracked by the target's version control.
    Untracked,
    /// The status oracle gave no answer for this path.
    Unavailable,
}

/// Everything the shell observed about one path before the core decides.
/// Existence is determined by the link itself (`lstat`), never by
/// dereferencing: a broken symbolic link still "exists".
#[derive(Debug, Clone, Copy, PartialEq, Eq, Structural)]
pub struct Observation {
    /// Whether source and target contents differ byte-for-byte (a missing
    /// target counts as differing). Meaningful for copy operations.
    pub differs: bool,
    /// The target-side working-tree status of the path.
    pub status: LocalStatus,
    /// Whether the path exists in the target's filesystem (by `lstat`).
    pub exists: bool,
    /// Whether the source-side path is a symbolic link (to be reproduced
    /// as a link, not dereferenced).
    pub src_is_link: bool,
}

/// The risk class of one pending operation, shown by the dry-run pass.
#[derive(Debug, Clone, Copy, PartialEq, Eq, Structural)]
pub enum Risk {
    /// Safe: the target has no local changes at this path.
    Clean,
    /// Unsafe: the path exists in the target but is not tracked.
    Untracked,
    /// Unsafe: the target has local modifications at this path.
    LocallyModified,
    /// Skipped: one of the two ignore policies matches the path.
    Ignored,
    /// A delete whose target is already absent; reported, not unsafe.
    Missing,
}

/// What the apply pass must do for one operation.
#[derive(Debug, Clone, Copy, PartialEq, Eq, Structural)]
pub enum ApplyAction {
    /// Create missing parent directories, then byte-copy the file.
    CopyBytes,
    /// Create missing parent directories, then reproduce the symbolic
    /// link, pointing at the same link target.
    CopyLink,
    /// Remove the path, then prune now-empty parent directories.
    Remove,
    /// Do not touch the target.
    Skip,
}

/// An operation counts toward the abort gate exactly when its risk says
/// the target holds content not already matching the upstream state.
pub open spec fn risk_unsafe(r: Risk) -> bool {
    r is Untracked || r is LocallyModified
}

/// Risk of copying a path, or `None` when source and target are already
/// identical (nothing to do, nothing reported).
pub open spec fn copy_risk(ignored: bool, o: Observation) -> Option<Risk> {
    if !o.differs {
        None
    } else if ignored {
        Some(Risk::Ignored)
    } else {
        match o.status {
            LocalStatus::Clean => Some(Risk::Clean),
            LocalStatus::Modified => Some(Risk::LocallyModified),
            LocalStatus::Untracked => Some(Risk::Untracked),
            LocalStatus::Unavailable => if o.exists {
                Some(Risk::Untracked)
            } else {
                Some(Risk::Clean)
            },
        }
    }
}

/// Risk of deleting a path; a delete is always reported.
pub open spec fn delete_risk(ignored: bool, o: Observation) -> Risk {
    if ignored {
        Risk::Ignored
    } else {
        match o.status {
            LocalStatus::Clean => Risk::Clean,
            LocalStatus::Modified => Risk::LocallyModified,
            LocalStatus::Untracked => Risk::Untracked,
            LocalStatus::Unavailable => if o.exists {
                Risk::Untracked
            } else {
                Risk::Missing
            },
        }
    }
}

/// Classifies a copy operation for the dry-run pass.
pub fn classify_copy(ignored: bool, o: Observation) -> (r: Option<Risk>)
    ensures
        r == copy_risk(ignored, o),
{
    if !o.differs {
        None
    } else if ignored {
        Some(Risk::Ignored)
    } else {
        match o.status {
            LocalStatus::Clean => Some(Risk::Clean),
            LocalStatus::Modified => Some(Risk::LocallyModified),
            LocalStatus::Untracked => Some(Risk::Untracked),
            LocalStatus::Unavailable => if o.exists {
                Some(Risk::Untracked)
            } else {
                Some(Risk::Clean)
            },
        }
    }
}

/// Classifies a delete operation for the dry-run pass.
pub fn classify_delete(ignored: bool, o: Observation) -> (r: Risk)
    ensures
        r == delete_risk(ignored, o),
{
    if ignored {
        Risk::Ignored
    } else {
        match o.status {
            LocalStatus::Clean => Risk::Clean,
            LocalStatus::Modified => Risk::LocallyModified,
            LocalStatus::Untracked => Risk::Untracked,
            LocalStatus::Unavailable => if o.exists {
                Risk::Untracked
            } else {
                Risk::Missing
            },
        }
    }
}

/// What the apply pass does for a copy: nothing when the contents already
/// agree or the path is ignored; otherwise materialize the file, as a
/// link when the source is one.
pub open spec fn copy_apply(ignored: bool, o: Observation) -> ApplyAction {
    if !o.differs {
        ApplyAction::Skip
    } else if ignored {
        ApplyAction::Skip
    } else if o.src_is_link {
        ApplyAction::CopyLink
    } else {
        ApplyAction::CopyBytes
    }
}

/// What the apply pass does for a delete: nothing when the path is
/// ignored or already absent; otherwise remove it.
pub open spec fn delete_apply(ignored: bool, o: Observation) -> ApplyAction {
    if ignored {
        ApplyAction::Skip
    } else if !o.exists {
        ApplyAction::Skip
    } else {
        ApplyAction::Remove
    }
}

/// Plans the apply action for a copy operation.
pub fn plan_copy(ignored: bool, o: Observation) -> (a: ApplyAction)
    ensures
        a == copy_apply(ignored, o),
{
    if !o.differs {
        ApplyAction::Skip
    } else if ignored {
        ApplyAction::Skip
    } else if o.src_is_link {
        ApplyAction::CopyLink
    } else {
        ApplyAction::CopyBytes
    }
}

/// Plans the apply action for a delete operation.
pub fn plan_delete(ignored: bool, o: Observation) -> (a: ApplyAction)
    ensures
        a == delete_apply(ignored, o),
{
    if ignored {
        ApplyAction::Skip
    } else if !o.exists {
        ApplyAction::Skip
    } else {
        ApplyAction::Remove
    }
}

/// Two contents are the same only when both are present and byte-equal;
/// a missing side always counts as differing.
pub open spec fn same_contents(src: Option<Seq<u8>>, tgt: Option<Seq<u8>>) -> bool {
    src matches Some(s) && tgt matches Some(t) && s == t
}

/// Byte-for-byte comparison of two optional file contents, as read by the
/// shell; `true` means the copy has work to do.
pub fn contents_differ(src: Option<&Vec<u8>>, tgt: Option<&Vec<u8>>) -> (r: bool)
    ensures
        r == !same_contents(
            match src {
                Some(s) => Some(s@),
                None => None,
            },
            match tgt {
                Some(t) => Some(t@),
                None => None,
            },
        ),
{
    match (src, tgt) {
        (Some(s), Some(t)) => !bytes_eq(s, t),
        _ => true,
    }
}

fn bytes_eq(a: &Vec<u8>, b: &Vec<u8>) -> (r: bool)
    ensures
        r == (a@ == b@),
{
    if a.len() != b.len() {
        return false;
    }
    let mut i: usize = 0;
    while i < a.len()
        invariant
            i <= a.len(),
            a.len() == b.len(),
            forall|j: int| 0 <= j < i ==> a@[j] == b@[j],
        decreases a.len() - i,
    {
        if a[i] != b[i] {
            return false;
        }
        i += 1;
    }
    proof {
        assert(a@ =~= b@);
    }
    true
}

} // verus!
