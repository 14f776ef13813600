//! The reconciliation engine: derives the operation list for each flow,
//! classifies every operation, and runs the two-phase dry-run/apply
//! protocol with the abort-unless-forced gate.

use vstd::prelude::*;
use crate::error::ErrorKind;
use crate::file::{
    ApplyAction, Observation, Risk, classify_copy, classify_delete, copy_apply, copy_risk,
    delete_apply, delete_risk, plan_copy, plan_delete, risk_unsafe,
};
use crate::policy::{PolicyPair, pair_ignored};

verus! {

/// The two kinds of file-level change the engine ever makes.
#[derive(Debug, Clone, Copy, PartialEq, Eq, Structural)]
pub enum OpKind {
    /// Copy (or re-link) a path from the upstream snapshot to the target.
    CopyFile,
    /// Remove a path from the target, pruning now-empty parents.
    DeleteFile,
}

/// One pending file-level change.
#[derive(Debug, Clone)]
pub struct Operation {
    pub kind: OpKind,
    /// Path relative to both repository roots.
    pub path: String,
}

/// One entry of the upstream tree diff between the tracked revision and
/// the new snapshot head. Any change kind other than add, delete, or
/// modify (a rename, copy, or type change) arrives as `Unsupported`.
#[derive(Debug, Clone, Copy, PartialEq, Eq, Structural)]
pub enum DiffStatus {
    Added,
    Deleted,
    Modified,
    Unsupported,
}

/// One upstream-side change, as handed over by the diff backend.
#[derive(Debug, Clone)]
pub struct DiffEntry {
    pub status: DiffStatus,
    pub path: String,
}

/// The operation a supported diff entry turns into: deletions become
/// deletes, additions and modifications become copies.
pub open spec fn kind_for_status(s: DiffStatus) -> OpKind {
    match s {
        DiffStatus::Deleted => OpKind::DeleteFile,
        _ => OpKind::CopyFile,
    }
}

/// Whether every entry of the diff is a supported change kind.
pub open spec fn diff_supported(entries: Seq<DiffEntry>) -> bool {
    forall|i: int| 0 <= i < entries.len() ==> #[trigger] entries[i].status !is Unsupported
}

/// Operation list of an update flow: one operation per supported diff
/// entry, in diff order. An unsupported entry is a hard abort: the engine
/// never guesses a safe default for an unrecognized change kind.
///
/// Branch and tag retargets go through this same derivation, deletions
/// included: a file the previously tracked selector installed that the
/// newly selected one lacks is deleted, exactly as in a plain update.
pub fn ops_from_diff(entries: &Vec<DiffEntry>) -> (r: Result<Vec<Operation>, ErrorKind>)
    ensures
        r is Ok <==> diff_supported(entries@),
        r matches Ok(ops) ==> ops@.len() == entries@.len() && forall|i: int|
            0 <= i < entries@.len() ==> #[trigger] ops@[i].kind == kind_for_status(
                entries@[i].status,
            ) && ops@[i].path@ == entries@[i].path@,
        r matches Err(e) ==> e is UnsupportedDelta,
{
    let mut ops: Vec<Operation> = Vec::new();
    let mut i: usize = 0;
    while i < entries.len()
        invariant
            i <= entries@.len(),
            ops@.len() == i,
            forall|j: int| 0 <= j < i ==> #[trigger] entries@[j].status !is Unsupported,
            forall|j: int| 0 <= j < i ==> #[trigger] ops@[j].kind == kind_for_status(
                entries@[j].status,
            ) && ops@[j].path@ == entries@[j].path@,
        decreases entries@.len() - i,
    {
        let kind = match entries[i].status {
            DiffStatus::Added => OpKind::CopyFile,
            DiffStatus::Modified => OpKind::CopyFile,
            DiffStatus::Deleted => OpKind::DeleteFile,
            DiffStatus::Unsupported => {
                return Err(ErrorKind::UnsupportedDelta);
            },
        };
        let path = entries[i].path.clone();
        ops.push(Operation { kind, path });
        i += 1;
    }
    Ok(ops)
}

/// Operation list of a first synchronization: copy every path of the new
/// snapshot's file listing. No deletions are possible, there being no
/// prior synchronized state.
pub fn ops_for_init(files: &Vec<String>) -> (ops: Vec<Operation>)
    ensures
        ops@.len() == files@.len(),
        forall|i: int| 0 <= i < files@.len() ==> #[trigger] ops@[i].kind == OpKind::CopyFile
            && ops@[i].path@ == files@[i]@,
{
    let mut ops: Vec<Operation> = Vec::new();
    let mut i: usize = 0;
    while i < files.len()
        invariant
            i <= files@.len(),
            ops@.len() == i,
            forall|j: int| 0 <= j < i ==> #[trigger] ops@[j].kind == OpKind::CopyFile
                && ops@[j].path@ == files@[j]@,
        decreases files@.len() - i,
    {
        ops.push(Operation { kind: OpKind::CopyFile, path: files[i].clone() });
        i += 1;
    }
    ops
}

/// Operation list of a clean flow: delete every path the skeleton ever
/// installed, as listed by the snapshot at the currently tracked selector.
pub fn ops_for_clean(files: &Vec<String>) -> (ops: Vec<Operation>)
    ensures
        ops@.len() == files@.len(),
        forall|i: int| 0 <= i < files@.len() ==> #[trigger] ops@[i].kind == OpKind::DeleteFile
            && ops@[i].path@ == files@[i]@,
{
    let mut ops: Vec<Operation> = Vec::new();
    let mut i: usize = 0;
    while i < files.len()
        invariant
            i <= files@.len(),
            ops@.len() == i,
            forall|j: int| 0 <= j < i ==> #[trigger] ops@[j].kind == OpKind::DeleteFile
                && ops@[j].path@ == files@[j]@,
        decreases files@.len() - i,
    {
        ops.push(Operation { kind: OpKind::DeleteFile, path: files[i].clone() });
        i += 1;
    }
    ops
}

/// Which command drives the engine; it decides which error an abort
/// reports and how the operation set was derived.
#[derive(Debug, Clone, Copy, PartialEq, Eq, Structural)]
pub enum FlowKind {
    /// First synchronization: copy the whole snapshot listing.
    Init,
    /// Update (also branch/tag retarget): reconcile from the tracked
    /// revision to the newly resolved head.
    Update,
    /// Teardown: delete everything the skeleton ever installed.
    Clean,
}

/// The engine's position in the two-phase protocol.
#[derive(Debug, Clone, Copy, PartialEq, Eq, Structural)]
pub enum Phase {
    /// First pass: classify and report every operation, mutating nothing.
    DryRun,
    /// Unsafe operations were found and force was not
    /// set. No apply action was or will be handed out.
    Aborted,
    /// Second pass: hand out one apply action per operation.
    Applying,
    /// Both passes are over; the tracking record may be persisted.
    Done,
}

/// Risk of one operation, with the ignore decision folded in; `None`
/// means an already-identical copy, which is not even reported.
pub open spec fn op_risk(kind: OpKind, ignored: bool, o: Observation) -> Option<Risk> {
    match kind {
        OpKind::CopyFile => copy_risk(ignored, o),
        OpKind::DeleteFile => Some(delete_risk(ignored, o)),
    }
}

/// Apply action of one operation, with the ignore decision folded in.
pub open spec fn op_apply(kind: OpKind, ignored: bool, o: Observation) -> ApplyAction {
    match kind {
        OpKind::CopyFile => copy_apply(ignored, o),
        OpKind::DeleteFile => delete_apply(ignored, o),
    }
}

/// Whether the policies ignore this operation's path.
pub open spec fn step_ignored(pp: PolicyPair, op: Operation) -> bool {
    pair_ignored(pp, op.path@)
}

/// The dry-run verdict for one operation under the given policies.
pub open spec fn step_risk(pp: PolicyPair, op: Operation, o: Observation) -> Option<Risk> {
    op_risk(op.kind, step_ignored(pp, op), o)
}

/// Whether one operation counts toward the abort gate.
pub open spec fn step_unsafe(pp: PolicyPair, op: Operation, o: Observation) -> bool {
    match step_risk(pp, op, o) {
        Some(r) => risk_unsafe(r),
        None => false,
    }
}

/// The apply action for one operation under the given policies.
pub open spec fn step_apply(pp: PolicyPair, op: Operation, o: Observation) -> ApplyAction {
    op_apply(op.kind, step_ignored(pp, op), o)
}

/// Whether the dry-run pass counts this operation as acted upon: it is
/// reported, and neither ignored nor an already-absent delete.
pub open spec fn step_acted(pp: PolicyPair, op: Operation, o: Observation) -> bool {
    match step_risk(pp, op, o) {
        Some(r) => !(r is Ignored) && !(r is Missing),
        None => false,
    }
}

/// Whether any of the first `n` operations, under the observation each
/// one got, counts toward the abort gate.
pub open spec fn some_unsafe(
    pp: PolicyPair,
    ops: Seq<Operation>,
    obs: Seq<Observation>,
    n: int,
) -> bool
    decreases n,
{
    if n <= 0 {
        false
    } else {
        some_unsafe(pp, ops, obs, n - 1) || step_unsafe(pp, ops[n - 1], obs[n - 1])
    }
}

/// How many of the first `n` operations get a mutating apply action.
pub open spec fn count_applied(
    pp: PolicyPair,
    ops: Seq<Operation>,
    obs: Seq<Observation>,
    n: int,
) -> int
    decreases n,
{
    if n <= 0 {
        0
    } else {
        count_applied(pp, ops, obs, n - 1) + if step_apply(pp, ops[n - 1], obs[n - 1]) is Skip {
            0int
        } else {
            1int
        }
    }
}

/// How many of the first `n` operations the dry-run pass counts as acted
/// upon.
pub open spec fn count_acted(
    pp: PolicyPair,
    ops: Seq<Operation>,
    obs: Seq<Observation>,
    n: int,
) -> int
    decreases n,
{
    if n <= 0 {
        0
    } else {
        count_acted(pp, ops, obs, n - 1) + if step_acted(pp, ops[n - 1], obs[n - 1]) {
            1int
        } else {
            0int
        }
    }
}

/// The prefix aggregates read only the first `n` observations, so adding
/// one more observation at the end leaves them unchanged.
proof fn lemma_aggregates_push(
    pp: PolicyPair,
    ops: Seq<Operation>,
    obs: Seq<Observation>,
    o: Observation,
    n: int,
)
    requires
        0 <= n <= obs.len(),
    ensures
        some_unsafe(pp, ops, obs.push(o), n) == some_unsafe(pp, ops, obs, n),
        count_applied(pp, ops, obs.push(o), n) == count_applied(pp, ops, obs, n),
        count_acted(pp, ops, obs.push(o), n) == count_acted(pp, ops, obs, n),
    decreases n,
{
    if n > 0 {
        lemma_aggregates_push(pp, ops, obs, o, n - 1);
        assert(obs.push(o)[n - 1] == obs[n - 1]);
    }
}

/// The applied count never exceeds the number of operations counted.
proof fn lemma_count_applied_bounds(
    pp: PolicyPair,
    ops: Seq<Operation>,
    obs: Seq<Observation>,
    n: int,
)
    ensures
        0 <= count_applied(pp, ops, obs, n) <= if n <= 0 {
            0int
        } else {
            n
        },
    decreases n,
{
    if n > 0 {
        lemma_count_applied_bounds(pp, ops, obs, n - 1);
    }
}

/// The error an aborted flow reports: a first synchronization aborts
/// because target files already exist, every other flow because target
/// files are locally modified or not committed.
pub open spec fn abort_error(flow: FlowKind) -> ErrorKind {
    match flow {
        FlowKind::Init => ErrorKind::AbortByExist,
        _ => ErrorKind::AbortByModified,
    }
}

/// The reconciliation engine. It is driven one operation at a time: the
/// shell observes a path and hands the observation in; every decision
/// (ignore, risk, abort, apply action) is made here. The engine itself
/// never touches the filesystem — the only mutating instructions are the
/// [`ApplyAction`] values handed out by [`Engine::apply_step`], and none
/// is handed out while an abort is still possible.
pub struct Engine {
    ops: Vec<Operation>,
    policies: PolicyPair,
    flow: FlowKind,
    force: bool,
    phase: Phase,
    pos: usize,
    any_unsafe: bool,
    applied: usize,
    dry_obs: Ghost<Seq<Observation>>,
    apply_obs: Ghost<Seq<Observation>>,
}

impl Engine {
    /// The operation list, in order.
    pub closed spec fn ops(self) -> Seq<Operation> {
        self.ops@
    }

    /// The two ignore policies the engine was built with.
    pub closed spec fn pols(self) -> PolicyPair {
        self.policies
    }

    /// The flow being run.
    pub closed spec fn flow(self) -> FlowKind {
        self.flow
    }

    /// Whether the force flag suppresses the abort gate.
    pub closed spec fn forced(self) -> bool {
        self.force
    }

    /// Where the engine stands in the protocol.
    pub closed spec fn phase(self) -> Phase {
        self.phase
    }

    /// Index of the next operation in the current pass.
    pub closed spec fn cursor(self) -> int {
        self.pos as int
    }

    /// Whether any operation so far counted toward the abort gate.
    pub closed spec fn unsafe_seen(self) -> bool {
        self.any_unsafe
    }

    /// How many mutating apply actions have been handed out.
    pub closed spec fn applied_count(self) -> int {
        self.applied as int
    }

    /// The observations the dry-run pass has been given, in order.
    pub closed spec fn dry_observations(self) -> Seq<Observation> {
        self.dry_obs@
    }

    /// The observations the apply pass has been given, in order.
    pub closed spec fn apply_observations(self) -> Seq<Observation> {
        self.apply_obs@
    }

    /// The engine's invariant. Among other things it pins down the abort
    /// gate (`Aborted` only when something unsafe was seen unforced) and
    /// abort atomicity (no mutating action before `Applying`).
    pub closed spec fn wf(self) -> bool {
        &&& self.pos <= self.ops@.len()
        &&& match self.phase {
            Phase::DryRun => {
                &&& self.dry_obs@.len() == self.pos
                &&& self.apply_obs@.len() == 0
                &&& self.applied == 0
                &&& self.any_unsafe == some_unsafe(
                    self.policies,
                    self.ops@,
                    self.dry_obs@,
                    self.pos as int,
                )
            },
            Phase::Aborted => {
                &&& self.dry_obs@.len() == self.ops@.len()
                &&& self.apply_obs@.len() == 0
                &&& self.applied == 0
                &&& self.any_unsafe && !self.force
                &&& self.any_unsafe == some_unsafe(
                    self.policies,
                    self.ops@,
                    self.dry_obs@,
                    self.ops@.len() as int,
                )
            },
            Phase::Applying => {
                &&& self.dry_obs@.len() == self.ops@.len()
                &&& self.any_unsafe == some_unsafe(
                    self.policies,
                    self.ops@,
                    self.dry_obs@,
                    self.ops@.len() as int,
                )
                &&& self.any_unsafe ==> self.force
                &&& self.apply_obs@.len() == self.pos
                &&& self.applied == count_applied(
                    self.policies,
                    self.ops@,
                    self.apply_obs@,
                    self.pos as int,
                )
            },
            Phase::Done => {
                &&& self.pos == self.ops@.len()
                &&& self.dry_obs@.len() == self.ops@.len()
                &&& self.any_unsafe == some_unsafe(
                    self.policies,
                    self.ops@,
                    self.dry_obs@,
                    self.ops@.len() as int,
                )
                &&& self.any_unsafe ==> self.force
                &&& self.apply_obs@.len() == self.ops@.len()
                &&& self.applied == count_applied(
                    self.policies,
                    self.ops@,
                    self.apply_obs@,
                    self.ops@.len() as int,
                )
            },
        }
    }

    /// Starts a flow over the given operation list: the dry-run pass
    /// comes first, with nothing observed and nothing applied yet.
    pub fn new(ops: Vec<Operation>, policies: PolicyPair, flow: FlowKind, force: bool) -> (e:
        Engine)
        ensures
            e.wf(),
            e.phase() is DryRun,
            e.cursor() == 0,
            e.ops() == ops@,
            e.pols() == policies,
            e.flow() == flow,
            e.forced() == force,
            !e.unsafe_seen(),
            e.applied_count() == 0,
            e.dry_observations() == Seq::<Observation>::empty(),
    {
        Engine {
            ops,
            policies,
            flow,
            force,
            phase: Phase::DryRun,
            pos: 0,
            any_unsafe: false,
            applied: 0,
            dry_obs: Ghost(Seq::empty()),
            apply_obs: Ghost(Seq::empty()),
        }
    }

    /// How many operations this flow holds.
    pub fn op_count(&self) -> (n: usize)
        ensures
            n == self.ops().len(),
    {
        self.ops.len()
    }

    /// Whether the current pass still has operations to process.
    pub fn has_pending(&self) -> (r: bool)
        ensures
            r == (self.cursor() < self.ops().len()),
    {
        self.pos < self.ops.len()
    }

    /// The kind of the operation the current pass will process next.
    pub fn current_kind(&self) -> (k: OpKind)
        requires
            self.cursor() < self.ops().len(),
        ensures
            k == self.ops()[self.cursor()].kind,
    {
        self.ops[self.pos].kind
    }

    /// The path of the operation the current pass will process next.
    pub fn current_path(&self) -> (p: &String)
        requires
            self.cursor() < self.ops().len(),
        ensures
            p@ == self.ops()[self.cursor()].path@,
    {
        &self.ops[self.pos].path
    }

    /// Whether the dry-run pass has found an unsafe operation so far.
    pub fn saw_unsafe(&self) -> (r: bool)
        ensures
            r == self.unsafe_seen(),
    {
        self.any_unsafe
    }

    /// How many mutating apply actions have been handed out so far.
    pub fn applied_total(&self) -> (n: usize)
        ensures
            n == self.applied_count(),
    {
        self.applied
    }

    /// One step of the dry-run pass: classifies the next operation under
    /// the observation the shell made for its path, accumulates the abort
    /// gate, and reports the risk to print — `None` for an
    /// already-identical copy, which is not reported. Nothing is mutated
    /// and no apply action exists in this phase.
    pub fn dry_step(&mut self, o: Observation) -> (r: Option<Risk>)
        requires
            old(self).wf(),
            old(self).phase() is DryRun,
            old(self).cursor() < old(self).ops().len(),
        ensures
            final(self).wf(),
            final(self).phase() is DryRun,
            final(self).cursor() == old(self).cursor() + 1,
            final(self).ops() == old(self).ops(),
            final(self).pols() == old(self).pols(),
            final(self).flow() == old(self).flow(),
            final(self).forced() == old(self).forced(),
            final(self).applied_count() == 0,
            final(self).dry_observations() == old(self).dry_observations().push(o),
            r == step_risk(old(self).pols(), old(self).ops()[old(self).cursor()], o),
            final(self).unsafe_seen() == (old(self).unsafe_seen() || step_unsafe(
                old(self).pols(),
                old(self).ops()[old(self).cursor()],
                o,
            )),
    {
        let n = self.ops.len();
        let ignored = self.policies.is_ignored(self.ops[self.pos].path.as_str());
        let r = match self.ops[self.pos].kind {
            OpKind::CopyFile => classify_copy(ignored, o),
            OpKind::DeleteFile => Some(classify_delete(ignored, o)),
        };
        match r {
            Some(risk) => {
                if is_unsafe_risk(risk) {
                    self.any_unsafe = true;
                }
            },
            None => {},
        }
        assert(self.pos < n);
        self.pos = self.pos + 1;
        proof {
            lemma_aggregates_push(
                self.policies,
                self.ops@,
                self.dry_obs@,
                o,
                old(self).pos as int,
            );
        }
        self.dry_obs = Ghost(self.dry_obs@.push(o));
        r
    }

    /// The decision between the two passes. If anything unsafe was reported
    /// and force is not set, the flow aborts here: the command fails with
    /// the flow's abort error before any mutation, and the apply pass
    /// never runs. Otherwise the engine rewinds to apply every operation.
    pub fn finish_dry(&mut self) -> (r: Result<(), ErrorKind>)
        requires
            old(self).wf(),
            old(self).phase() is DryRun,
            old(self).cursor() == old(self).ops().len(),
        ensures
            final(self).wf(),
            r is Ok <==> !(old(self).unsafe_seen() && !old(self).forced()),
            r is Ok ==> final(self).phase() is Applying && final(self).cursor() == 0,
            r matches Err(e) ==> final(self).phase() is Aborted && e == abort_error(
                old(self).flow(),
            ),
            final(self).applied_count() == 0,
            final(self).ops() == old(self).ops(),
            final(self).pols() == old(self).pols(),
            final(self).flow() == old(self).flow(),
            final(self).forced() == old(self).forced(),
            final(self).unsafe_seen() == old(self).unsafe_seen(),
            final(self).dry_observations() == old(self).dry_observations(),
    {
        if self.any_unsafe && !self.force {
            self.phase = Phase::Aborted;
            match self.flow {
                FlowKind::Init => Err(ErrorKind::AbortByExist),
                FlowKind::Update => Err(ErrorKind::AbortByModified),
                FlowKind::Clean => Err(ErrorKind::AbortByModified),
            }
        } else {
            self.phase = Phase::Applying;
            self.pos = 0;
            Ok(())
        }
    }

    /// One step of the apply pass: decides what the shell must now do for
    /// the next operation — copy the bytes, reproduce the link, remove
    /// the path, or leave it alone — and counts the mutating actions.
    pub fn apply_step(&mut self, o: Observation) -> (a: ApplyAction)
        requires
            old(self).wf(),
            old(self).phase() is Applying,
            old(self).cursor() < old(self).ops().len(),
        ensures
            final(self).wf(),
            final(self).phase() is Applying,
            final(self).cursor() == old(self).cursor() + 1,
            final(self).ops() == old(self).ops(),
            final(self).pols() == old(self).pols(),
            final(self).flow() == old(self).flow(),
            final(self).forced() == old(self).forced(),
            final(self).unsafe_seen() == old(self).unsafe_seen(),
            final(self).dry_observations() == old(self).dry_observations(),
            final(self).apply_observations() == old(self).apply_observations().push(o),
            a == step_apply(old(self).pols(), old(self).ops()[old(self).cursor()], o),
            final(self).applied_count() == old(self).applied_count() + if a is Skip {
                0int
            } else {
                1int
            },
    {
        let n = self.ops.len();
        let ignored = self.policies.is_ignored(self.ops[self.pos].path.as_str());
        let a = match self.ops[self.pos].kind {
            OpKind::CopyFile => plan_copy(ignored, o),
            OpKind::DeleteFile => plan_delete(ignored, o),
        };
        proof {
            lemma_count_applied_bounds(
                self.policies,
                self.ops@,
                self.apply_obs@,
                self.pos as int,
            );
            lemma_aggregates_push(
                self.policies,
                self.ops@,
                self.apply_obs@,
                o,
                old(self).pos as int,
            );
            assert(self.applied <= self.pos < n);
        }
        match a {
            ApplyAction::Skip => {},
            _ => {
                self.applied = self.applied + 1;
            },
        }
        self.pos = self.pos + 1;
        self.apply_obs = Ghost(self.apply_obs@.push(o));
        a
    }

    /// Closes the apply pass; the flow is done and the caller may persist
    /// the updated tracking record.
    pub fn finish_apply(&mut self)
        requires
            old(self).wf(),
            old(self).phase() is Applying,
            old(self).cursor() == old(self).ops().len(),
        ensures
            final(self).wf(),
            final(self).phase() is Done,
            final(self).cursor() == old(self).cursor(),
            final(self).ops() == old(self).ops(),
            final(self).pols() == old(self).pols(),
            final(self).flow() == old(self).flow(),
            final(self).forced() == old(self).forced(),
            final(self).unsafe_seen() == old(self).unsafe_seen(),
            final(self).applied_count() == old(self).applied_count(),
            final(self).dry_observations() == old(self).dry_observations(),
            final(self).apply_observations() == old(self).apply_observations(),
    {
        self.phase = Phase::Done;
    }
}

/// Decides [`risk_unsafe`] for a concrete risk.
pub fn is_unsafe_risk(r: Risk) -> (b: bool)
    ensures
        b == risk_unsafe(r),
{
    match r {
        Risk::Untracked => true,
        Risk::LocallyModified => true,
        _ => false,
    }
}

/// Dry-run purity: as long as a flow is still in its dry-run pass — and
/// equally once it has aborted — no mutating apply action has been handed
/// out, so the shell has had nothing to change in the target filesystem
/// or the tracking record. The dry-run pass only ever returns a risk to
/// report; [`ApplyAction`] values exist solely in the apply phase.
pub proof fn lemma_dry_run_purity(e: Engine)
    requires
        e.wf(),
        e.phase() is DryRun || e.phase() is Aborted,
    ensures
        e.applied_count() == 0,
{
}

/// Abort atomicity: an aborted flow has handed out no apply action at
/// all, and it aborted precisely because some operation was unsafe and
/// force was not set. The target filesystem and the tracking record are
/// exactly as they were before the command.
pub proof fn lemma_abort_atomicity(e: Engine)
    requires
        e.wf(),
        e.phase() is Aborted,
    ensures
        e.applied_count() == 0,
        e.unsafe_seen(),
        !e.forced(),
        some_unsafe(e.pols(), e.ops(), e.dry_observations(), e.ops().len() as int),
{
}

/// Ignore union: a path matched by either side's ignore policy — or
/// protected as one of the core's own bookkeeping files — is never
/// copied or deleted, whatever the diff said and whatever was observed:
/// the apply pass skips it, and the dry-run pass reports it as ignored
/// if it reports it at all.
pub proof fn lemma_ignore_union(pp: PolicyPair, op: Operation, o: Observation)
    requires
        pair_ignored(pp, op.path@),
    ensures
        step_apply(pp, op, o) is Skip,
        step_risk(pp, op, o) matches Some(r) ==> r is Ignored,
{
}

/// A coherent observation: when the status oracle answered for a path
/// about to be deleted, the path is present on disk. (A status reporting
/// a local deletion breaks the agreement between the two passes: the
/// dry-run pass reports an unsafe delete while the apply pass finds
/// nothing left to remove.)
pub open spec fn obs_coherent(op: Operation, o: Observation) -> bool {
    op.kind is DeleteFile && !(o.status is Unavailable) ==> o.exists
}

/// Force completeness, one operation at a time: under a coherent
/// observation the apply pass mutates exactly the operations the
/// dry-run pass counted as acted upon — reported, and neither ignored
/// nor missing nor already identical.
pub proof fn lemma_apply_matches_dry(pp: PolicyPair, op: Operation, o: Observation)
    requires
        obs_coherent(op, o),
    ensures
        !(step_apply(pp, op, o) is Skip) <==> step_acted(pp, op, o),
{
}

/// Force completeness over a prefix of a pass, by induction from
/// [`lemma_apply_matches_dry`].
pub proof fn lemma_completeness_counts(
    pp: PolicyPair,
    ops: Seq<Operation>,
    obs: Seq<Observation>,
    n: int,
)
    requires
        forall|i: int| 0 <= i < n ==> #[trigger] obs_coherent(ops[i], obs[i]),
    ensures
        count_applied(pp, ops, obs, n) == count_acted(pp, ops, obs, n),
    decreases n,
{
    if n > 0 {
        lemma_completeness_counts(pp, ops, obs, n - 1);
        lemma_apply_matches_dry(pp, ops[n - 1], obs[n - 1]);
    }
}

/// Force completeness for a finished flow: when the apply pass saw the
/// same observations as the dry-run pass, each of them coherent, the
/// number of mutating actions handed out equals the number of operations
/// the dry-run pass counted as acted upon. (With force set, a flow that
/// saw unsafe operations still reaches `Done`; this says nothing was
/// silently dropped on the way.)
pub proof fn lemma_force_completeness(e: Engine)
    requires
        e.wf(),
        e.phase() is Done,
        e.apply_observations() == e.dry_observations(),
        forall|i: int| 0 <= i < e.ops().len() ==> #[trigger] obs_coherent(
            e.ops()[i],
            e.dry_observations()[i],
        ),
    ensures
        e.applied_count() == count_acted(
            e.pols(),
            e.ops(),
            e.dry_observations(),
            e.ops().len() as int,
        ),
{
    lemma_completeness_counts(e.pols(), e.ops(), e.dry_observations(), e.ops().len() as int);
}

/// Idempotence of update: with no upstream change, the tree diff between
/// the tracked revision and the new head is empty, so the operation set
/// derived by [`ops_from_diff`] is empty, and a flow over an empty
/// operation set never aborts, never reports anything unsafe, and hands
/// out no action — the target is left untouched. Rewriting the tracking
/// record with the revision it already holds leaves it unchanged by
/// [`crate::config::Config::set_commit`]'s contract.
pub proof fn lemma_update_idempotent(e: Engine)
    requires
        e.wf(),
        e.ops().len() == 0,
    ensures
        !(e.phase() is Aborted),
        !e.unsafe_seen(),
        e.applied_count() == 0,
{
}

/// The indicator printed before a path in the dry-run report.
pub open spec fn indicator_label(kind: OpKind, r: Risk) -> Seq<char> {
    match r {
        Risk::Ignored => " ignore"@,
        Risk::Missing => "missing"@,
        Risk::Clean => match kind {
            OpKind::CopyFile => " copy  "@,
            OpKind::DeleteFile => " delete"@,
        },
        _ => match kind {
            OpKind::CopyFile => "!copy  "@,
            OpKind::DeleteFile => "!delete"@,
        },
    }
}

/// The label the dry-run pass prints for one classified operation: safe
/// operations get a leading space, unsafe ones a leading `!`.
pub fn indicator(kind: OpKind, r: Risk) -> (s: &'static str)
    ensures
        s@ == indicator_label(kind, r),
{
    match r {
        Risk::Ignored => " ignore",
        Risk::Missing => "missing",
        Risk::Clean => match kind {
            OpKind::CopyFile => " copy  ",
            OpKind::DeleteFile => " delete",
        },
        _ => match kind {
            OpKind::CopyFile => "!copy  ",
            OpKind::DeleteFile => "!delete",
        },
    }
}

} // verus!
