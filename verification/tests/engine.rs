use git_skel::engine::{
    indicator, ops_for_clean, ops_for_init, ops_from_diff, DiffEntry, DiffStatus, Engine,
    FlowKind, OpKind, Operation,
};
use git_skel::config::Config;
use git_skel::error::ErrorKind;
use git_skel::file::{ApplyAction, LocalStatus, Observation, Risk};
use git_skel::policy::{IgnorePolicy, PolicyPair};

fn empty_policies() -> PolicyPair {
    PolicyPair::new(IgnorePolicy::new(Vec::new()), IgnorePolicy::new(Vec::new()))
}

fn obs(differs: bool, status: LocalStatus, exists: bool, src_is_link: bool) -> Observation {
    Observation { differs, status, exists, src_is_link }
}

#[test]
fn diff_entries_map_to_operations() {
    let entries = vec![
        DiffEntry { status: DiffStatus::Added, path: String::from("a") },
        DiffEntry { status: DiffStatus::Modified, path: String::from("b") },
        DiffEntry { status: DiffStatus::Deleted, path: String::from("c") },
    ];
    let ops = ops_from_diff(&entries).unwrap();
    assert_eq!(ops.len(), 3);
    assert_eq!(ops[0].kind, OpKind::CopyFile);
    assert_eq!(ops[0].path, "a");
    assert_eq!(ops[1].kind, OpKind::CopyFile);
    assert_eq!(ops[1].path, "b");
    assert_eq!(ops[2].kind, OpKind::DeleteFile);
    assert_eq!(ops[2].path, "c");
}

#[test]
fn unsupported_diff_entry_is_a_hard_abort() {
    let entries = vec![
        DiffEntry { status: DiffStatus::Added, path: String::from("a") },
        DiffEntry { status: DiffStatus::Unsupported, path: String::from("weird") },
    ];
    match ops_from_diff(&entries) {
        Err(ErrorKind::UnsupportedDelta) => {}
        _ => panic!("expected UnsupportedDelta"),
    }
}

#[test]
fn init_operations_copy_the_whole_listing() {
    let files = vec![String::from("README"), String::from("ci.yml")];
    let ops = ops_for_init(&files);
    assert_eq!(ops.len(), 2);
    assert!(ops.iter().all(|op| op.kind == OpKind::CopyFile));
    assert_eq!(ops[0].path, "README");
    assert_eq!(ops[1].path, "ci.yml");
}

#[test]
fn clean_operations_delete_the_whole_listing() {
    let files = vec![String::from("README"), String::from("ci.yml")];
    let ops = ops_for_clean(&files);
    assert_eq!(ops.len(), 2);
    assert!(ops.iter().all(|op| op.kind == OpKind::DeleteFile));
}

#[test]
fn indicator_labels_are_exact() {
    assert_eq!(indicator(OpKind::CopyFile, Risk::Clean), " copy  ");
    assert_eq!(indicator(OpKind::CopyFile, Risk::LocallyModified), "!copy  ");
    assert_eq!(indicator(OpKind::CopyFile, Risk::Untracked), "!copy  ");
    assert_eq!(indicator(OpKind::DeleteFile, Risk::Clean), " delete");
    assert_eq!(indicator(OpKind::DeleteFile, Risk::LocallyModified), "!delete");
    assert_eq!(indicator(OpKind::CopyFile, Risk::Ignored), " ignore");
    assert_eq!(indicator(OpKind::DeleteFile, Risk::Missing), "missing");
}

// Scenario: upstream has {README, ci.yml}, the target is empty; a first
// synchronization copies both files and the record tracks the upstream head.
#[test]
fn scenario_init_copies_everything_into_empty_target() {
    let files = vec![String::from("README"), String::from("ci.yml")];
    let ops = ops_for_init(&files);
    let mut e = Engine::new(ops, empty_policies(), FlowKind::Init, false);

    // Both paths are absent from the empty target: they differ, no status.
    let o = obs(true, LocalStatus::Unavailable, false, false);
    while e.has_pending() {
        let r = e.dry_step(o);
        assert_eq!(r, Some(Risk::Clean));
    }
    assert!(!e.saw_unsafe());
    assert!(e.finish_dry().is_ok());

    let mut actions = Vec::new();
    while e.has_pending() {
        actions.push(e.apply_step(o));
    }
    e.finish_apply();
    assert_eq!(actions, vec![ApplyAction::CopyBytes, ApplyAction::CopyBytes]);
    assert_eq!(e.applied_total(), 2);

    let c = Config::new(String::from("URL"), None, None, String::from("head1"));
    assert_eq!(c.revision, "head1");
}

// Scenario: upstream adds ci.yml between the tracked revision and the new
// head, but the target already has a locally modified ci.yml. The dry run
// reports an unsafe copy; without force the command aborts before any
// mutation; with force the file is overwritten and the record advances.
#[test]
fn scenario_conflicting_update_aborts_unless_forced() {
    let entries = vec![DiffEntry { status: DiffStatus::Added, path: String::from("ci.yml") }];
    let conflicted = obs(true, LocalStatus::Modified, true, false);

    let ops = ops_from_diff(&entries).unwrap();
    let mut e = Engine::new(ops, empty_policies(), FlowKind::Update, false);
    let r = e.dry_step(conflicted);
    assert_eq!(r, Some(Risk::LocallyModified));
    assert_eq!(indicator(OpKind::CopyFile, r.unwrap()), "!copy  ");
    match e.finish_dry() {
        Err(ErrorKind::AbortByModified) => {}
        _ => panic!("expected AbortByModified"),
    }
    assert_eq!(e.applied_total(), 0);

    let ops = ops_from_diff(&entries).unwrap();
    let mut forced = Engine::new(ops, empty_policies(), FlowKind::Update, true);
    forced.dry_step(conflicted);
    assert!(forced.saw_unsafe());
    assert!(forced.finish_dry().is_ok());
    assert_eq!(forced.apply_step(conflicted), ApplyAction::CopyBytes);
    forced.finish_apply();
    assert_eq!(forced.applied_total(), 1);

    let mut c = Config::new(String::from("URL"), None, None, String::from("R1"));
    c.set_commit("R2");
    assert_eq!(c.revision, "R2");
}

// Scenario: after a first synchronization installed {README, ci.yml},
// a forced clean deletes both files.
#[test]
fn scenario_clean_deletes_everything_installed() {
    let files = vec![String::from("README"), String::from("ci.yml")];
    let ops = ops_for_clean(&files);
    let mut e = Engine::new(ops, empty_policies(), FlowKind::Clean, true);

    let present = obs(true, LocalStatus::Clean, true, false);
    while e.has_pending() {
        let r = e.dry_step(present);
        assert_eq!(r, Some(Risk::Clean));
    }
    assert!(e.finish_dry().is_ok());
    while e.has_pending() {
        assert_eq!(e.apply_step(present), ApplyAction::Remove);
    }
    e.finish_apply();
    assert_eq!(e.applied_total(), 2);
}

// Idempotence: a second update with no upstream change works over an empty
// diff, so nothing is reported, nothing is applied, and the flow proceeds
// even without force; the record keeps its revision.
#[test]
fn second_update_with_no_upstream_change_does_nothing() {
    let entries: Vec<DiffEntry> = Vec::new();
    let ops = ops_from_diff(&entries).unwrap();
    assert!(ops.is_empty());
    let mut e = Engine::new(ops, empty_policies(), FlowKind::Update, false);
    assert!(!e.has_pending());
    assert!(e.finish_dry().is_ok());
    e.finish_apply();
    assert_eq!(e.applied_total(), 0);

    let mut c = Config::new(String::from("URL"), Some(String::from("main")), None,
        String::from("R1"));
    c.set_commit("R1");
    assert_eq!(c.revision, "R1");
    assert_eq!(c.branch.as_deref(), Some("main"));
}

// Dry-run purity: a full dry-run pass, even one that sees unsafe
// operations, hands out no apply action.
#[test]
fn dry_run_pass_applies_nothing() {
    let files = vec![String::from("a"), String::from("b")];
    let ops = ops_for_init(&files);
    let mut e = Engine::new(ops, empty_policies(), FlowKind::Init, false);
    e.dry_step(obs(true, LocalStatus::Modified, true, false));
    e.dry_step(obs(true, LocalStatus::Untracked, true, false));
    assert!(e.saw_unsafe());
    assert_eq!(e.applied_total(), 0);
    assert!(e.finish_dry().is_err());
    assert_eq!(e.applied_total(), 0);
}

// An unsafe operation in a first synchronization aborts with the
// "files already exist" error rather than the "locally modified" one.
#[test]
fn init_abort_reports_existing_files() {
    let ops = ops_for_init(&vec![String::from("a")]);
    let mut e = Engine::new(ops, empty_policies(), FlowKind::Init, false);
    e.dry_step(obs(true, LocalStatus::Unavailable, true, false));
    match e.finish_dry() {
        Err(ErrorKind::AbortByExist) => {}
        _ => panic!("expected AbortByExist"),
    }
}

// Force completeness: with force set, the number of mutating actions
// equals the number of dry-run lines that were neither ignored nor
// missing nor identical.
#[test]
fn forced_flow_applies_exactly_the_acted_operations() {
    let mut ops: Vec<Operation> = Vec::new();
    ops.push(Operation { kind: OpKind::CopyFile, path: String::from(".gitskel.toml") });
    ops.push(Operation { kind: OpKind::CopyFile, path: String::from("same.txt") });
    ops.push(Operation { kind: OpKind::DeleteFile, path: String::from("gone.txt") });
    ops.push(Operation { kind: OpKind::CopyFile, path: String::from("new.txt") });
    ops.push(Operation { kind: OpKind::DeleteFile, path: String::from("old.txt") });
    let observations = vec![
        // Protected path: ignored, not acted.
        obs(true, LocalStatus::Modified, true, false),
        // Identical contents: not reported, not acted.
        obs(false, LocalStatus::Clean, true, false),
        // Delete of an absent path: missing, not acted.
        obs(true, LocalStatus::Unavailable, false, false),
        // A real copy and a real delete: acted.
        obs(true, LocalStatus::Untracked, true, false),
        obs(true, LocalStatus::Clean, true, false),
    ];

    let mut e = Engine::new(ops, empty_policies(), FlowKind::Update, true);
    let mut acted = 0;
    let mut i = 0;
    while e.has_pending() {
        match e.dry_step(observations[i]) {
            Some(Risk::Ignored) | Some(Risk::Missing) | None => {}
            Some(_) => acted += 1,
        }
        i += 1;
    }
    assert_eq!(acted, 2);
    assert!(e.finish_dry().is_ok());
    let mut i = 0;
    while e.has_pending() {
        e.apply_step(observations[i]);
        i += 1;
    }
    e.finish_apply();
    assert_eq!(e.applied_total(), acted);
}

// Retargeting to another branch or tag reconciles exactly like an
// update: a file the old selector installed that the new one lacks shows
// up as a deletion in the diff and is deleted, not silently kept.
#[test]
fn retarget_deletes_files_the_new_selector_lacks() {
    let entries = vec![
        DiffEntry { status: DiffStatus::Deleted, path: String::from("only-on-old-branch.txt") },
        DiffEntry { status: DiffStatus::Added, path: String::from("only-on-new-branch.txt") },
    ];
    let ops = ops_from_diff(&entries).unwrap();
    let mut e = Engine::new(ops, empty_policies(), FlowKind::Update, false);
    let clean_present = obs(true, LocalStatus::Clean, true, false);
    let clean_absent = obs(true, LocalStatus::Unavailable, false, false);
    assert_eq!(e.dry_step(clean_present), Some(Risk::Clean));
    assert_eq!(e.dry_step(clean_absent), Some(Risk::Clean));
    assert!(e.finish_dry().is_ok());
    assert_eq!(e.apply_step(clean_present), ApplyAction::Remove);
    assert_eq!(e.apply_step(clean_absent), ApplyAction::CopyBytes);
    e.finish_apply();
    assert_eq!(e.applied_total(), 2);
}

// Ignore union: a path ignored by either side's policy is neither copied
// nor deleted, whatever the diff said.
#[test]
fn ignored_paths_are_never_touched() {
    let pp = PolicyPair::new(
        IgnorePolicy::new(vec![String::from("*.md")]),
        IgnorePolicy::new(vec![String::from("*.log")]),
    );
    let mut ops: Vec<Operation> = Vec::new();
    ops.push(Operation { kind: OpKind::CopyFile, path: String::from("README.md") });
    ops.push(Operation { kind: OpKind::DeleteFile, path: String::from("build.log") });
    let touched = obs(true, LocalStatus::Modified, true, false);

    let mut e = Engine::new(ops, pp, FlowKind::Update, false);
    assert_eq!(e.dry_step(touched), Some(Risk::Ignored));
    assert_eq!(e.dry_step(touched), Some(Risk::Ignored));
    // Ignored operations are not unsafe, so an unforced flow proceeds.
    assert!(!e.saw_unsafe());
    assert!(e.finish_dry().is_ok());
    assert_eq!(e.apply_step(touched), ApplyAction::Skip);
    assert_eq!(e.apply_step(touched), ApplyAction::Skip);
    e.finish_apply();
    assert_eq!(e.applied_total(), 0);
}
