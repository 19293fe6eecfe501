use grit::plan::{ExecutionPlan, StepKind};
use grit::status::{Existence, RepoStatus};
use grit::{RepoAction, SyncMode};

fn status(path: &str, action: RepoAction) -> RepoStatus {
    RepoStatus {
        path: String::from(path),
        existence: Existence::Exists,
        branch: String::from("main"),
        remote: String::from("https://example.com/r.git"),
        action,
    }
}

fn kinds(plan: &ExecutionPlan) -> Vec<StepKind> {
    plan.steps.iter().map(|s| s.kind).collect()
}

#[test]
fn needs_stage_entails_stage_commit_push() {
    let plan = ExecutionPlan::new(vec![status("/r", RepoAction::NeedsStage)], SyncMode::Push);
    assert_eq!(
        kinds(&plan),
        vec![StepKind::Stage, StepKind::Commit, StepKind::Push]
    );
    assert!(plan.steps.iter().all(|s| s.path == "/r"));
}

#[test]
fn needs_commit_entails_commit_push() {
    let plan = ExecutionPlan::new(vec![status("/r", RepoAction::NeedsCommit)], SyncMode::Push);
    assert_eq!(kinds(&plan), vec![StepKind::Commit, StepKind::Push]);
}

#[test]
fn needs_push_entails_push_only() {
    let plan = ExecutionPlan::new(vec![status("/r", RepoAction::NeedsPush)], SyncMode::Push);
    assert_eq!(kinds(&plan), vec![StepKind::Push]);
}

#[test]
fn up_to_date_entails_nothing() {
    let plan = ExecutionPlan::new(vec![status("/r", RepoAction::UpToDate)], SyncMode::Push);
    assert_eq!(kinds(&plan), Vec::new());
}

#[test]
fn pull_direction_expansion() {
    // Upstream ahead of local: exactly one pull step; up to date: none.
    let plan = ExecutionPlan::new(
        vec![
            status("/ahead", RepoAction::NeedsPull),
            status("/current", RepoAction::UpToDate),
        ],
        SyncMode::Pull,
    );
    assert_eq!(kinds(&plan), vec![StepKind::Pull]);
    assert_eq!(plan.steps[0].path, "/ahead");
}

#[test]
fn noop_short_circuit_when_all_up_to_date() {
    let statuses = vec![
        status("/a", RepoAction::UpToDate),
        status("/b", RepoAction::UpToDate),
        status("/c", RepoAction::UpToDate),
    ];
    let plan = ExecutionPlan::new(statuses, SyncMode::Push);
    assert!(plan.is_noop());
    assert_eq!(plan.len(), 0);
}

#[test]
fn missing_repository_contributes_no_steps() {
    let mut gone = status("/gone", RepoAction::NeedsStage);
    gone.existence = Existence::DoesNotExist;
    let plan = ExecutionPlan::new(vec![gone, status("/r", RepoAction::NeedsPush)], SyncMode::Push);
    assert_eq!(kinds(&plan), vec![StepKind::Push]);
    assert_eq!(plan.steps[0].path, "/r");
}

#[test]
fn compile_sorts_before_planning() {
    let plan = ExecutionPlan::compile(
        vec![
            status("/b", RepoAction::NeedsPush),
            status("/a", RepoAction::NeedsPull),
        ],
        SyncMode::Pull,
    );
    assert_eq!(plan.repo_statuses[0].path, "/a");
    assert_eq!(plan.repo_statuses[1].path, "/b");
    assert_eq!(kinds(&plan), vec![StepKind::Pull]);
    assert_eq!(plan.steps[0].path, "/a");
}

#[test]
fn plan_keeps_snapshot_order() {
    let plan = ExecutionPlan::new(
        vec![
            status("/b", RepoAction::NeedsPush),
            status("/a", RepoAction::NeedsPush),
        ],
        SyncMode::Push,
    );
    assert_eq!(plan.steps[0].path, "/b");
    assert_eq!(plan.steps[1].path, "/a");
}
