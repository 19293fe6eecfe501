use grit::executor::{classify_output, request_for_step, ExecutorState, StepOutcome};
use grit::plan::{ActionStep, ExecutionPlan, StepKind};
use grit::probe::{GitCommandBehavior, GitCommandOutput, GitCommandVerbosity};
use grit::status::{Existence, RepoStatus};
use grit::{RepoAction, SyncMode};

fn status(path: &str, action: RepoAction) -> RepoStatus {
    RepoStatus {
        path: String::from(path),
        existence: Existence::Exists,
        branch: String::from("main"),
        remote: String::from("https://example.com/r"),
        action,
    }
}

fn out(stdout: &str, stderr: &str, code: i32) -> GitCommandOutput {
    GitCommandOutput {
        stdout: String::from(stdout),
        stderr: String::from(stderr),
        status: Some(code),
    }
}

#[test]
fn failure_isolation_across_repositories() {
    // Three repositories; the second fails its stage step.  The first and
    // third are still attempted and reported.
    let plan = ExecutionPlan::new(
        vec![
            status("/repo-a", RepoAction::NeedsPush),
            status("/repo-b", RepoAction::NeedsStage),
            status("/repo-c", RepoAction::NeedsPush),
        ],
        SyncMode::Push,
    );
    // Steps: push a; stage b, commit b, push b; push c.
    assert_eq!(plan.steps.len(), 5);

    let mut walk = ExecutorState::new(plan);
    let mut attempted: Vec<(StepKind, String)> = Vec::new();
    loop {
        let (kind, path) = match walk.current_step() {
            Some(step) => (step.kind, step.path.clone()),
            None => break,
        };
        attempted.push((kind, path.clone()));
        let output = if kind == StepKind::Stage && path == "/repo-b" {
            out("", "error: unable to index file", 1)
        } else {
            out("", "", 0)
        };
        let outcome = classify_output(kind, output);
        walk.record_outcome(outcome);
    }
    assert!(walk.is_finished());
    assert_eq!(walk.outcomes.len(), 5);
    assert_eq!(attempted[0], (StepKind::Push, String::from("/repo-a")));
    assert_eq!(attempted[1], (StepKind::Stage, String::from("/repo-b")));
    assert_eq!(attempted[4], (StepKind::Push, String::from("/repo-c")));
    assert!(matches!(walk.outcomes[0], StepOutcome::Done));
    match &walk.outcomes[1] {
        StepOutcome::Failed(e) => assert_eq!(e, "error: unable to index file"),
        other => panic!("expected a stage failure, got {:?}", other),
    }
    assert!(matches!(walk.outcomes[4], StepOutcome::Done));
}

#[test]
fn stage_output_with_error_text_fails() {
    let r = classify_output(StepKind::Stage, out("", "boom", 0));
    assert!(matches!(r, StepOutcome::Failed(_)));
}

#[test]
fn commit_nothing_to_commit_is_success() {
    let r = classify_output(
        StepKind::Commit,
        out("", "nothing to commit, working tree clean", 0),
    );
    assert!(matches!(r, StepOutcome::Done));
}

#[test]
fn push_everything_up_to_date_is_success() {
    let r = classify_output(StepKind::Push, out("", "Everything up-to-date", 0));
    assert!(matches!(r, StepOutcome::Done));
}

#[test]
fn push_with_other_error_text_fails() {
    let r = classify_output(StepKind::Push, out("", "rejected: non-fast-forward", 1));
    match r {
        StepOutcome::Failed(e) => assert_eq!(e, "rejected: non-fast-forward"),
        other => panic!("expected a failure, got {:?}", other),
    }
}

#[test]
fn pull_already_up_to_date_is_distinguished() {
    let r = classify_output(StepKind::Pull, out("Already up to date.\n", "", 0));
    assert!(matches!(r, StepOutcome::AlreadyCurrent));
    let r = classify_output(StepKind::Pull, out("Updating 1a2b..3c4d\n", "", 0));
    assert!(matches!(r, StepOutcome::Done));
}

#[test]
fn non_zero_exit_fails_the_step() {
    let r = classify_output(StepKind::Pull, out("", "", 128));
    assert!(matches!(r, StepOutcome::Failed(_)));
}

#[test]
fn step_requests_run_the_shown_commands() {
    let stage = ActionStep { kind: StepKind::Stage, path: String::from("/r") };
    let q = request_for_step(&stage, None);
    assert_eq!(q.args, vec!["add", "."]);
    assert_eq!(q.path, "/r");
    assert!(matches!(q.behavior, GitCommandBehavior::AssertZeroExitCode));
    assert!(matches!(q.verbosity, GitCommandVerbosity::Verbose));

    let commit = ActionStep { kind: StepKind::Commit, path: String::from("/r") };
    let msg = String::from("  fix the widget \n");
    let q = request_for_step(&commit, Some(&msg));
    assert_eq!(q.args, vec!["commit", "-m", "fix the widget"]);

    let push = ActionStep { kind: StepKind::Push, path: String::from("/r") };
    assert_eq!(request_for_step(&push, None).args, vec!["push"]);

    let pull = ActionStep { kind: StepKind::Pull, path: String::from("/r") };
    assert_eq!(request_for_step(&pull, None).args, vec!["pull"]);
}
