use grit::probe::{
    GitCommandBehavior, GitCommandOutput, GitCommandVerbosity, ProbeError, ProbePhase, ProbeSession,
    ProbeStart,
};
use grit::status::Existence;
use grit::{RepoAction, SyncMode};

fn ok(stdout: &str) -> GitCommandOutput {
    GitCommandOutput {
        stdout: String::from(stdout),
        stderr: String::new(),
        status: Some(0),
    }
}

fn with_code(code: i32) -> GitCommandOutput {
    GitCommandOutput {
        stdout: String::new(),
        stderr: String::new(),
        status: Some(code),
    }
}

fn session(mode: SyncMode) -> ProbeSession {
    match ProbeSession::start(String::from("/repo"), mode, true, true) {
        ProbeStart::Probe(s) => s,
        _ => panic!("expected a probe"),
    }
}

#[test]
fn missing_path_is_a_skip() {
    let r = ProbeSession::start(String::from("/nonexistent"), SyncMode::Push, false, false);
    assert!(matches!(r, ProbeStart::Skip));
}

#[test]
fn path_without_git_metadata_is_a_config_error() {
    let r = ProbeSession::start(String::from("/tmp/not-a-repo"), SyncMode::Push, true, false);
    assert!(matches!(r, ProbeStart::ConfigError));
}

#[test]
fn push_probe_resolves_needs_stage() {
    let mut s = session(SyncMode::Push);
    assert_eq!(s.phase, ProbePhase::QueryBranch);
    s.absorb(ok("main\n")).unwrap();
    assert_eq!(s.phase, ProbePhase::QueryRemote);
    s.absorb(ok("https://example.com/r.git\n")).unwrap();
    assert_eq!(s.phase, ProbePhase::QueryWorktree);
    s.absorb(ok(" M file.rs\n")).unwrap();
    assert_eq!(s.phase, ProbePhase::QueryStagedDiff);
    s.absorb(with_code(0)).unwrap();
    assert_eq!(s.phase, ProbePhase::QueryAhead);
    s.absorb(ok("")).unwrap();
    assert_eq!(s.phase, ProbePhase::Complete);
    let st = s.finish();
    assert_eq!(st.existence, Existence::Exists);
    assert_eq!(st.branch, "main");
    assert_eq!(st.remote, "https://example.com/r.git");
    assert_eq!(st.action, RepoAction::NeedsStage);
}

#[test]
fn push_probe_resolves_needs_commit_from_staged_diff_exit_code_one() {
    let mut s = session(SyncMode::Push);
    s.absorb(ok("main\n")).unwrap();
    s.absorb(ok("https://example.com/r\n")).unwrap();
    s.absorb(ok("")).unwrap(); // clean working tree
    s.absorb(with_code(1)).unwrap(); // staged diff exists
    s.absorb(ok("")).unwrap(); // nothing ahead
    let st = s.finish();
    assert_eq!(st.action, RepoAction::NeedsCommit);
}

#[test]
fn push_probe_resolves_needs_push() {
    let mut s = session(SyncMode::Push);
    s.absorb(ok("main\n")).unwrap();
    s.absorb(ok("https://example.com/r\n")).unwrap();
    s.absorb(ok("")).unwrap();
    s.absorb(with_code(0)).unwrap();
    s.absorb(ok("deadbeef\n")).unwrap(); // a commit ahead of upstream
    let st = s.finish();
    assert_eq!(st.action, RepoAction::NeedsPush);
}

#[test]
fn push_probe_resolves_up_to_date() {
    let mut s = session(SyncMode::Push);
    s.absorb(ok("main\n")).unwrap();
    s.absorb(ok("https://example.com/r\n")).unwrap();
    s.absorb(ok("")).unwrap();
    s.absorb(with_code(0)).unwrap();
    s.absorb(ok("\n")).unwrap(); // rev-list output blank once trimmed
    let st = s.finish();
    assert_eq!(st.action, RepoAction::UpToDate);
}

#[test]
fn pull_probe_resolves_needs_pull() {
    // Upstream two commits ahead of local HEAD.
    let mut s = session(SyncMode::Pull);
    s.absorb(ok("main\n")).unwrap();
    assert_eq!(s.phase, ProbePhase::QueryRemote);
    s.absorb(ok("https://example.com/r\n")).unwrap();
    assert_eq!(s.phase, ProbePhase::QueryFetch);
    s.absorb(ok("")).unwrap();
    assert_eq!(s.phase, ProbePhase::QueryBehind);
    s.absorb(ok("cafebabe\ndeadbeef\n")).unwrap();
    let st = s.finish();
    assert_eq!(st.action, RepoAction::NeedsPull);
}

#[test]
fn pull_probe_resolves_up_to_date() {
    let mut s = session(SyncMode::Pull);
    s.absorb(ok("main\n")).unwrap();
    s.absorb(ok("https://example.com/r\n")).unwrap();
    s.absorb(ok("")).unwrap();
    s.absorb(ok("")).unwrap();
    let st = s.finish();
    assert_eq!(st.action, RepoAction::UpToDate);
}

#[test]
fn fetch_trouble_is_a_warning_not_a_failure() {
    let mut s = session(SyncMode::Pull);
    s.absorb(ok("main\n")).unwrap();
    s.absorb(ok("https://example.com/r\n")).unwrap();
    let fetch_out = GitCommandOutput {
        stdout: String::new(),
        stderr: String::from("could not resolve host"),
        status: Some(1),
    };
    assert!(s.absorb(fetch_out).is_ok());
    assert_eq!(s.phase, ProbePhase::QueryBehind);
    assert_eq!(s.fetch_warning.as_deref(), Some("could not resolve host"));
    s.absorb(ok("")).unwrap();
    assert_eq!(s.finish().action, RepoAction::UpToDate);
}

#[test]
fn failing_branch_query_fails_the_probe() {
    let mut s = session(SyncMode::Push);
    let out = GitCommandOutput {
        stdout: String::new(),
        stderr: String::from("fatal: not a git repository"),
        status: Some(128),
    };
    let e = s.absorb(out).unwrap_err();
    assert_eq!(s.phase, ProbePhase::Failed);
    match e {
        ProbeError::CommandFailed { phase, stderr } => {
            assert_eq!(phase, ProbePhase::QueryBranch);
            assert_eq!(stderr, "fatal: not a git repository");
        }
        other => panic!("unexpected error: {:?}", other),
    }
    assert!(s.next_request().is_none());
}

#[test]
fn staged_diff_exit_code_two_fails_the_probe() {
    let mut s = session(SyncMode::Push);
    s.absorb(ok("main\n")).unwrap();
    s.absorb(ok("https://example.com/r\n")).unwrap();
    s.absorb(ok("")).unwrap();
    let e = s.absorb(with_code(2)).unwrap_err();
    match e {
        ProbeError::UnexpectedStagedDiffCode { status, .. } => assert_eq!(status, Some(2)),
        other => panic!("unexpected error: {:?}", other),
    }
    assert_eq!(s.phase, ProbePhase::Failed);
}

#[test]
fn probe_requests_follow_the_fixed_push_sequence() {
    let mut s = session(SyncMode::Push);
    let q = s.next_request().unwrap();
    assert_eq!(q.args, vec!["rev-parse", "--abbrev-ref", "HEAD"]);
    assert_eq!(q.path, "/repo");
    assert!(matches!(q.behavior, GitCommandBehavior::AssertZeroExitCode));
    assert!(matches!(q.verbosity, GitCommandVerbosity::Quiet));
    s.absorb(ok("main\n")).unwrap();
    let q = s.next_request().unwrap();
    assert_eq!(q.args, vec!["remote", "get-url", "origin"]);
    s.absorb(ok("https://example.com/r\n")).unwrap();
    let q = s.next_request().unwrap();
    assert_eq!(q.args, vec!["status", "--porcelain"]);
    s.absorb(ok("")).unwrap();
    let q = s.next_request().unwrap();
    assert_eq!(q.args, vec!["diff", "--cached", "--quiet"]);
    assert!(matches!(q.behavior, GitCommandBehavior::AllowNonZeroExitCode));
    s.absorb(with_code(0)).unwrap();
    let q = s.next_request().unwrap();
    assert_eq!(q.args, vec!["rev-list", "@{u}..HEAD"]);
    s.absorb(ok("")).unwrap();
    assert!(s.next_request().is_none());
}

#[test]
fn probe_requests_follow_the_fixed_pull_sequence() {
    let mut s = session(SyncMode::Pull);
    s.absorb(ok("main\n")).unwrap();
    s.absorb(ok("https://example.com/r\n")).unwrap();
    let q = s.next_request().unwrap();
    assert_eq!(q.args, vec!["fetch", "--all"]);
    assert!(matches!(q.behavior, GitCommandBehavior::AllowNonZeroExitCode));
    s.absorb(ok("")).unwrap();
    let q = s.next_request().unwrap();
    assert_eq!(q.args, vec!["rev-list", "HEAD..@{u}"]);
    s.absorb(ok("")).unwrap();
    assert!(s.next_request().is_none());
}
