use grit::action::{derive_pull_action, derive_push_action};
use grit::status::{normalize_remote_url, Existence, RepoStatus};
use grit::text::{contains_str, ends_with_str, lex_le_str, str_eq, trim_str};
use grit::RepoAction;

#[test]
fn push_action_resolution_is_by_urgency() {
    assert_eq!(derive_push_action(true, true, true), RepoAction::NeedsStage);
    assert_eq!(derive_push_action(true, false, false), RepoAction::NeedsStage);
    assert_eq!(derive_push_action(false, true, true), RepoAction::NeedsCommit);
    assert_eq!(derive_push_action(false, false, true), RepoAction::NeedsPush);
    assert_eq!(derive_push_action(false, false, false), RepoAction::UpToDate);
}

#[test]
fn pull_action_resolution() {
    assert_eq!(derive_pull_action(true), RepoAction::NeedsPull);
    assert_eq!(derive_pull_action(false), RepoAction::UpToDate);
}

#[test]
fn action_escalation_methods() {
    assert!(RepoAction::NeedsStage.needs_stage());
    assert!(RepoAction::NeedsStage.needs_commit());
    assert!(RepoAction::NeedsStage.needs_push());
    assert!(!RepoAction::NeedsCommit.needs_stage());
    assert!(RepoAction::NeedsCommit.needs_commit());
    assert!(RepoAction::NeedsCommit.needs_push());
    assert!(!RepoAction::NeedsPush.needs_commit());
    assert!(RepoAction::NeedsPush.needs_push());
    assert!(!RepoAction::UpToDate.needs_push());
    assert!(!RepoAction::NeedsPull.needs_push());
}

#[test]
fn remote_url_normalization_round_trip() {
    // The two remote spellings normalize to the same display form.
    let with_suffix = normalize_remote_url("https://github.com/org/repo.git");
    let without = normalize_remote_url("https://github.com/org/repo");
    assert_eq!(with_suffix, "https://github.com/org/repo");
    assert_eq!(with_suffix, without);
}

#[test]
fn display_remote_strips_the_suffix() {
    let s = RepoStatus {
        path: String::from("/r"),
        existence: Existence::Exists,
        branch: String::from("main"),
        remote: String::from("git@example.com:org/repo.git"),
        action: RepoAction::UpToDate,
    };
    assert_eq!(s.display_remote(), "git@example.com:org/repo");
}

#[test]
fn off_main_branch_warning() {
    let mut s = RepoStatus {
        path: String::from("/r"),
        existence: Existence::Exists,
        branch: String::from("main"),
        remote: String::from("r"),
        action: RepoAction::UpToDate,
    };
    assert!(!s.off_main_branch());
    s.branch = String::from("master");
    assert!(!s.off_main_branch());
    s.branch = String::from("feature/x");
    assert!(s.off_main_branch());
}

#[test]
fn text_helpers_behave_like_std() {
    assert_eq!(trim_str("  a b \t\r\n"), "a b");
    assert_eq!(trim_str("   \t"), "");
    assert!(contains_str("nothing to commit, clean", "nothing to commit"));
    assert!(!contains_str("all good", "nothing to commit"));
    assert!(contains_str("abc", ""));
    assert!(ends_with_str("repo.git", ".git"));
    assert!(!ends_with_str("repo.gitx", ".git"));
    assert!(str_eq("same", "same"));
    assert!(!str_eq("same", "same "));
    assert!(lex_le_str("/a", "/b"));
    assert!(lex_le_str("/a", "/a"));
    assert!(!lex_le_str("/b", "/a"));
    assert!(lex_le_str("/a", "/a/b"));
}
