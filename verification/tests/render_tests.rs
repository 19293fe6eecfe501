use grit::render::{action_label, final_summary_label, summary_label};
use grit::{RepoAction, SyncMode};

#[test]
fn action_labels() {
    assert_eq!(action_label(RepoAction::NeedsStage), "Needs staging");
    assert_eq!(action_label(RepoAction::NeedsCommit), "Needs commit");
    assert_eq!(action_label(RepoAction::NeedsPush), "Needs push");
    assert_eq!(action_label(RepoAction::NeedsPull), "Needs pull");
    assert_eq!(action_label(RepoAction::UpToDate), "Up to date");
}

#[test]
fn summary_labels() {
    assert_eq!(
        summary_label(SyncMode::Pull, RepoAction::NeedsPull),
        "Changes to pull"
    );
    assert_eq!(
        summary_label(SyncMode::Pull, RepoAction::UpToDate),
        "Up to date"
    );
    assert_eq!(
        summary_label(SyncMode::Push, RepoAction::NeedsStage),
        "Changes to push"
    );
    assert_eq!(
        summary_label(SyncMode::Push, RepoAction::UpToDate),
        "Up to date"
    );
}

#[test]
fn final_summary_labels() {
    assert_eq!(
        final_summary_label(SyncMode::Pull, RepoAction::NeedsPull),
        "Changes pulled"
    );
    assert_eq!(
        final_summary_label(SyncMode::Pull, RepoAction::UpToDate),
        "Already up to date"
    );
    assert_eq!(
        final_summary_label(SyncMode::Push, RepoAction::NeedsCommit),
        "Changes pushed"
    );
    assert_eq!(
        final_summary_label(SyncMode::Push, RepoAction::UpToDate),
        "No changes to push"
    );
}
