//! The plan renderer's structured content: the exact label each snapshot
//! gets in the summary before execution and in the final summary after it.
//!
//! Styling, colors and emoji belong to the application; which text describes
//! which state is decided — and pinned down — here.

use vstd::prelude::*;

use crate::action::{entails_push, RepoAction, SyncMode};

verus! {

/// The status line shown for a classification in the plan preview.
pub fn action_label(a: RepoAction) -> (r: &'static str)
    ensures
        a == RepoAction::NeedsStage ==> r@ == "Needs staging"@,
        a == RepoAction::NeedsCommit ==> r@ == "Needs commit"@,
        a == RepoAction::NeedsPush ==> r@ == "Needs push"@,
        a == RepoAction::NeedsPull ==> r@ == "Needs pull"@,
        a == RepoAction::UpToDate ==> r@ == "Up to date"@,
{
    match a {
        RepoAction::NeedsStage => "Needs staging",
        RepoAction::NeedsCommit => "Needs commit",
        RepoAction::NeedsPush => "Needs push",
        RepoAction::NeedsPull => "Needs pull",
        RepoAction::UpToDate => "Up to date",
    }
}

/// The one-line summary of what the sync direction will do with a
/// repository, shown before confirmation.
pub fn summary_label(mode: SyncMode, a: RepoAction) -> (r: &'static str)
    ensures
        mode == SyncMode::Pull && a == RepoAction::NeedsPull ==> r@ == "Changes to pull"@,
        mode == SyncMode::Pull && a != RepoAction::NeedsPull ==> r@ == "Up to date"@,
        mode == SyncMode::Push && entails_push(a) ==> r@ == "Changes to push"@,
        mode == SyncMode::Push && !entails_push(a) ==> r@ == "Up to date"@,
{
    match mode {
        SyncMode::Pull => {
            if matches!(a, RepoAction::NeedsPull) {
                "Changes to pull"
            } else {
                "Up to date"
            }
        },
        SyncMode::Push => {
            if matches!(
                a,
                RepoAction::NeedsStage | RepoAction::NeedsCommit | RepoAction::NeedsPush
            ) {
                "Changes to push"
            } else {
                "Up to date"
            }
        },
    }
}

/// The per-repository line of the final summary, after the plan ran.
pub fn final_summary_label(mode: SyncMode, a: RepoAction) -> (r: &'static str)
    ensures
        mode == SyncMode::Pull && a == RepoAction::NeedsPull ==> r@ == "Changes pulled"@,
        mode == SyncMode::Pull && a != RepoAction::NeedsPull ==> r@ == "Already up to date"@,
        mode == SyncMode::Push && entails_push(a) ==> r@ == "Changes pushed"@,
        mode == SyncMode::Push && !entails_push(a) ==> r@ == "No changes to push"@,
{
    match mode {
        SyncMode::Pull => {
            if matches!(a, RepoAction::NeedsPull) {
                "Changes pulled"
            } else {
                "Already up to date"
            }
        },
        SyncMode::Push => {
            if matches!(
                a,
                RepoAction::NeedsStage | RepoAction::NeedsCommit | RepoAction::NeedsPush
            ) {
                "Changes pushed"
            } else {
                "No changes to push"
            }
        },
    }
}

} // verus!
