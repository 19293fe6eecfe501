//! The action classification a probe assigns to a repository, and the sync
//! direction it is assigned relative to.

use vstd::prelude::*;

verus! {

/// Direction of a synchronization run: bring local checkouts up to date from
/// their remotes, or flush local work out to them.
#[derive(Debug, Clone, Copy, PartialEq, Eq, Structural)]
pub enum SyncMode {
    Pull,
    Push,
}

/// The single pending action a completed probe assigns to a repository.
///
/// For the push direction the variants form an escalation order:
/// `NeedsStage` entails the commit and push steps, `NeedsCommit` entails the
/// push step.  For the pull direction only `NeedsPull` and `UpToDate` occur.
/// A probe assigns exactly one variant; there are no independent flags.
#[derive(Debug, Clone, Copy, PartialEq, Eq, Structural)]
pub enum RepoAction {
    NeedsStage,
    NeedsCommit,
    NeedsPush,
    NeedsPull,
    UpToDate,
}

/// The classification entails a staging step.
pub open spec fn entails_stage(a: RepoAction) -> bool {
    a == RepoAction::NeedsStage
}

/// The classification entails a commit step: either staging will create
/// something to commit, or staged changes are already waiting.
pub open spec fn entails_commit(a: RepoAction) -> bool {
    a == RepoAction::NeedsStage || a == RepoAction::NeedsCommit
}

/// The classification entails a push step; every push-direction
/// classification short of `UpToDate` does.
pub open spec fn entails_push(a: RepoAction) -> bool {
    a == RepoAction::NeedsStage || a == RepoAction::NeedsCommit || a == RepoAction::NeedsPush
}

impl RepoAction {
    /// True iff the working tree must be staged before anything else.
    pub fn needs_stage(&self) -> (r: bool)
        ensures
            r == entails_stage(*self),
    {
        matches!(self, RepoAction::NeedsStage)
    }

    /// True iff a commit step must run.
    pub fn needs_commit(&self) -> (r: bool)
        ensures
            r == entails_commit(*self),
    {
        matches!(self, RepoAction::NeedsStage | RepoAction::NeedsCommit)
    }

    /// True iff a push step must run.
    pub fn needs_push(&self) -> (r: bool)
        ensures
            r == entails_push(*self),
    {
        matches!(
            self,
            RepoAction::NeedsStage | RepoAction::NeedsCommit | RepoAction::NeedsPush
        )
    }

    /// True iff the action is one a push-direction probe can assign.
    pub open spec fn valid_for_push(self) -> bool {
        self != RepoAction::NeedsPull
    }

    /// True iff the action is one a pull-direction probe can assign.
    pub open spec fn valid_for_pull(self) -> bool {
        self == RepoAction::NeedsPull || self == RepoAction::UpToDate
    }

    /// True iff the action is one a probe in the given direction can assign.
    pub open spec fn valid_for(self, mode: SyncMode) -> bool {
        match mode {
            SyncMode::Push => self.valid_for_push(),
            SyncMode::Pull => self.valid_for_pull(),
        }
    }
}

/// The push-direction classification rule, from the three probed facts:
/// unstaged modifications present, staged-but-uncommitted changes present,
/// local commits ahead of upstream.  Resolution is by urgency: staging
/// subsumes committing, which subsumes pushing.
pub open spec fn push_action_of(unstaged: bool, staged: bool, ahead: bool) -> RepoAction {
    if unstaged {
        RepoAction::NeedsStage
    } else if staged {
        RepoAction::NeedsCommit
    } else if ahead {
        RepoAction::NeedsPush
    } else {
        RepoAction::UpToDate
    }
}

/// The pull-direction classification rule, from the single probed fact:
/// upstream commits not yet local.
pub open spec fn pull_action_of(behind: bool) -> RepoAction {
    if behind {
        RepoAction::NeedsPull
    } else {
        RepoAction::UpToDate
    }
}

/// Resolves the push-direction facts to the single most urgent action.
pub fn derive_push_action(unstaged: bool, staged: bool, ahead: bool) -> (r: RepoAction)
    ensures
        r == push_action_of(unstaged, staged, ahead),
{
    if unstaged {
        RepoAction::NeedsStage
    } else if staged {
        RepoAction::NeedsCommit
    } else if ahead {
        RepoAction::NeedsPush
    } else {
        RepoAction::UpToDate
    }
}

/// Resolves the pull-direction fact to an action.
pub fn derive_pull_action(behind: bool) -> (r: RepoAction)
    ensures
        r == pull_action_of(behind),
{
    if behind {
        RepoAction::NeedsPull
    } else {
        RepoAction::UpToDate
    }
}

/// Action totality: every combination of probed push-direction facts is
/// assigned exactly one classification, and each classification is assigned
/// if and only if its condition is the most urgent one that holds.
pub proof fn lemma_push_action_total(unstaged: bool, staged: bool, ahead: bool)
    ensures
        push_action_of(unstaged, staged, ahead).valid_for_push(),
        (push_action_of(unstaged, staged, ahead) == RepoAction::NeedsStage) <==> unstaged,
        (push_action_of(unstaged, staged, ahead) == RepoAction::NeedsCommit) <==> (!unstaged
            && staged),
        (push_action_of(unstaged, staged, ahead) == RepoAction::NeedsPush) <==> (!unstaged
            && !staged && ahead),
        (push_action_of(unstaged, staged, ahead) == RepoAction::UpToDate) <==> (!unstaged
            && !staged && !ahead),
{
}

/// Action totality for the pull direction: the classification is `NeedsPull`
/// exactly when upstream is ahead, and `UpToDate` otherwise.
pub proof fn lemma_pull_action_total(behind: bool)
    ensures
        pull_action_of(behind).valid_for_pull(),
        (pull_action_of(behind) == RepoAction::NeedsPull) <==> behind,
        (pull_action_of(behind) == RepoAction::UpToDate) <==> !behind,
{
}

} // verus!
