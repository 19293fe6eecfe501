//! The plan builder: a pure function from the probed snapshots and a sync
//! direction to the ordered list of steps that will run.

use vstd::prelude::*;

use crate::action::{entails_commit, entails_push, entails_stage, RepoAction, SyncMode};
use crate::status::{Existence, RepoStatus, RepoStatusView};

verus! {

/// The kind of work one step performs.
#[derive(Debug, Clone, Copy, PartialEq, Eq, Structural)]
pub enum StepKind {
    Stage,
    Commit,
    Push,
    Pull,
}

/// A concrete unit of work bound to one repository path.
#[derive(Debug)]
pub struct ActionStep {
    pub kind: StepKind,
    pub path: String,
}

/// The mathematical shape of an [`ActionStep`].
#[verifier::ext_equal]
pub struct ActionStepView {
    pub kind: StepKind,
    pub path: Seq<char>,
}

impl View for ActionStep {
    type V = ActionStepView;

    open spec fn view(&self) -> ActionStepView {
        ActionStepView { kind: self.kind, path: self.path@ }
    }
}

/// One step of the given kind for the given repository.
pub open spec fn step_for(kind: StepKind, path: Seq<char>) -> ActionStepView {
    ActionStepView { kind, path }
}

/// The steps one snapshot contributes to the plan, in entailed order.
///
/// A repository that does not exist contributes nothing.  In the push
/// direction the classification expands to the sub-steps it entails, always
/// ordered stage before commit before push; in the pull direction only
/// `NeedsPull` contributes its single step.
pub open spec fn steps_of(s: RepoStatusView, mode: SyncMode) -> Seq<ActionStepView> {
    if s.existence != Existence::Exists {
        Seq::empty()
    } else {
        match mode {
            SyncMode::Push => (if entails_stage(s.action) {
                seq![step_for(StepKind::Stage, s.path)]
            } else {
                Seq::empty()
            }) + (if entails_commit(s.action) {
                seq![step_for(StepKind::Commit, s.path)]
            } else {
                Seq::empty()
            }) + (if entails_push(s.action) {
                seq![step_for(StepKind::Push, s.path)]
            } else {
                Seq::empty()
            }),
            SyncMode::Pull => if s.action == RepoAction::NeedsPull {
                seq![step_for(StepKind::Pull, s.path)]
            } else {
                Seq::empty()
            },
        }
    }
}

/// The whole plan's step list: each snapshot's steps in turn, keeping the
/// snapshot order.
pub open spec fn plan_steps(ss: Seq<RepoStatusView>, mode: SyncMode) -> Seq<ActionStepView>
    decreases ss.len(),
{
    if ss.len() == 0 {
        Seq::empty()
    } else {
        steps_of(ss[0], mode) + plan_steps(ss.drop_first(), mode)
    }
}

/// Appending one snapshot appends exactly its steps.
pub proof fn lemma_plan_steps_push(ss: Seq<RepoStatusView>, x: RepoStatusView, mode: SyncMode)
    ensures
        plan_steps(ss.push(x), mode) == plan_steps(ss, mode) + steps_of(x, mode),
    decreases ss.len(),
{
    assert(ss.push(x)[0] == if ss.len() == 0 { x } else { ss[0] });
    if ss.len() == 0 {
        assert(ss.push(x).drop_first() =~= Seq::<RepoStatusView>::empty());
        assert(plan_steps(ss.push(x), mode) == steps_of(x, mode) + plan_steps(
            Seq::<RepoStatusView>::empty(),
            mode,
        ));
        assert(plan_steps(ss.push(x), mode) =~= plan_steps(ss, mode) + steps_of(x, mode));
    } else {
        assert(ss.push(x).drop_first() =~= ss.drop_first().push(x));
        lemma_plan_steps_push(ss.drop_first(), x, mode);
        assert(plan_steps(ss.push(x), mode) =~= plan_steps(ss, mode) + steps_of(x, mode));
    }
}

/// The views of a step list.
pub open spec fn step_views(steps: Seq<ActionStep>) -> Seq<ActionStepView> {
    steps.map_values(|s: ActionStep| s@)
}

/// The ordered sequence of steps across all repositories, paired with the
/// direction and the snapshots it was compiled from.  Built once, immutable,
/// consumed by the executor.
#[derive(Debug)]
pub struct ExecutionPlan {
    pub steps: Vec<ActionStep>,
    pub mode: SyncMode,
    pub repo_statuses: Vec<RepoStatus>,
}

impl ExecutionPlan {
    /// The plan holds exactly the steps its snapshots entail, in snapshot
    /// order.
    pub open spec fn wf(self) -> bool {
        step_views(self.steps@) == plan_steps(
            crate::order::views_of(self.repo_statuses@),
            self.mode,
        )
    }

    /// Compiles the plan from the snapshots: for each repository, in the
    /// given order, the steps its action entails.
    pub fn new(repo_statuses: Vec<RepoStatus>, mode: SyncMode) -> (r: ExecutionPlan)
        ensures
            r.mode == mode,
            r.repo_statuses == repo_statuses,
            r.wf(),
    {
        let mut steps: Vec<ActionStep> = Vec::new();
        let n = repo_statuses.len();
        let ghost all = crate::order::views_of(repo_statuses@);
        proof {
            assert(all.subrange(0, 0) =~= Seq::<RepoStatusView>::empty());
            assert(step_views(steps@) =~= Seq::<ActionStepView>::empty());
        }
        let mut i: usize = 0;
        while i < n
            invariant
                i <= n,
                n == repo_statuses@.len(),
                all == crate::order::views_of(repo_statuses@),
                step_views(steps@) == plan_steps(all.subrange(0, i as int), mode),
            decreases n - i,
        {
            let status = &repo_statuses[i];
            let ghost steps0 = steps@;
            if matches!(status.existence, Existence::Exists) {
                match mode {
                    SyncMode::Push => {
                        if status.action.needs_stage() {
                            steps.push(ActionStep { kind: StepKind::Stage, path: status.path.clone() });
                        }
                        if status.action.needs_commit() {
                            steps.push(ActionStep { kind: StepKind::Commit, path: status.path.clone() });
                        }
                        if status.action.needs_push() {
                            steps.push(ActionStep { kind: StepKind::Push, path: status.path.clone() });
                        }
                    },
                    SyncMode::Pull => {
                        if matches!(status.action, RepoAction::NeedsPull) {
                            steps.push(ActionStep { kind: StepKind::Pull, path: status.path.clone() });
                        }
                    },
                }
            }
            proof {
                assert(all[i as int] == repo_statuses@[i as int]@);
                assert(step_views(steps@) =~= step_views(steps0) + steps_of(all[i as int], mode));
                lemma_plan_steps_push(all.subrange(0, i as int), all[i as int], mode);
                assert(all.subrange(0, i as int).push(all[i as int]) =~= all.subrange(
                    0,
                    i as int + 1,
                ));
            }
            i += 1;
        }
        proof {
            assert(all.subrange(0, n as int) =~= all);
        }
        ExecutionPlan { steps, mode, repo_statuses }
    }

    /// Sorts the snapshots by repository path, then compiles the plan from
    /// the sorted order: whatever completion order the concurrent probes
    /// had, the plan is built over the same deterministic arrangement.
    pub fn compile(repo_statuses: Vec<RepoStatus>, mode: SyncMode) -> (r: ExecutionPlan)
        ensures
            r.mode == mode,
            r.wf(),
            crate::order::sorted_by_path(crate::order::views_of(r.repo_statuses@)),
            crate::order::views_of(r.repo_statuses@).to_multiset() == crate::order::views_of(
                repo_statuses@,
            ).to_multiset(),
    {
        let sorted = crate::order::sort_statuses(repo_statuses);
        ExecutionPlan::new(sorted, mode)
    }

    /// True iff the plan schedules nothing: the trigger for skipping the
    /// confirmation prompt.
    pub fn is_noop(&self) -> (r: bool)
        ensures
            r == (self.steps@.len() == 0),
    {
        self.steps.len() == 0
    }

    /// The number of steps the plan schedules.
    pub fn len(&self) -> (r: usize)
        ensures
            r == self.steps@.len(),
    {
        self.steps.len()
    }
}

/// Entailment monotonicity: in the push direction, an existing repository's
/// classification expands to exactly the entailed step list, in the fixed
/// order stage, commit, push — never any other selection or order.
pub proof fn lemma_push_entailment(s: RepoStatusView)
    requires
        s.existence == Existence::Exists,
    ensures
        s.action == RepoAction::NeedsStage ==> steps_of(s, SyncMode::Push) == seq![
            step_for(StepKind::Stage, s.path),
            step_for(StepKind::Commit, s.path),
            step_for(StepKind::Push, s.path),
        ],
        s.action == RepoAction::NeedsCommit ==> steps_of(s, SyncMode::Push) == seq![
            step_for(StepKind::Commit, s.path),
            step_for(StepKind::Push, s.path),
        ],
        s.action == RepoAction::NeedsPush ==> steps_of(s, SyncMode::Push) == seq![
            step_for(StepKind::Push, s.path),
        ],
        s.action == RepoAction::UpToDate ==> steps_of(s, SyncMode::Push) == Seq::<
            ActionStepView,
        >::empty(),
{
    if s.action == RepoAction::NeedsStage {
        assert(steps_of(s, SyncMode::Push) =~= seq![
            step_for(StepKind::Stage, s.path),
            step_for(StepKind::Commit, s.path),
            step_for(StepKind::Push, s.path),
        ]);
    }
    if s.action == RepoAction::NeedsCommit {
        assert(steps_of(s, SyncMode::Push) =~= seq![
            step_for(StepKind::Commit, s.path),
            step_for(StepKind::Push, s.path),
        ]);
    }
    if s.action == RepoAction::NeedsPush {
        assert(steps_of(s, SyncMode::Push) =~= seq![step_for(StepKind::Push, s.path)]);
    }
    if s.action == RepoAction::UpToDate {
        assert(steps_of(s, SyncMode::Push) =~= Seq::<ActionStepView>::empty());
    }
}

/// Pull direction expansion: `NeedsPull` contributes exactly the single
/// pull step, `UpToDate` contributes nothing.
pub proof fn lemma_pull_steps(s: RepoStatusView)
    requires
        s.existence == Existence::Exists,
    ensures
        s.action == RepoAction::NeedsPull ==> steps_of(s, SyncMode::Pull) == seq![
            step_for(StepKind::Pull, s.path),
        ],
        s.action != RepoAction::NeedsPull ==> steps_of(s, SyncMode::Pull) == Seq::<
            ActionStepView,
        >::empty(),
{
}

/// From probed facts to scheduled work, end to end: an existing repository
/// probed in the push direction is planned exactly the steps that the most
/// urgent of its three facts entails.  A dirty working tree schedules the
/// full stage–commit–push chain; staged-only changes schedule commit and
/// push; commits ahead of upstream schedule the push alone; a clean, synced
/// repository schedules nothing.
pub proof fn lemma_probe_to_plan(s: RepoStatusView, unstaged: bool, staged: bool, ahead: bool)
    requires
        s.existence == Existence::Exists,
        s.action == crate::action::push_action_of(unstaged, staged, ahead),
    ensures
        unstaged ==> steps_of(s, SyncMode::Push) == seq![
            step_for(StepKind::Stage, s.path),
            step_for(StepKind::Commit, s.path),
            step_for(StepKind::Push, s.path),
        ],
        !unstaged && staged ==> steps_of(s, SyncMode::Push) == seq![
            step_for(StepKind::Commit, s.path),
            step_for(StepKind::Push, s.path),
        ],
        !unstaged && !staged && ahead ==> steps_of(s, SyncMode::Push) == seq![
            step_for(StepKind::Push, s.path),
        ],
        !unstaged && !staged && !ahead ==> steps_of(s, SyncMode::Push) == Seq::<
            ActionStepView,
        >::empty(),
{
    crate::action::lemma_push_action_total(unstaged, staged, ahead);
    lemma_push_entailment(s);
}

/// Noop short-circuit: a plan built from snapshots that are all up to date
/// (or absent from disk) schedules no steps at all.
pub proof fn lemma_noop_when_all_up_to_date(ss: Seq<RepoStatusView>, mode: SyncMode)
    requires
        forall|i: int|
            0 <= i < ss.len() ==> (#[trigger] ss[i]).action == RepoAction::UpToDate || ss[i].existence
                != Existence::Exists,
    ensures
        plan_steps(ss, mode).len() == 0,
    decreases ss.len(),
{
    if ss.len() > 0 {
        assert(steps_of(ss[0], mode) =~= Seq::<ActionStepView>::empty());
        assert forall|i: int| 0 <= i < ss.drop_first().len() implies (#[trigger] ss.drop_first()[i]).action
            == RepoAction::UpToDate || ss.drop_first()[i].existence != Existence::Exists by {
            assert(ss.drop_first()[i] == ss[i + 1]);
        }
        lemma_noop_when_all_up_to_date(ss.drop_first(), mode);
    }
}

/// The plan-level corollary: a well-formed plan whose snapshots are all up
/// to date (or absent from disk) is a noop, so the confirmation prompt is
/// skipped.
pub proof fn lemma_plan_is_noop(plan: ExecutionPlan)
    requires
        plan.wf(),
        forall|i: int|
            0 <= i < plan.repo_statuses@.len() ==> (#[trigger] plan.repo_statuses@[i])@.action
                == RepoAction::UpToDate || plan.repo_statuses@[i]@.existence != Existence::Exists,
    ensures
        plan.steps@.len() == 0,
{
    let views = crate::order::views_of(plan.repo_statuses@);
    assert forall|i: int| 0 <= i < views.len() implies (#[trigger] views[i]).action
        == RepoAction::UpToDate || views[i].existence != Existence::Exists by {
        assert(views[i] == plan.repo_statuses@[i]@);
    }
    lemma_noop_when_all_up_to_date(views, plan.mode);
    assert(step_views(plan.steps@).len() == plan.steps@.len());
}

/// Order invariance under concurrency, at the plan level: two plans
/// compiled in the same direction from path-sorted arrangements of the same
/// snapshots — as any two completion orders of the probes produce — hold
/// the same snapshots in the same order and schedule the very same steps,
/// provided no repository path occurs twice.
pub proof fn lemma_compile_deterministic(p1: ExecutionPlan, p2: ExecutionPlan)
    requires
        p1.wf(),
        p2.wf(),
        p1.mode == p2.mode,
        crate::order::sorted_by_path(crate::order::views_of(p1.repo_statuses@)),
        crate::order::sorted_by_path(crate::order::views_of(p2.repo_statuses@)),
        crate::order::distinct_paths(crate::order::views_of(p1.repo_statuses@)),
        crate::order::views_of(p1.repo_statuses@).to_multiset() == crate::order::views_of(
            p2.repo_statuses@,
        ).to_multiset(),
    ensures
        crate::order::views_of(p1.repo_statuses@) == crate::order::views_of(p2.repo_statuses@),
        step_views(p1.steps@) == step_views(p2.steps@),
{
    crate::order::lemma_sorted_by_path_unique(
        crate::order::views_of(p1.repo_statuses@),
        crate::order::views_of(p2.repo_statuses@),
    );
}

} // verus!
