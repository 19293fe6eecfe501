//! The plan executor: the state machine that walks the compiled steps in
//! order, the argument lists each step runs, and the classification of each
//! step's output.
//!
//! The executor performs no I/O.  The application runs each step's command,
//! collects the commit message when a commit step asks for one, and records
//! the classified outcome; a failed step is recorded like any other and the
//! walk continues, so one repository's failure never blocks the rest of the
//! batch.

use vstd::prelude::*;

use crate::plan::{ActionStep, ExecutionPlan, StepKind};
use crate::probe::{GitCommandBehavior, GitCommandOutput, GitCommandRequest, GitCommandVerbosity};
use crate::text::{contains_seq, contains_str, trim_of, trim_str};

verus! {

/// How one executed step went, as classified from its captured output.
#[derive(Debug)]
pub enum StepOutcome {
    /// The step did its work.
    Done,
    /// The step succeeded with nothing to do: a pull that was already up to
    /// date.
    AlreadyCurrent,
    /// The step failed; the captured error stream explains why.
    Failed(String),
}

/// The mathematical shape of a [`StepOutcome`].
#[verifier::ext_equal]
pub enum StepOutcomeView {
    Done,
    AlreadyCurrent,
    Failed(Seq<char>),
}

impl View for StepOutcome {
    type V = StepOutcomeView;

    open spec fn view(&self) -> StepOutcomeView {
        match self {
            StepOutcome::Done => StepOutcomeView::Done,
            StepOutcome::AlreadyCurrent => StepOutcomeView::AlreadyCurrent,
            StepOutcome::Failed(e) => StepOutcomeView::Failed(e@),
        }
    }
}

/// How a stage step's output is read: any captured error text means the
/// staging failed.
pub open spec fn stage_outcome(out: GitCommandOutput) -> StepOutcomeView {
    if out.success() && out.stderr@.len() == 0 {
        StepOutcomeView::Done
    } else {
        StepOutcomeView::Failed(out.stderr@)
    }
}

/// How a commit step's output is read: an empty error stream succeeds, and
/// so does git's "nothing to commit" response.
pub open spec fn commit_outcome(out: GitCommandOutput) -> StepOutcomeView {
    if out.success() && (out.stderr@.len() == 0 || contains_seq(
        out.stderr@,
        "nothing to commit"@,
    )) {
        StepOutcomeView::Done
    } else {
        StepOutcomeView::Failed(out.stderr@)
    }
}

/// How a push step's output is read: "nothing to push" responses from the
/// remote count as success, not failure.
pub open spec fn push_outcome(out: GitCommandOutput) -> StepOutcomeView {
    if out.success() && (out.stderr@.len() == 0 || contains_seq(
        out.stderr@,
        "Everything up-to-date"@,
    )) {
        StepOutcomeView::Done
    } else {
        StepOutcomeView::Failed(out.stderr@)
    }
}

/// How a pull step's output is read: "already up to date" is distinguished
/// from a pull that brought changes; both are success.
pub open spec fn pull_outcome(out: GitCommandOutput) -> StepOutcomeView {
    if out.success() && contains_seq(out.stdout@, "Already up to date."@) {
        StepOutcomeView::AlreadyCurrent
    } else if out.success() && out.stderr@.len() == 0 {
        StepOutcomeView::Done
    } else {
        StepOutcomeView::Failed(out.stderr@)
    }
}

/// The classification a step of the given kind gives its output.
pub open spec fn outcome_of(kind: StepKind, out: GitCommandOutput) -> StepOutcomeView {
    match kind {
        StepKind::Stage => stage_outcome(out),
        StepKind::Commit => commit_outcome(out),
        StepKind::Push => push_outcome(out),
        StepKind::Pull => pull_outcome(out),
    }
}

/// Classifies one executed step's captured output.
pub fn classify_output(kind: StepKind, out: GitCommandOutput) -> (r: StepOutcome)
    ensures
        r@ == outcome_of(kind, out),
{
    let ok = out.is_success();
    match kind {
        StepKind::Stage => {
            if ok && out.stderr.as_str().unicode_len() == 0 {
                StepOutcome::Done
            } else {
                StepOutcome::Failed(out.stderr)
            }
        },
        StepKind::Commit => {
            if ok && (out.stderr.as_str().unicode_len() == 0 || contains_str(
                out.stderr.as_str(),
                "nothing to commit",
            )) {
                StepOutcome::Done
            } else {
                StepOutcome::Failed(out.stderr)
            }
        },
        StepKind::Push => {
            if ok && (out.stderr.as_str().unicode_len() == 0 || contains_str(
                out.stderr.as_str(),
                "Everything up-to-date",
            )) {
                StepOutcome::Done
            } else {
                StepOutcome::Failed(out.stderr)
            }
        },
        StepKind::Pull => {
            if ok && contains_str(out.stdout.as_str(), "Already up to date.") {
                StepOutcome::AlreadyCurrent
            } else if ok && out.stderr.as_str().unicode_len() == 0 {
                StepOutcome::Done
            } else {
                StepOutcome::Failed(out.stderr)
            }
        },
    }
}

/// The command a step runs, verbose and with a fatal-on-non-zero exit
/// contract, exactly as the operator was shown: `git add .`, `git commit -m
/// <message>` with the trimmed operator-supplied message, `git push` or
/// `git pull`.  Only a commit step takes a message.
pub fn request_for_step(step: &ActionStep, commit_msg: Option<&String>) -> (r: GitCommandRequest)
    requires
        step.kind == StepKind::Commit ==> commit_msg is Some,
    ensures
        r.path@ == step.path@,
        r.behavior == GitCommandBehavior::AssertZeroExitCode,
        r.verbosity == GitCommandVerbosity::Verbose,
        step.kind == StepKind::Stage ==> r.args@.len() == 2 && r.args@[0]@ == "add"@ && r.args@[1]@
            == "."@,
        step.kind == StepKind::Commit ==> r.args@.len() == 3 && r.args@[0]@ == "commit"@
            && r.args@[1]@ == "-m"@ && r.args@[2]@ == trim_of(commit_msg->Some_0@),
        step.kind == StepKind::Push ==> r.args@.len() == 1 && r.args@[0]@ == "push"@,
        step.kind == StepKind::Pull ==> r.args@.len() == 1 && r.args@[0]@ == "pull"@,
{
    let args: Vec<String> = match step.kind {
        StepKind::Stage => {
            let mut v: Vec<String> = Vec::new();
            v.push(String::from_str("add"));
            v.push(String::from_str("."));
            v
        },
        StepKind::Commit => {
            let msg = commit_msg.unwrap();
            let mut v: Vec<String> = Vec::new();
            v.push(String::from_str("commit"));
            v.push(String::from_str("-m"));
            v.push(trim_str(msg.as_str()));
            v
        },
        StepKind::Push => {
            let mut v: Vec<String> = Vec::new();
            v.push(String::from_str("push"));
            v
        },
        StepKind::Pull => {
            let mut v: Vec<String> = Vec::new();
            v.push(String::from_str("pull"));
            v
        },
    };
    GitCommandRequest {
        path: step.path.clone(),
        args,
        behavior: GitCommandBehavior::AssertZeroExitCode,
        verbosity: GitCommandVerbosity::Verbose,
    }
}

/// The executor's walk over a plan: a cursor over the steps and the outcome
/// recorded for each step already run.
///
/// Recording an outcome never requires the outcome to be a success: a
/// failure advances the cursor exactly as a success does, which is the
/// failure-isolation discipline — every remaining step is still attempted.
#[derive(Debug)]
pub struct ExecutorState {
    pub steps: Vec<ActionStep>,
    pub outcomes: Vec<StepOutcome>,
}

impl ExecutorState {
    /// Every step before the cursor has exactly one recorded outcome.
    pub open spec fn wf(self) -> bool {
        self.outcomes@.len() <= self.steps@.len()
    }

    /// The cursor: how many steps have run.
    pub open spec fn cursor(self) -> int {
        self.outcomes@.len() as int
    }

    /// Starts a walk over the plan's steps, consuming the plan.
    pub fn new(plan: ExecutionPlan) -> (r: ExecutorState)
        ensures
            r.wf(),
            r.steps == plan.steps,
            r.outcomes@.len() == 0,
    {
        ExecutorState { steps: plan.steps, outcomes: Vec::new() }
    }

    /// The step to run next, or `None` once every step has an outcome.
    pub fn current_step(&self) -> (r: Option<&ActionStep>)
        requires
            self.wf(),
        ensures
            self.cursor() < self.steps@.len() ==> (r matches Some(s) && *s
                == self.steps@[self.cursor()]),
            self.cursor() == self.steps@.len() ==> r is None,
    {
        if self.outcomes.len() < self.steps.len() {
            Some(&self.steps[self.outcomes.len()])
        } else {
            None
        }
    }

    /// Records the outcome of the current step — success or failure alike —
    /// and moves to the next one.
    pub fn record_outcome(&mut self, outcome: StepOutcome)
        requires
            old(self).wf(),
            old(self).cursor() < old(self).steps@.len(),
        ensures
            final(self).wf(),
            final(self).steps == old(self).steps,
            final(self).outcomes@ == old(self).outcomes@.push(outcome),
            final(self).cursor() == old(self).cursor() + 1,
    {
        self.outcomes.push(outcome);
    }

    /// True once every step has an outcome.
    pub fn is_finished(&self) -> (r: bool)
        requires
            self.wf(),
        ensures
            r == (self.cursor() == self.steps@.len()),
    {
        self.outcomes.len() == self.steps.len()
    }
}

/// Failure isolation: the executor's continuation does not depend on what
/// the recorded outcomes were.  Two walks over the same plan that have
/// recorded equally many outcomes — successes in one, failures in the other
/// — present the same next step, so a failed step never removes, reorders
/// or blocks the steps that follow it.
pub proof fn lemma_failure_isolation(a: ExecutorState, b: ExecutorState)
    requires
        a.wf(),
        b.wf(),
        a.steps == b.steps,
        a.outcomes@.len() == b.outcomes@.len(),
    ensures
        (a.cursor() < a.steps@.len()) == (b.cursor() < b.steps@.len()),
        a.cursor() < a.steps@.len() ==> a.steps@[a.cursor()] == b.steps@[b.cursor()],
{
}

} // verus!
