//! A sequence of steps carried out in order, which stops at the first step
//! that fails: the `?` chains of the container's set-up and tear-down.
use vstd::prelude::*;
use crate::syscall::{Step, StepView};

verus! {

/// Where a plan stands.
#[derive(Debug, PartialEq, Eq)]
pub enum PlanStatus {
    /// A step is still to be carried out.
    Running,
    /// Every step succeeded.
    Completed,
    /// The step at this index failed; no later step is carried out.
    Failed(usize),
}

/// The state of a plan: its steps, how many of them succeeded, and whether
/// the step after those failed.
pub struct PlanView {
    pub steps: Seq<StepView>,
    pub completed: nat,
    pub failed: bool,
}

/// The views of a list of steps.
pub open spec fn step_views(v: Seq<Step>) -> Seq<StepView> {
    v.map_values(|s: Step| s@)
}

/// Whether a step is still to be carried out.
pub open spec fn plan_running(p: PlanView) -> bool {
    !p.failed && p.completed < p.steps.len()
}

/// The state after the step that is due has been carried out, with
/// `succeeded` telling how it went; a finished plan stays as it is.
pub open spec fn plan_after(p: PlanView, succeeded: bool) -> PlanView {
    if !plan_running(p) {
        p
    } else if succeeded {
        PlanView { completed: p.completed + 1, ..p }
    } else {
        PlanView { failed: true, ..p }
    }
}

/// The status of a plan.
pub open spec fn plan_status(p: PlanView) -> PlanStatus {
    if p.failed {
        PlanStatus::Failed(p.completed as usize)
    } else if p.completed >= p.steps.len() {
        PlanStatus::Completed
    } else {
        PlanStatus::Running
    }
}

/// The state reached from `p` when the steps due report `outcomes`, in order.
pub open spec fn plan_run(p: PlanView, outcomes: Seq<bool>) -> PlanView
    decreases outcomes.len(),
{
    if outcomes.len() == 0 {
        p
    } else {
        plan_after(plan_run(p, outcomes.drop_last()), outcomes.last())
    }
}

/// How many of `outcomes`, from the first on, are successes.
pub open spec fn leading_successes(outcomes: Seq<bool>) -> nat
    decreases outcomes.len(),
{
    if outcomes.len() == 0 {
        0
    } else {
        let k = leading_successes(outcomes.drop_last());
        if k == outcomes.len() - 1 && outcomes.last() {
            outcomes.len()
        } else {
            k
        }
    }
}

/// A sequence of steps, carried out in order until one fails.
#[derive(Debug, PartialEq, Eq)]
pub struct Plan {
    steps: Vec<Step>,
    completed: usize,
    failed: bool,
}

impl View for Plan {
    type V = PlanView;

    closed spec fn view(&self) -> PlanView {
        PlanView {
            steps: step_views(self.steps@),
            completed: self.completed as nat,
            failed: self.failed,
        }
    }
}

impl Plan {
    #[verifier::type_invariant]
    spec fn inv(self) -> bool {
        &&& self.completed <= self.steps.len()
        &&& self.failed ==> self.completed < self.steps.len()
    }

    /// A plan of `steps`, none carried out yet.
    pub fn new(steps: Vec<Step>) -> (p: Plan)
        ensures
            p@ == (PlanView { steps: step_views(steps@), completed: 0, failed: false }),
    {
        Plan { steps, completed: 0, failed: false }
    }

    /// The step that is due, if the plan is running.
    pub fn next_step(&self) -> (r: Option<&Step>)
        ensures
            r is Some <==> plan_running(self@),
            r matches Some(s) ==> s@ == self@.steps[self@.completed as int],
    {
        proof {
            use_type_invariant(self);
        }
        if !self.failed && self.completed < self.steps.len() {
            Some(&self.steps[self.completed])
        } else {
            None
        }
    }

    /// Records how the step that is due went.
    pub fn record(&mut self, succeeded: bool)
        ensures
            final(self)@ == plan_after(old(self)@, succeeded),
    {
        proof {
            use_type_invariant(&*self);
        }
        if !self.failed && self.completed < self.steps.len() {
            if succeeded {
                self.completed = self.completed + 1;
            } else {
                self.failed = true;
            }
        }
    }

    /// Where the plan stands.
    pub fn status(&self) -> (r: PlanStatus)
        ensures
            r == plan_status(self@),
    {
        proof {
            use_type_invariant(self);
        }
        if self.failed {
            PlanStatus::Failed(self.completed)
        } else if self.completed >= self.steps.len() {
            PlanStatus::Completed
        } else {
            PlanStatus::Running
        }
    }

    /// The number of steps.
    pub fn len(&self) -> (n: usize)
        ensures
            n == self@.steps.len(),
    {
        self.steps.len()
    }
}

/// Law: a plan that starts with no step carried out, fed the outcomes of the
/// steps it offers, succeeds at as many steps as the outcomes begin with
/// successes (at most all of them), and has failed exactly when a failure was
/// reported for one of its steps; the steps after the failed one are never
/// offered.
pub proof fn plan_stops_at_first_failure(p: PlanView, outcomes: Seq<bool>)
    requires
        p.completed == 0,
        !p.failed,
    ensures
        plan_run(p, outcomes).steps == p.steps,
        plan_run(p, outcomes).completed == if leading_successes(outcomes) < p.steps.len() {
            leading_successes(outcomes)
        } else {
            p.steps.len()
        },
        plan_run(p, outcomes).failed <==> (leading_successes(outcomes) < outcomes.len()
            && leading_successes(outcomes) < p.steps.len()),
    decreases outcomes.len(),
{
    if outcomes.len() > 0 {
        plan_stops_at_first_failure(p, outcomes.drop_last());
        let k = leading_successes(outcomes.drop_last());
        assert(k <= outcomes.len() - 1) by {
            lemma_leading_successes_bound(outcomes.drop_last());
        }
    }
}

proof fn lemma_leading_successes_bound(outcomes: Seq<bool>)
    ensures
        leading_successes(outcomes) <= outcomes.len(),
    decreases outcomes.len(),
{
    if outcomes.len() > 0 {
        lemma_leading_successes_bound(outcomes.drop_last());
    }
}

/// Law: a plan completes exactly when every one of its steps was reported
/// to have succeeded, in order.
pub proof fn plan_completes_iff_all_succeed(p: PlanView, outcomes: Seq<bool>)
    requires
        p.completed == 0,
        !p.failed,
        outcomes.len() == p.steps.len(),
    ensures
        plan_status(plan_run(p, outcomes)) == PlanStatus::Completed <==> (forall|i: int|
            0 <= i < outcomes.len() ==> #[trigger] outcomes[i]),
{
    plan_stops_at_first_failure(p, outcomes);
    lemma_leading_successes_all(outcomes);
    lemma_leading_successes_bound(outcomes);
}

proof fn lemma_leading_successes_all(outcomes: Seq<bool>)
    ensures
        leading_successes(outcomes) == outcomes.len() <==> (forall|i: int|
            0 <= i < outcomes.len() ==> #[trigger] outcomes[i]),
    decreases outcomes.len(),
{
    if outcomes.len() > 0 {
        let d = outcomes.drop_last();
        lemma_leading_successes_all(d);
        lemma_leading_successes_bound(d);
        if forall|i: int| 0 <= i < outcomes.len() ==> #[trigger] outcomes[i] {
            assert forall|i: int| 0 <= i < d.len() implies #[trigger] d[i] by {
                assert(outcomes[i]);
            }
            assert(outcomes[outcomes.len() - 1]);
        }
        if leading_successes(outcomes) == outcomes.len() {
            assert forall|i: int| 0 <= i < outcomes.len() implies #[trigger] outcomes[i] by {
                if i < d.len() {
                    assert(d[i]);
                }
            }
        }
    }
}

} // verus!
