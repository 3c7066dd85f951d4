use vstd::prelude::*;

pub mod finalizers;
pub mod initializers;

verus! {

use crate::atoms::Atom;

/// One unit of scheduled work: an atom to run, guarded by an ordered list
/// of initializer flow controls, with an ordered list of finalizer flow
/// controls for the surrounding scheduler to apply after the run.
pub struct Step {
    pub atom: Box<dyn Atom>,
    pub initializers: Vec<initializers::FlowControl>,
    pub finalizers: Vec<finalizers::FlowControl>,
}

impl Step {
    /// The run decision as a predicate on the step's state: the step may
    /// run exactly when every initializer entry votes to allow it. Over an
    /// empty list this holds vacuously, and one entry that reports true or
    /// errors denies it whatever the others report.
    pub open spec fn initializers_allow(&self) -> bool {
        forall|i: int|
            0 <= i < self.initializers@.len() ==> (#[trigger] self.initializers@[i]).allows()
    }

    /// Evaluate every initializer guard exactly once, in list order, and
    /// collect each outcome at its entry's position.
    pub fn evaluate_initializers(&self) -> (outcomes: Vec<Option<bool>>)
        ensures
            outcomes@.len() == self.initializers@.len(),
            forall|i: int|
                0 <= i < outcomes@.len()
                    ==> outcomes@[i] == (#[trigger] self.initializers@[i]).outcome(),
    {
        let mut outcomes: Vec<Option<bool>> = Vec::new();
        let n = self.initializers.len();
        let mut idx: usize = 0;
        while idx < n
            invariant
                n == self.initializers@.len(),
                idx <= n,
                outcomes@.len() == idx,
                forall|i: int|
                    0 <= i < idx ==> outcomes@[i] == (#[trigger] self.initializers@[i]).outcome(),
            decreases n - idx,
        {
            let outcome = match &self.initializers[idx] {
                initializers::FlowControl::SkipIf(guard) => match guard.initialize() {
                    Ok(b) => Some(b),
                    Err(_) => None,
                },
            };
            outcomes.push(outcome);
            idx = idx + 1;
        }
        outcomes
    }

    /// Decide whether this step's atom may run.
    ///
    /// Every guard in the list is evaluated, in order, even after an
    /// earlier one has already forced exclusion: a later guard may carry
    /// side effects of its own that must not be dropped. The decision is
    /// monotonic toward exclusion: a guard that reports true, or that
    /// errors, denies the run, and no later guard can undo that.
    pub fn do_initializers_allow_us_to_run(&self) -> (allowed: bool)
        ensures
            allowed == self.initializers_allow(),
    {
        let outcomes = self.evaluate_initializers();
        let allowed = fold_decision(&outcomes);
        proof {
            if (forall|i: int| 0 <= i < outcomes@.len() ==> #[trigger] outcomes@[i] == Some(false)) {
                assert forall|i: int| 0 <= i < self.initializers@.len() implies (
                #[trigger] self.initializers@[i]).allows() by {
                    assert(outcomes@[i] == Some(false));
                }
            }
            if self.initializers_allow() {
                assert forall|i: int| 0 <= i < outcomes@.len() implies #[trigger] outcomes@[i]
                    == Some(false) by {
                    assert(self.initializers@[i].allows());
                }
            }
        }
        allowed
    }

    /// Render the step as a textual label derived from its atom's label.
    /// The guard lists are not rendered yet.
    pub fn render(&self) -> (r: String)
        ensures
            r@ == "Step: "@ + self.atom.spec_label()
                + " (Not printing initializers and finalizers yet)"@,
    {
        let mut out = String::from_str("Step: ");
        let label = self.atom.label();
        out.append(label.as_str());
        out.append(" (Not printing initializers and finalizers yet)");
        out
    }
}

/// Reduce a sequence of guard outcomes to the one run decision: allowed
/// exactly when every outcome is a clean false. Every outcome is
/// inspected; there is no short circuit.
pub fn fold_decision(outcomes: &Vec<Option<bool>>) -> (allowed: bool)
    ensures
        allowed == (forall|i: int|
            0 <= i < outcomes@.len() ==> #[trigger] outcomes@[i] == Some(false)),
{
    let mut allowed = true;
    let mut idx: usize = 0;
    while idx < outcomes.len()
        invariant
            idx <= outcomes@.len(),
            allowed == (forall|i: int| 0 <= i < idx ==> #[trigger] outcomes@[i] == Some(false)),
        decreases outcomes@.len() - idx,
    {
        match outcomes[idx] {
            Some(false) => {},
            _ => {
                allowed = false;
            },
        }
        idx = idx + 1;
    }
    allowed
}

/// Law: a step with no initializers is allowed to run (vacuous allow).
pub proof fn lemma_empty_initializers_allow(step: &Step)
    requires
        step.initializers@.len() == 0,
    ensures
        step.initializers_allow(),
{
}

/// Law: one guard that reports true forces denial, whatever the other
/// guards in the list report.
pub proof fn lemma_skip_vote_denies(step: &Step, i: int)
    requires
        0 <= i < step.initializers@.len(),
        step.initializers@[i].outcome() == Some(true),
    ensures
        !step.initializers_allow(),
{
    assert(!step.initializers@[i].allows());
}

/// Law: one guard that cannot decide forces denial, whatever its position
/// in the list and whatever the other guards report (fail-safe).
pub proof fn lemma_error_denies(step: &Step, i: int)
    requires
        0 <= i < step.initializers@.len(),
        step.initializers@[i].outcome() is None,
    ensures
        !step.initializers_allow(),
{
    assert(!step.initializers@[i].allows());
}

/// Law: when every guard in the list cleanly reports false, the step is
/// allowed to run.
pub proof fn lemma_all_clear_allows(step: &Step)
    requires
        forall|i: int|
            0 <= i < step.initializers@.len() ==> (#[trigger] step.initializers@[i]).outcome()
                == Some(false),
    ensures
        step.initializers_allow(),
{
}

/// Law: the run decision is a function of the step's guards alone, so two
/// decisions taken on the same step agree.
pub proof fn lemma_decision_deterministic(step: &Step, first: bool, second: bool)
    requires
        first == step.initializers_allow(),
        second == step.initializers_allow(),
    ensures
        first == second,
{
}

} // verus!
