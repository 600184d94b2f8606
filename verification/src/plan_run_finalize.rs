//! The terminal state of a Plan Run.

use vstd::prelude::*;

use crate::merge_phase::AssignmentMergeOutcome;

verus! {

/// The terminal state of one Plan Run.
#[derive(Clone, Copy, Debug, Eq, PartialEq, Structural)]
pub enum PlanRunTerminal {
    /// At least one reviewed assignment was merged and pushed.
    Succeeded,
    /// The Planning Phase selected nothing.
    SucceededEmpty,
    /// Nothing was merged and pushed.
    Failed,
}

impl PlanRunTerminal {
    /// The stored form of the state.
    pub open spec fn wire(self) -> Seq<char> {
        match self {
            PlanRunTerminal::Succeeded => "succeeded"@,
            PlanRunTerminal::SucceededEmpty => "succeeded_empty"@,
            PlanRunTerminal::Failed => "failed"@,
        }
    }

    /// The stored form of the state.
    pub fn as_str(self) -> (text: &'static str)
        ensures
            text@ == self.wire(),
    {
        match self {
            PlanRunTerminal::Succeeded => "succeeded",
            PlanRunTerminal::SucceededEmpty => "succeeded_empty",
            PlanRunTerminal::Failed => "failed",
        }
    }
}

/// What the terminal state depends on. `outcomes` has one entry for each claimed
/// Issue Assignment.
#[derive(Clone, Debug, Eq, PartialEq)]
pub struct PlanRunFinalize {
    pub planning_was_empty: bool,
    pub outcomes: Vec<AssignmentMergeOutcome>,
}

impl Default for PlanRunFinalize {
    fn default() -> (input: PlanRunFinalize)
        ensures
            !input.planning_was_empty,
            input.outcomes@.len() == 0,
    {
        PlanRunFinalize { planning_was_empty: false, outcomes: Vec::new() }
    }
}

/// One of the merges succeeded.
pub open spec fn any_merged(outcomes: Seq<AssignmentMergeOutcome>) -> bool {
    exists|i: int| 0 <= i < outcomes.len() && #[trigger] outcomes[i] is Merged
}

/// The terminal state that the outcomes call for.
pub open spec fn plan_run_terminal(
    planning_was_empty: bool,
    outcomes: Seq<AssignmentMergeOutcome>,
) -> PlanRunTerminal {
    if planning_was_empty {
        PlanRunTerminal::SucceededEmpty
    } else if any_merged(outcomes) {
        PlanRunTerminal::Succeeded
    } else {
        PlanRunTerminal::Failed
    }
}

/// Whether one of the merges succeeded.
pub fn has_merged(outcomes: &Vec<AssignmentMergeOutcome>) -> (yes: bool)
    ensures
        yes == any_merged(outcomes@),
{
    let mut i: usize = 0;
    while i < outcomes.len()
        invariant
            i <= outcomes.len(),
            forall|k: int| 0 <= k < i ==> !(#[trigger] outcomes@[k] is Merged),
        decreases outcomes.len() - i,
    {
        if matches!(outcomes[i], AssignmentMergeOutcome::Merged) {
            return true;
        }
        i += 1;
    }
    false
}

/// Decide the terminal state of a Plan Run from what became of its merges.
pub fn decide_plan_run_terminal(input: &PlanRunFinalize) -> (terminal: PlanRunTerminal)
    ensures
        terminal == plan_run_terminal(input.planning_was_empty, input.outcomes@),
{
    if input.planning_was_empty {
        return PlanRunTerminal::SucceededEmpty;
    }
    if has_merged(&input.outcomes) {
        return PlanRunTerminal::Succeeded;
    }
    PlanRunTerminal::Failed
}

/// A Plan Run whose merges were all blocked or never attempted fails.
pub proof fn law_no_merge_fails(outcomes: Seq<AssignmentMergeOutcome>)
    requires
        forall|i: int| 0 <= i < outcomes.len() ==> !(#[trigger] outcomes[i] is Merged),
    ensures
        plan_run_terminal(false, outcomes) == PlanRunTerminal::Failed,
{
}

/// One merge is enough for success, whatever became of the others.
pub proof fn law_partial_success_succeeds(outcomes: Seq<AssignmentMergeOutcome>, i: int)
    requires
        0 <= i < outcomes.len(),
        outcomes[i] is Merged,
    ensures
        plan_run_terminal(false, outcomes) == PlanRunTerminal::Succeeded,
{
}

} // verus!
