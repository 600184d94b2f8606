//! Replanning without an operator: when the next Plan Run starts, and when
//! replanning pauses.

use vstd::prelude::*;

use crate::contracts::{
    AutoReplanState, BlockReason, IssueAssignmentResponse, PauseReason, PhaseOutputResponse,
    PlanRunResponse,
};
#[allow(unused_imports)]
use crate::contracts::PlanRunState;
use crate::text::same_text;

verus! {

/// What a finished Plan Run means for replanning.
#[derive(Clone, Copy, Debug, Eq, PartialEq, Structural)]
pub enum CycleOutcome {
    Continue,
    Pause(PauseReason),
}

/// What the last sync of the Issue Source came to.
#[derive(Clone, Copy, Debug, Eq, PartialEq, Structural)]
pub enum SyncOutcome {
    Succeeded,
    Failed,
}

/// What the driver starts.
#[derive(Clone, Copy, Debug, Eq, PartialEq, Structural)]
pub enum CycleTrigger {
    StartPlanRun,
}

/// Where replanning stands.
#[derive(Clone, Copy, Debug, Eq, PartialEq, Structural)]
pub struct AutoReplanCurrent {
    pub state: AutoReplanState,
    pub has_active_plan_run: bool,
}

/// What the driver does next.
#[derive(Clone, Copy, Debug, Eq, PartialEq, Structural)]
pub struct AutoReplanDecision {
    pub next_state: AutoReplanState,
    pub pause_reason: Option<PauseReason>,
    pub trigger: Option<CycleTrigger>,
}

pub struct AutoReplanDriver;

/// The decision in each situation. Only an armed driver without an active Plan
/// Run acts: a failed sync or a pausing outcome pauses it, and a successful sync
/// with no outcome to weigh starts a Plan Run.
pub open spec fn replan_decision(
    current: AutoReplanCurrent,
    last_plan_run_outcome: Option<CycleOutcome>,
    sync_result: Option<SyncOutcome>,
) -> AutoReplanDecision {
    let idle = AutoReplanDecision {
        next_state: current.state,
        pause_reason: None,
        trigger: None,
    };
    let paused = |reason: PauseReason|
        AutoReplanDecision {
            next_state: AutoReplanState::Paused,
            pause_reason: Some(reason),
            trigger: None,
        };
    if current.state != AutoReplanState::Armed || current.has_active_plan_run {
        idle
    } else {
        match (sync_result, last_plan_run_outcome) {
            (Some(SyncOutcome::Failed), _) => paused(PauseReason::SyncFailed),
            (_, Some(CycleOutcome::Pause(reason))) => paused(reason),
            (Some(SyncOutcome::Succeeded), None) => AutoReplanDecision {
                trigger: Some(CycleTrigger::StartPlanRun),
                ..idle
            },
            _ => idle,
        }
    }
}

impl AutoReplanDriver {
    /// What the driver does next.
    pub fn decide(
        current: AutoReplanCurrent,
        last_plan_run_outcome: Option<CycleOutcome>,
        sync_result: Option<SyncOutcome>,
    ) -> (decision: AutoReplanDecision)
        ensures
            decision == replan_decision(current, last_plan_run_outcome, sync_result),
    {
        if current.state != AutoReplanState::Armed {
            return AutoReplanDecision {
                next_state: current.state,
                pause_reason: None,
                trigger: None,
            };
        }
        if current.has_active_plan_run {
            return AutoReplanDecision {
                next_state: AutoReplanState::Armed,
                pause_reason: None,
                trigger: None,
            };
        }
        if let Some(SyncOutcome::Failed) = sync_result {
            return AutoReplanDecision {
                next_state: AutoReplanState::Paused,
                pause_reason: Some(PauseReason::SyncFailed),
                trigger: None,
            };
        }
        if let Some(CycleOutcome::Pause(reason)) = last_plan_run_outcome {
            return AutoReplanDecision {
                next_state: AutoReplanState::Paused,
                pause_reason: Some(reason),
                trigger: None,
            };
        }
        if let Some(SyncOutcome::Succeeded) = sync_result {
            if last_plan_run_outcome.is_none() {
                return AutoReplanDecision {
                    next_state: AutoReplanState::Armed,
                    pause_reason: None,
                    trigger: Some(CycleTrigger::StartPlanRun),
                };
            }
        }
        AutoReplanDecision {
            next_state: AutoReplanState::Armed,
            pause_reason: None,
            trigger: None,
        }
    }
}

/// A Plan Run is started only by an armed driver, and never beside another one.
pub proof fn law_trigger_needs_armed_and_idle(
    current: AutoReplanCurrent,
    last_plan_run_outcome: Option<CycleOutcome>,
    sync_result: Option<SyncOutcome>,
)
    ensures
        replan_decision(current, last_plan_run_outcome, sync_result).trigger is Some ==> {
            &&& current.state == AutoReplanState::Armed
            &&& !current.has_active_plan_run
            &&& sync_result == Some(SyncOutcome::Succeeded)
            &&& last_plan_run_outcome is None
        },
{
}

/// A driver that is off or paused stays so until the operator acts, and a
/// decision carries a reason exactly when it pauses an armed driver.
pub proof fn law_pause_reason_iff_newly_paused(
    current: AutoReplanCurrent,
    last_plan_run_outcome: Option<CycleOutcome>,
    sync_result: Option<SyncOutcome>,
)
    ensures
        current.state != AutoReplanState::Armed ==> replan_decision(
            current,
            last_plan_run_outcome,
            sync_result,
        ).next_state == current.state,
        replan_decision(current, last_plan_run_outcome, sync_result).pause_reason is Some <==> (
        current.state == AutoReplanState::Armed && replan_decision(
            current,
            last_plan_run_outcome,
            sync_result,
        ).next_state == AutoReplanState::Paused),
{
}

/// One of the outputs is a planning output with this outcome.
pub open spec fn has_planning_outcome(
    outputs: Seq<PhaseOutputResponse>,
    outcome: Seq<char>,
) -> bool {
    exists|i: int|
        0 <= i < outputs.len() && (#[trigger] outputs[i]).phase@ == "planning"@
            && outputs[i].outcome@ == outcome
}

/// One of the assignments has this status.
pub open spec fn has_status(assignments: Seq<IssueAssignmentResponse>, status: Seq<char>) -> bool {
    exists|i: int| 0 <= i < assignments.len() && (#[trigger] assignments[i]).status@ == status
}

/// The assignment is blocked because the Integration Branch has diverged.
pub open spec fn blocked_by_divergence(assignment: IssueAssignmentResponse) -> bool {
    &&& assignment.status@ == "blocked"@
    &&& assignment.block_reason matches Some(reason)
    &&& reason.kind == BlockReason::PushNonFastForward
}

/// One of the assignments is blocked because the Integration Branch has
/// diverged.
pub open spec fn has_divergence(assignments: Seq<IssueAssignmentResponse>) -> bool {
    exists|i: int| 0 <= i < assignments.len() && #[trigger] blocked_by_divergence(assignments[i])
}

/// What a Plan Run means for replanning: the first of these that applies.
pub open spec fn cycle_outcome(
    state: Seq<char>,
    outputs: Seq<PhaseOutputResponse>,
    assignments: Seq<IssueAssignmentResponse>,
) -> CycleOutcome {
    if state != PlanRunState::Finished.wire() {
        CycleOutcome::Pause(PauseReason::PlanningFailed)
    } else if has_planning_outcome(outputs, "failed"@) {
        CycleOutcome::Pause(PauseReason::PlanningFailed)
    } else if assignments.len() == 0 && has_planning_outcome(outputs, "succeeded_empty"@) {
        CycleOutcome::Pause(PauseReason::EmptyBacklog)
    } else if has_divergence(assignments) {
        CycleOutcome::Pause(PauseReason::PushNonFastForward)
    } else if has_status(assignments, "blocked"@) {
        CycleOutcome::Pause(PauseReason::AssignmentBlocked)
    } else if has_status(assignments, "merge_staged"@) {
        CycleOutcome::Pause(PauseReason::MergeStagedLeft)
    } else if has_status(assignments, "merged"@) {
        CycleOutcome::Continue
    } else {
        CycleOutcome::Pause(PauseReason::PlanningFailed)
    }
}

fn planning_outcome_among(outputs: &Vec<PhaseOutputResponse>, outcome: &str) -> (yes: bool)
    ensures
        yes == has_planning_outcome(outputs@, outcome@),
{
    let mut i: usize = 0;
    while i < outputs.len()
        invariant
            i <= outputs.len(),
            forall|k: int|
                0 <= k < i ==> !((#[trigger] outputs@[k]).phase@ == "planning"@
                    && outputs@[k].outcome@ == outcome@),
        decreases outputs.len() - i,
    {
        if same_text(outputs[i].phase.as_str(), "planning") && same_text(
            outputs[i].outcome.as_str(),
            outcome,
        ) {
            return true;
        }
        i += 1;
    }
    false
}

/// Whether one of the assignments has this status.
pub fn status_among(assignments: &Vec<IssueAssignmentResponse>, status: &str) -> (yes: bool)
    ensures
        yes == has_status(assignments@, status@),
{
    let mut i: usize = 0;
    while i < assignments.len()
        invariant
            i <= assignments.len(),
            forall|k: int| 0 <= k < i ==> (#[trigger] assignments@[k]).status@ != status@,
        decreases assignments.len() - i,
    {
        if same_text(assignments[i].status.as_str(), status) {
            return true;
        }
        i += 1;
    }
    false
}

fn divergence_among(assignments: &Vec<IssueAssignmentResponse>) -> (yes: bool)
    ensures
        yes == has_divergence(assignments@),
{
    let mut i: usize = 0;
    while i < assignments.len()
        invariant
            i <= assignments.len(),
            forall|k: int| 0 <= k < i ==> !#[trigger] blocked_by_divergence(assignments@[k]),
        decreases assignments.len() - i,
    {
        let diverged: bool = match &assignments[i].block_reason {
            Some(reason) => reason.kind == BlockReason::PushNonFastForward,
            None => false,
        };
        if same_text(assignments[i].status.as_str(), "blocked") && diverged {
            assert(blocked_by_divergence(assignments@[i as int]));
            return true;
        }
        i += 1;
    }
    false
}

/// What a Plan Run means for replanning.
pub fn classify_plan_run_for_auto_replan(plan_run: &PlanRunResponse) -> (outcome: CycleOutcome)
    ensures
        outcome == cycle_outcome(
            plan_run.state@,
            plan_run.phase_outputs@,
            plan_run.assignments@,
        ),
{
    if !same_text(plan_run.state.as_str(), "finished") {
        return CycleOutcome::Pause(PauseReason::PlanningFailed);
    }
    if planning_outcome_among(&plan_run.phase_outputs, "failed") {
        return CycleOutcome::Pause(PauseReason::PlanningFailed);
    }
    if plan_run.assignments.len() == 0 && planning_outcome_among(
        &plan_run.phase_outputs,
        "succeeded_empty",
    ) {
        return CycleOutcome::Pause(PauseReason::EmptyBacklog);
    }
    if divergence_among(&plan_run.assignments) {
        return CycleOutcome::Pause(PauseReason::PushNonFastForward);
    }
    if status_among(&plan_run.assignments, "blocked") {
        return CycleOutcome::Pause(PauseReason::AssignmentBlocked);
    }
    if status_among(&plan_run.assignments, "merge_staged") {
        return CycleOutcome::Pause(PauseReason::MergeStagedLeft);
    }
    if status_among(&plan_run.assignments, "merged") {
        CycleOutcome::Continue
    } else {
        CycleOutcome::Pause(PauseReason::PlanningFailed)
    }
}

/// Replanning continues only after a Plan Run that merged something and left
/// nothing blocked and nothing staged.
pub proof fn law_continue_needs_clean_merge(
    state: Seq<char>,
    outputs: Seq<PhaseOutputResponse>,
    assignments: Seq<IssueAssignmentResponse>,
)
    ensures
        cycle_outcome(state, outputs, assignments) == CycleOutcome::Continue ==> {
            &&& state == PlanRunState::Finished.wire()
            &&& has_status(assignments, "merged"@)
            &&& !has_status(assignments, "blocked"@)
            &&& !has_status(assignments, "merge_staged"@)
            &&& !has_planning_outcome(outputs, "failed"@)
        },
{
}

} // verus!
