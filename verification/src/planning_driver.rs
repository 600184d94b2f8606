//! The start of a Plan Run: planning, validation and claims.
//!
//! The state machine runs from the planner's prompt to the claimed Issue
//! Assignments, and waits for their parallel implementation and review.
//! [`step`] takes the result of the last action to the next one; whoever drives
//! the machine performs the actions.

use vstd::prelude::*;

use crate::contracts::{ProjectExecutionConfigResponse, SourceIssueSnapshot};
use crate::json::JsonDocument;
#[allow(unused_imports)]
use crate::json::{array_field, JsonModel};
use crate::plan_run::{
    parse_planning_output, LifecycleStatus, ParsedPlanningOutput, PhaseRecord, PlanRunPhaseError,
};
#[allow(unused_imports)]
use crate::plan_run::planning_output;
use crate::plan_run_finalize::PlanRunTerminal;
use crate::planning_phase::{validate_planner_selection, PlannedClaim};
#[allow(unused_imports)]
use crate::planning_phase::{is_planner_decision, selections_of, PlanningRejection};
use crate::problem::{CoordinatorError, PersistenceError};

verus! {

/// What the Planning Phase decided: the claims, the planner's body, and the
/// configuration that the claims were validated against.
#[derive(Debug, Eq, PartialEq)]
pub struct ClaimPlan {
    pub body: JsonDocument,
    pub config: ProjectExecutionConfigResponse,
    pub claims: Vec<PlannedClaim>,
}

/// Which result the machine waits for.
#[derive(Debug, Eq, PartialEq)]
pub enum PlanningStage {
    /// The eligible issues for the prompt are being loaded.
    LoadingEligible,
    /// The planner is running.
    Planning,
    /// The failed Planning Phase is being stored.
    RecordingFailure { error: CoordinatorError },
    /// The failed Plan Run is being closed.
    Closing { error: CoordinatorError },
    /// The empty plan is being stored.
    RecordingEmpty,
    /// The empty Plan Run is being finished.
    FinishingEmpty,
    /// The eligible issues for the validation are being loaded.
    LoadingSnapshot { parsed: ParsedPlanningOutput },
    /// The execution configuration is being loaded.
    LoadingConfig { parsed: ParsedPlanningOutput, eligible: Vec<SourceIssueSnapshot> },
    /// The assignment of a claim is being created.
    Creating { plan: ClaimPlan, at: usize },
    /// The worktree of a claim is being provisioned.
    Provisioning { plan: ClaimPlan, at: usize },
    /// The worktree of a claim is being stored.
    Placing { plan: ClaimPlan, at: usize },
    /// The claim is being written back to the Issue Source.
    Claiming { plan: ClaimPlan, at: usize },
    /// The assignment of a failed claim is being released.
    Releasing { error: CoordinatorError },
    /// The plan is being stored.
    RecordingPlan { config: ProjectExecutionConfigResponse },
    /// The claimed assignments are being implemented and reviewed.
    RunningTranche,
    Finished,
}

/// The result of an action.
#[derive(Debug, Eq, PartialEq)]
pub enum PlanningEvent {
    /// The eligible issues.
    Snapshot(Result<Vec<SourceIssueSnapshot>, PersistenceError>),
    /// The planner printed this, or failed.
    Ran(Result<String, PlanRunPhaseError>),
    /// The execution configuration, where the Project has one.
    Config(Result<Option<ProjectExecutionConfigResponse>, PersistenceError>),
    /// The database took the action, or failed.
    Stored(Result<(), PersistenceError>),
    /// The worktree stands, or could not be made.
    Provisioned(Result<String, PlanRunPhaseError>),
    /// The Issue Source took the status, or failed.
    Written(Result<(), PlanRunPhaseError>),
    /// The parallel work has ended, with an error where a phase failed hard.
    TrancheEnded(Result<(), CoordinatorError>),
    /// The action was performed; whether it succeeded does not matter.
    Noted,
}

/// The name under which the outputs of the phase are stored.
pub const PHASE_NAME: &'static str = "planning";

/// What the driver does next.
#[derive(Debug, Eq, PartialEq)]
pub enum PlanningAction {
    /// Load the eligible issues.
    LoadSnapshot,
    /// Run the planner on these issues.
    RunPlanner { eligible: Vec<SourceIssueSnapshot> },
    /// Store a failed planning output, as far as possible.
    RecordFailure { record: PhaseRecord },
    /// Finish the Plan Run, as far as possible, and publish it where it was
    /// stored.
    CloseFailed { terminal: PlanRunTerminal },
    /// Store the planning output, then publish it.
    RecordOutput { record: PhaseRecord },
    /// Store the terminal state of the Plan Run, then publish it.
    FinishPlanRun { terminal: PlanRunTerminal },
    /// Load the execution configuration.
    LoadConfig,
    /// Create the assignment of a claim.
    CreateAssignment { claim: usize },
    /// Provision the worktree of a claim.
    ProvisionWorktree { claim: usize },
    /// Store the worktree of a claim.
    SetWorktree { claim: usize, path: String },
    /// Write a status of the claim's issue back to the Issue Source. After a
    /// success, publish the created assignment.
    WriteLifecycle { claim: usize, status: LifecycleStatus },
    /// Release the assignment of a claim, as far as possible.
    ReleaseAssignment { claim: usize },
    /// Implement and review the claimed assignments in parallel.
    RunTranche { config: ProjectExecutionConfigResponse },
    /// The machine is done: the Plan Run is finished, or failed.
    Finish { result: Result<(), CoordinatorError> },
    /// The machine is done: the merges follow.
    Merge,
}

/// The first action.
pub fn start() -> (first: (PlanningStage, PlanningAction))
    ensures
        first.0 is LoadingEligible,
        first.1 is LoadSnapshot,
{
    (PlanningStage::LoadingEligible, PlanningAction::LoadSnapshot)
}

/// The machine waits for this kind of result in this stage.
pub open spec fn awaits(stage: PlanningStage, event: PlanningEvent) -> bool {
    match stage {
        PlanningStage::LoadingEligible | PlanningStage::LoadingSnapshot { .. } => event
            is Snapshot,
        PlanningStage::Planning => event is Ran,
        PlanningStage::RecordingFailure { .. }
        | PlanningStage::Closing { .. }
        | PlanningStage::Releasing { .. } => event is Noted,
        PlanningStage::RecordingEmpty
        | PlanningStage::FinishingEmpty
        | PlanningStage::Creating { .. }
        | PlanningStage::Placing { .. }
        | PlanningStage::RecordingPlan { .. } => event is Stored,
        PlanningStage::LoadingConfig { .. } => event is Config,
        PlanningStage::Provisioning { .. } => event is Provisioned,
        PlanningStage::Claiming { .. } => event is Written,
        PlanningStage::RunningTranche => event is TrancheEnded,
        PlanningStage::Finished => false,
    }
}

/// Whether the machine waits for this kind of result in this stage.
pub fn is_awaited(stage: &PlanningStage, event: &PlanningEvent) -> (yes: bool)
    ensures
        yes == awaits(*stage, *event),
{
    match stage {
        PlanningStage::LoadingEligible | PlanningStage::LoadingSnapshot { .. } => matches!(
            event,
            PlanningEvent::Snapshot(_)
        ),
        PlanningStage::Planning => matches!(event, PlanningEvent::Ran(_)),
        PlanningStage::RecordingFailure { .. }
        | PlanningStage::Closing { .. }
        | PlanningStage::Releasing { .. } => matches!(event, PlanningEvent::Noted),
        PlanningStage::RecordingEmpty
        | PlanningStage::FinishingEmpty
        | PlanningStage::Creating { .. }
        | PlanningStage::Placing { .. }
        | PlanningStage::RecordingPlan { .. } => matches!(event, PlanningEvent::Stored(_)),
        PlanningStage::LoadingConfig { .. } => matches!(event, PlanningEvent::Config(_)),
        PlanningStage::Provisioning { .. } => matches!(event, PlanningEvent::Provisioned(_)),
        PlanningStage::Claiming { .. } => matches!(event, PlanningEvent::Written(_)),
        PlanningStage::RunningTranche => matches!(event, PlanningEvent::TrancheEnded(_)),
        PlanningStage::Finished => false,
    }
}

/// The claims in hand are within the batch.
pub open spec fn stage_well_formed(stage: PlanningStage) -> bool {
    match stage {
        PlanningStage::Creating { plan, at }
        | PlanningStage::Provisioning { plan, at }
        | PlanningStage::Placing { plan, at }
        | PlanningStage::Claiming { plan, at } => at < plan.claims.len(),
        _ => true,
    }
}

/// The Planning Phase fails: a failed output is stored, the Plan Run is closed
/// as failed, and the run ends with status 500 and this problem type.
pub open spec fn fails_planning(
    after: PlanningStage,
    action: PlanningAction,
    error: Seq<char>,
    problem_type: Seq<char>,
) -> bool {
    &&& after matches PlanningStage::RecordingFailure { error: kept }
    &&& kept.is(500, problem_type, error)
    &&& action matches PlanningAction::RecordFailure { record }
    &&& record.is_failure(PHASE_NAME@, error)
}

/// The assignment of a claim is released before the Planning Phase fails.
pub open spec fn fails_claim(
    after: PlanningStage,
    action: PlanningAction,
    claim: usize,
    error: Seq<char>,
    problem_type: Seq<char>,
) -> bool {
    &&& after matches PlanningStage::Releasing { error: kept }
    &&& kept.is(500, problem_type, error)
    &&& action == (PlanningAction::ReleaseAssignment { claim })
}

/// The run ends with the report of a failed database operation.
pub open spec fn ends_with_persistence(
    after: PlanningStage,
    action: PlanningAction,
    error: PersistenceError,
) -> bool {
    &&& after is Finished
    &&& action matches PlanningAction::Finish { result: Err(reported) }
    &&& reported.is(error.kind.status(), error.kind.problem_type(), error.message@)
}

/// The claims from `at` on are provisioned; then the plan is stored.
pub open spec fn claims_from(
    plan: ClaimPlan,
    at: int,
    after: PlanningStage,
    action: PlanningAction,
) -> bool {
    if at < plan.claims@.len() {
        &&& after == (PlanningStage::Creating { plan, at: at as usize })
        &&& action == (PlanningAction::CreateAssignment { claim: at as usize })
    } else {
        &&& after == PlanningStage::RecordingPlan { config: plan.config }
        &&& action matches PlanningAction::RecordOutput { record }
        &&& record.phase@ == PHASE_NAME@
        &&& record.outcome@ == "succeeded"@
        &&& record.body == plan.body
    }
}

/// What follows the printed output of the planner: an unreadable output fails,
/// an empty plan is stored as such, and a selection goes on to its validation.
pub open spec fn after_planner(
    stdout: Seq<char>,
    after: PlanningStage,
    action: PlanningAction,
) -> bool {
    match planning_output(stdout) {
        Err(message) => fails_planning(
            after,
            action,
            message,
            "urn:agentic-afk:planning-output-unparseable"@,
        ),
        Ok((text, value)) => if array_field(value, "issues"@) matches Some(issues) && issues.len()
            == 0 {
            &&& after is RecordingEmpty
            &&& action matches PlanningAction::RecordOutput { record }
            &&& record.phase@ == PHASE_NAME@
            &&& record.outcome@ == "succeeded_empty"@
            &&& record.body.text@ == text
            &&& record.body.value@ == value
        } else {
            &&& after matches PlanningStage::LoadingSnapshot { parsed }
            &&& parsed.body.text@ == text
            &&& parsed.body.value@ == value
            &&& action is LoadSnapshot
        },
    }
}

/// What follows the validation of a selection: a rejection fails the Planning
/// Phase, and valid claims are provisioned in the planner's order.
pub open spec fn after_validation(
    has_issue_source: bool,
    parsed: ParsedPlanningOutput,
    eligible: Seq<SourceIssueSnapshot>,
    config: ProjectExecutionConfigResponse,
    after: PlanningStage,
    action: PlanningAction,
) -> bool {
    exists|decision: Result<Vec<PlannedClaim>, PlanningRejection>|
        {
            &&& #[trigger] is_planner_decision(
                decision,
                selections_of(parsed),
                eligible,
                config.max_parallel_tasks,
                has_issue_source,
            )
            &&& match decision {
                Err(rejection) => fails_planning(
                    after,
                    action,
                    rejection.detail(),
                    rejection.problem_type(),
                ),
                Ok(claims) => claims_from(
                    ClaimPlan { body: parsed.body, config, claims },
                    0,
                    after,
                    action,
                ),
            }
        }
}

/// One step of the machine: from `before`, the result `event` leads to `after`
/// and calls for `action`.
pub open spec fn is_step(
    has_issue_source: bool,
    before: PlanningStage,
    event: PlanningEvent,
    after: PlanningStage,
    action: PlanningAction,
) -> bool {
    match (before, event) {
        (PlanningStage::LoadingEligible, PlanningEvent::Snapshot(Ok(eligible))) => {
            &&& after is Planning
            &&& action == PlanningAction::RunPlanner { eligible }
        },
        (PlanningStage::LoadingEligible, PlanningEvent::Snapshot(Err(_))) => {
            &&& after is Planning
            &&& action matches PlanningAction::RunPlanner { eligible }
            &&& eligible@.len() == 0
        },
        (PlanningStage::Planning, PlanningEvent::Ran(Ok(stdout))) => after_planner(
            stdout@,
            after,
            action,
        ),
        (PlanningStage::Planning, PlanningEvent::Ran(Err(error))) => fails_planning(
            after,
            action,
            error.text(),
            "urn:agentic-afk:planning-phase-failed"@,
        ),
        (PlanningStage::RecordingFailure { error }, PlanningEvent::Noted) => {
            &&& after == PlanningStage::Closing { error }
            &&& action == (PlanningAction::CloseFailed { terminal: PlanRunTerminal::Failed })
        },
        (PlanningStage::Closing { error }, PlanningEvent::Noted) => {
            &&& after is Finished
            &&& action == PlanningAction::Finish { result: Err(error) }
        },
        (PlanningStage::RecordingEmpty, PlanningEvent::Stored(Ok(_))) => {
            &&& after is FinishingEmpty
            &&& action == (PlanningAction::FinishPlanRun {
                terminal: PlanRunTerminal::SucceededEmpty,
            })
        },
        (PlanningStage::FinishingEmpty, PlanningEvent::Stored(Ok(_))) => {
            &&& after is Finished
            &&& action == PlanningAction::Finish { result: Ok(()) }
        },
        (PlanningStage::LoadingSnapshot { parsed }, PlanningEvent::Snapshot(Ok(eligible))) => {
            &&& after == PlanningStage::LoadingConfig { parsed, eligible }
            &&& action is LoadConfig
        },
        (PlanningStage::LoadingSnapshot { .. }, PlanningEvent::Snapshot(Err(error))) =>
            fails_planning(
            after,
            action,
            error.message@,
            "urn:agentic-afk:planning-snapshot-missing"@,
        ),
        (
            PlanningStage::LoadingConfig { parsed, eligible },
            PlanningEvent::Config(Ok(Some(config))),
        ) => after_validation(has_issue_source, parsed, eligible@, config, after, action),
        (PlanningStage::LoadingConfig { .. }, PlanningEvent::Config(Ok(None))) => fails_planning(
            after,
            action,
            "Project Execution Config disappeared during Planning Phase"@,
            "urn:agentic-afk:execution-config-missing"@,
        ),
        (PlanningStage::LoadingConfig { .. }, PlanningEvent::Config(Err(error))) =>
            ends_with_persistence(after, action, error),
        (PlanningStage::Creating { plan, at }, PlanningEvent::Stored(Ok(_))) => {
            &&& after == PlanningStage::Provisioning { plan, at }
            &&& action == (PlanningAction::ProvisionWorktree { claim: at })
        },
        (PlanningStage::Provisioning { plan, at }, PlanningEvent::Provisioned(Ok(path))) => {
            &&& after == PlanningStage::Placing { plan, at }
            &&& action == PlanningAction::SetWorktree { claim: at, path }
        },
        (PlanningStage::Provisioning { at, .. }, PlanningEvent::Provisioned(Err(error))) =>
            fails_claim(
            after,
            action,
            at,
            error.text(),
            "urn:agentic-afk:assignment-worktree-failed"@,
        ),
        (PlanningStage::Placing { plan, at }, PlanningEvent::Stored(Ok(_))) => {
            &&& after == PlanningStage::Claiming { plan, at }
            &&& action == (PlanningAction::WriteLifecycle {
                claim: at,
                status: LifecycleStatus::Claimed,
            })
        },
        (PlanningStage::Claiming { plan, at }, PlanningEvent::Written(Ok(_))) => claims_from(
            plan,
            at + 1,
            after,
            action,
        ),
        (PlanningStage::Claiming { at, .. }, PlanningEvent::Written(Err(error))) => fails_claim(
            after,
            action,
            at,
            error.text(),
            "urn:agentic-afk:issue-source-lifecycle-failed"@,
        ),
        (PlanningStage::Releasing { error }, PlanningEvent::Noted) => {
            &&& after == PlanningStage::RecordingFailure { error }
            &&& action matches PlanningAction::RecordFailure { record }
            &&& record.is_failure(PHASE_NAME@, error.detail@)
        },
        (PlanningStage::RecordingPlan { config }, PlanningEvent::Stored(Ok(_))) => {
            &&& after is RunningTranche
            &&& action == PlanningAction::RunTranche { config }
        },
        (PlanningStage::RunningTranche, PlanningEvent::TrancheEnded(Ok(_))) => {
            &&& after is Finished
            &&& action is Merge
        },
        (PlanningStage::RunningTranche, PlanningEvent::TrancheEnded(Err(error))) => {
            &&& after == PlanningStage::Closing { error }
            &&& action == (PlanningAction::CloseFailed { terminal: PlanRunTerminal::Failed })
        },
        (_, PlanningEvent::Stored(Err(error))) => ends_with_persistence(after, action, error),
        _ => false,
    }
}

fn fail_planning(error: String, problem_type: &str) -> (next: (PlanningStage, PlanningAction))
    ensures
        fails_planning(next.0, next.1, error@, problem_type@),
{
    let record = PhaseRecord::failure(PHASE_NAME, error.as_str());
    let kept = CoordinatorError::new(500, problem_type, error);
    (PlanningStage::RecordingFailure { error: kept }, PlanningAction::RecordFailure { record })
}

fn fail_claim(claim: usize, error: String, problem_type: &str) -> (next: (
    PlanningStage,
    PlanningAction,
))
    ensures
        fails_claim(next.0, next.1, claim, error@, problem_type@),
{
    let kept = CoordinatorError::new(500, problem_type, error);
    (PlanningStage::Releasing { error: kept }, PlanningAction::ReleaseAssignment { claim })
}

fn end_with_persistence(error: PersistenceError) -> (next: (PlanningStage, PlanningAction))
    ensures
        ends_with_persistence(next.0, next.1, error),
{
    let reported = CoordinatorError::from_persistence(error);
    (PlanningStage::Finished, PlanningAction::Finish { result: Err(reported) })
}

fn succeeded(outcome: &str, body: JsonDocument) -> (record: PhaseRecord)
    ensures
        record.phase@ == PHASE_NAME@,
        record.outcome@ == outcome@,
        record.body == body,
{
    PhaseRecord { phase: PHASE_NAME, outcome: outcome.to_owned(), body }
}

fn claim_from(plan: ClaimPlan, at: usize) -> (next: (PlanningStage, PlanningAction))
    ensures
        claims_from(plan, at as int, next.0, next.1),
        stage_well_formed(next.0),
{
    if at < plan.claims.len() {
        (PlanningStage::Creating { plan, at }, PlanningAction::CreateAssignment { claim: at })
    } else {
        (
            PlanningStage::RecordingPlan { config: plan.config },
            PlanningAction::RecordOutput { record: succeeded("succeeded", plan.body) },
        )
    }
}

fn take_plan(stdout: String) -> (next: (PlanningStage, PlanningAction))
    ensures
        after_planner(stdout@, next.0, next.1),
        stage_well_formed(next.0),
{
    match parse_planning_output(stdout.as_str()) {
        Err(error) => fail_planning(error, "urn:agentic-afk:planning-output-unparseable"),
        Ok(parsed) => {
            if parsed.is_empty {
                (
                    PlanningStage::RecordingEmpty,
                    PlanningAction::RecordOutput {
                        record: succeeded("succeeded_empty", parsed.body),
                    },
                )
            } else {
                (PlanningStage::LoadingSnapshot { parsed }, PlanningAction::LoadSnapshot)
            }
        },
    }
}

fn take_validation(
    has_issue_source: bool,
    parsed: ParsedPlanningOutput,
    eligible: Vec<SourceIssueSnapshot>,
    config: ProjectExecutionConfigResponse,
) -> (next: (PlanningStage, PlanningAction))
    ensures
        after_validation(has_issue_source, parsed, eligible@, config, next.0, next.1),
        stage_well_formed(next.0),
{
    let decision = validate_planner_selection(
        &parsed,
        &eligible,
        config.max_parallel_tasks,
        has_issue_source,
    );
    match decision {
        Err(rejection) => {
            let error = CoordinatorError::from(rejection);
            fail_planning(error.detail, error.problem_type.as_str())
        },
        Ok(claims) => claim_from(ClaimPlan { body: parsed.body, config, claims }, 0),
    }
}

/// Take the result of the last action to the next one.
pub fn step(has_issue_source: bool, stage: PlanningStage, event: PlanningEvent) -> (next: (
    PlanningStage,
    PlanningAction,
))
    requires
        stage_well_formed(stage),
        awaits(stage, event),
    ensures
        is_step(has_issue_source, stage, event, next.0, next.1),
        stage_well_formed(next.0),
{
    if let PlanningEvent::Stored(Err(error)) = event {
        return end_with_persistence(error);
    }
    match (stage, event) {
        (PlanningStage::LoadingEligible, PlanningEvent::Snapshot(snapshot)) => {
            let eligible = match snapshot {
                Ok(eligible) => eligible,
                Err(_) => Vec::new(),
            };
            (PlanningStage::Planning, PlanningAction::RunPlanner { eligible })
        },
        (PlanningStage::Planning, PlanningEvent::Ran(Ok(stdout))) => take_plan(stdout),
        (PlanningStage::Planning, PlanningEvent::Ran(Err(error))) => fail_planning(
            error.message(),
            "urn:agentic-afk:planning-phase-failed",
        ),
        (PlanningStage::RecordingFailure { error }, _) => (
            PlanningStage::Closing { error },
            PlanningAction::CloseFailed { terminal: PlanRunTerminal::Failed },
        ),
        (PlanningStage::Closing { error }, _) => (
            PlanningStage::Finished,
            PlanningAction::Finish { result: Err(error) },
        ),
        (PlanningStage::RecordingEmpty, _) => (
            PlanningStage::FinishingEmpty,
            PlanningAction::FinishPlanRun { terminal: PlanRunTerminal::SucceededEmpty },
        ),
        (PlanningStage::FinishingEmpty, _) => (
            PlanningStage::Finished,
            PlanningAction::Finish { result: Ok(()) },
        ),
        (PlanningStage::LoadingSnapshot { parsed }, PlanningEvent::Snapshot(Ok(eligible))) => (
            PlanningStage::LoadingConfig { parsed, eligible },
            PlanningAction::LoadConfig,
        ),
        (PlanningStage::LoadingSnapshot { .. }, PlanningEvent::Snapshot(Err(error))) =>
            fail_planning(error.message, "urn:agentic-afk:planning-snapshot-missing"),
        (
            PlanningStage::LoadingConfig { parsed, eligible },
            PlanningEvent::Config(Ok(Some(config))),
        ) => take_validation(has_issue_source, parsed, eligible, config),
        (PlanningStage::LoadingConfig { .. }, PlanningEvent::Config(Ok(None))) => fail_planning(
            "Project Execution Config disappeared during Planning Phase".to_owned(),
            "urn:agentic-afk:execution-config-missing",
        ),
        (PlanningStage::LoadingConfig { .. }, PlanningEvent::Config(Err(error))) =>
            end_with_persistence(error),
        (PlanningStage::Creating { plan, at }, _) => (
            PlanningStage::Provisioning { plan, at },
            PlanningAction::ProvisionWorktree { claim: at },
        ),
        (PlanningStage::Provisioning { plan, at }, PlanningEvent::Provisioned(Ok(path))) => (
            PlanningStage::Placing { plan, at },
            PlanningAction::SetWorktree { claim: at, path },
        ),
        (PlanningStage::Provisioning { at, .. }, PlanningEvent::Provisioned(Err(error))) =>
            fail_claim(at, error.message(), "urn:agentic-afk:assignment-worktree-failed"),
        (PlanningStage::Placing { plan, at }, _) => (
            PlanningStage::Claiming { plan, at },
            PlanningAction::WriteLifecycle { claim: at, status: LifecycleStatus::Claimed },
        ),
        (PlanningStage::Claiming { plan, at }, PlanningEvent::Written(Ok(()))) => claim_from(
            plan,
            at + 1,
        ),
        (PlanningStage::Claiming { at, .. }, PlanningEvent::Written(Err(error))) => fail_claim(
            at,
            error.message(),
            "urn:agentic-afk:issue-source-lifecycle-failed",
        ),
        (PlanningStage::Releasing { error }, _) => {
            let record = PhaseRecord::failure(PHASE_NAME, error.detail.as_str());
            (PlanningStage::RecordingFailure { error }, PlanningAction::RecordFailure { record })
        },
        (PlanningStage::RecordingPlan { config }, _) => (
            PlanningStage::RunningTranche,
            PlanningAction::RunTranche { config },
        ),
        (PlanningStage::RunningTranche, PlanningEvent::TrancheEnded(Err(error))) => (
            PlanningStage::Closing { error },
            PlanningAction::CloseFailed { terminal: PlanRunTerminal::Failed },
        ),
        _ => (PlanningStage::Finished, PlanningAction::Merge),
    }
}

// --- Laws ---

/// Work is claimed only for a selection that the validation accepted: it fits
/// the Project's Max Parallel Tasks, and each claim targets an eligible issue.
pub proof fn law_claims_are_valid(
    has_issue_source: bool,
    parsed: ParsedPlanningOutput,
    eligible: Vec<SourceIssueSnapshot>,
    config: ProjectExecutionConfigResponse,
    after: PlanningStage,
    action: PlanningAction,
)
    requires
        is_step(
            has_issue_source,
            PlanningStage::LoadingConfig { parsed, eligible },
            PlanningEvent::Config(Ok(Some(config))),
            after,
            action,
        ),
        action is CreateAssignment,
    ensures
        has_issue_source,
        after matches PlanningStage::Creating { plan, .. } && {
            &&& plan.claims@.len() <= crate::planning_phase::parallel_cap(config.max_parallel_tasks)
            &&& forall|i: int|
                0 <= i < plan.claims@.len() ==> crate::planning_phase::last_with_id(
                    eligible@,
                    (#[trigger] plan.claims@[i]).selection@.source_issue_id,
                ) is Some
        },
{
    let decision = choose|decision: Result<Vec<PlannedClaim>, PlanningRejection>|
        {
            &&& #[trigger] is_planner_decision(
                decision,
                selections_of(parsed),
                eligible@,
                config.max_parallel_tasks,
                has_issue_source,
            )
            &&& match decision {
                Err(rejection) => fails_planning(
                    after,
                    action,
                    rejection.detail(),
                    rejection.problem_type(),
                ),
                Ok(claims) => claims_from(
                    ClaimPlan { body: parsed.body, config, claims },
                    0,
                    after,
                    action,
                ),
            }
        };
    let claims = decision->Ok_0;
    assert forall|i: int| 0 <= i < claims@.len() implies crate::planning_phase::last_with_id(
        eligible@,
        (#[trigger] claims@[i]).selection@.source_issue_id,
    ) is Some by {
        let selections = selections_of(parsed)->Ok_0;
        assert(crate::planning_phase::claim_pairs(claims@[i], selections[i], eligible@));
    }
}

/// A claim whose worktree or write-back fails is released before the Planning
/// Phase reports the failure.
pub proof fn law_failed_claim_is_released(
    has_issue_source: bool,
    before: PlanningStage,
    event: PlanningEvent,
    after: PlanningStage,
    action: PlanningAction,
)
    requires
        is_step(has_issue_source, before, event, after, action),
        event matches PlanningEvent::Provisioned(Err(_)) || event matches PlanningEvent::Written(
            Err(_),
        ),
    ensures
        after is Releasing,
        action is ReleaseAssignment,
{
}

/// Implementation starts only after every claim has been written back and the
/// plan has been stored.
pub proof fn law_tranche_follows_stored_plan(
    has_issue_source: bool,
    before: PlanningStage,
    event: PlanningEvent,
    after: PlanningStage,
    action: PlanningAction,
)
    requires
        is_step(has_issue_source, before, event, after, action),
        action is RunTranche,
    ensures
        before is RecordingPlan,
        event matches PlanningEvent::Stored(Ok(_)),
{
}

/// A run of the machine from its start: the stages that it went through, the result
/// that ended each stage but the last, and the action that each stage began with.
pub open spec fn is_run(
    has_issue_source: bool,
    stages: Seq<PlanningStage>,
    events: Seq<PlanningEvent>,
    actions: Seq<PlanningAction>,
) -> bool {
    &&& stages.len() == events.len() + 1
    &&& actions.len() == events.len() + 1
    &&& stages[0] is LoadingEligible
    &&& actions[0] is LoadSnapshot
    &&& forall|k: int|
        0 <= k < events.len() ==> is_step(
            has_issue_source,
            stages[k],
            #[trigger] events[k],
            stages[k + 1],
            actions[k + 1],
        )
}

/// A run that fails in planning, or whose parallel work fails hard, closes the Plan
/// Run as failed before it reports the error. Only a database that fails is reported
/// at once.
pub proof fn law_failure_closes_run(
    has_issue_source: bool,
    stages: Seq<PlanningStage>,
    events: Seq<PlanningEvent>,
    actions: Seq<PlanningAction>,
    error: CoordinatorError,
)
    requires
        is_run(has_issue_source, stages, events, actions),
        actions.last() == (PlanningAction::Finish { result: Err(error) }),
    ensures
        events.len() > 0,
        actions[events.len() - 1] is CloseFailed || (events.last() matches PlanningEvent::Stored(
            Err(_),
        )) || (events.last() matches PlanningEvent::Config(Err(_))),
{
    let n = events.len() as int;
    assert(n > 0);
    assert(is_step(has_issue_source, stages[n - 1], events[n - 1], stages[n], actions[n]));
    if stages[n - 1] is Closing {
        assert(n > 1);
        assert(is_step(has_issue_source, stages[n - 2], events[n - 2], stages[n - 1], actions[n - 1]));
    }
}

/// How far a stage is from the end: first the part of the run, then the steps that
/// are left in it.
pub open spec fn distance(stage: PlanningStage) -> (nat, nat) {
    match stage {
        PlanningStage::LoadingEligible => (5, 1),
        PlanningStage::Planning => (5, 0),
        PlanningStage::LoadingSnapshot { .. } => (4, 1),
        PlanningStage::LoadingConfig { .. } => (4, 0),
        PlanningStage::Creating { plan, at } => (3, (4 * (plan.claims@.len() - at) + 3) as nat),
        PlanningStage::Provisioning { plan, at } => (3, (4 * (plan.claims@.len() - at) + 2) as nat),
        PlanningStage::Placing { plan, at } => (3, (4 * (plan.claims@.len() - at) + 1) as nat),
        PlanningStage::Claiming { plan, at } => (3, (4 * (plan.claims@.len() - at)) as nat),
        PlanningStage::RecordingPlan { .. } => (2, 1),
        PlanningStage::RunningTranche => (2, 0),
        PlanningStage::Releasing { .. } => (1, 2),
        PlanningStage::RecordingFailure { .. } => (1, 1),
        PlanningStage::Closing { .. } => (1, 0),
        PlanningStage::RecordingEmpty => (0, 2),
        PlanningStage::FinishingEmpty => (0, 1),
        PlanningStage::Finished => (0, 0),
    }
}

/// The machine comes to its end: each step brings it nearer.
pub proof fn law_planning_ends(
    has_issue_source: bool,
    before: PlanningStage,
    event: PlanningEvent,
    after: PlanningStage,
    action: PlanningAction,
)
    requires
        stage_well_formed(before),
        awaits(before, event),
        is_step(has_issue_source, before, event, after, action),
    ensures
        distance(after).0 < distance(before).0 || (distance(after).0 == distance(before).0
            && distance(after).1 < distance(before).1),
{
}

/// Claims are worked off one after the other, in the planner's order: a claim is
/// begun at the validation, where it is the first, or when the one before it has
/// been written back.
pub proof fn law_claims_in_order(
    has_issue_source: bool,
    before: PlanningStage,
    event: PlanningEvent,
    after: PlanningStage,
    action: PlanningAction,
    claim: usize,
)
    requires
        stage_well_formed(before),
        is_step(has_issue_source, before, event, after, action),
        action == (PlanningAction::CreateAssignment { claim }),
    ensures
        before is LoadingConfig && claim == 0 || (before matches PlanningStage::Claiming {
            plan,
            at,
        } && claim == at + 1 && (event matches PlanningEvent::Written(Ok(_)))
            && after == (PlanningStage::Creating { plan, at: claim })),
{
}

} // verus!
