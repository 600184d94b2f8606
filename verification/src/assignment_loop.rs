//! Implementation and review of one Issue Assignment.
//!
//! The Review Loop is a state machine. [`start`] gives its first action, and
//! [`step`] takes the result of the last action to the next one. Whoever drives
//! the machine performs the actions: it runs the agents, writes the database and
//! publishes the events.

use vstd::prelude::*;

use crate::contracts::{AssignmentStatusKind, BlockReason};
use crate::implementation_phase::check_implementation_outcome;
#[allow(unused_imports)]
use crate::implementation_phase::not_ready_detail;
use crate::json::JsonDocument;
#[allow(unused_imports)]
use crate::json::JsonModel;
use crate::plan_run::{
    parse_implementation_output, parse_review_output, LifecycleStatus, ParsedReviewOutput,
    PhaseRecord, PlanRunPhaseError,
};
#[allow(unused_imports)]
use crate::plan_run::outcome_output;
use crate::plan_run_status::AssignmentStatus;
use crate::problem::CoordinatorError;
use crate::review_loop::{decide_review_loop_step, ReviewLoopStep};
#[allow(unused_imports)]
use crate::review_loop::{exhausted_reason, findings_text};
use crate::text::{concat, same_text};

verus! {

/// What the loop depends on besides the results of its actions.
#[derive(Clone, Copy, Debug, Eq, PartialEq, Structural)]
pub struct LoopConfig {
    /// The Project's Review Retry Limit.
    pub review_retry_limit: i64,
    /// Whether the Project has an Issue Source to write back to.
    pub has_issue_source: bool,
}

/// A phase failure on its way out: it is recorded, the assignment is marked as
/// blocked, and the error ends the loop.
#[derive(Clone, Debug, Eq, PartialEq)]
pub struct PhaseFailure {
    pub error: CoordinatorError,
}

/// Where the loop stands: which result it waits for.
#[derive(Clone, Debug, Eq, PartialEq)]
pub enum LoopStage {
    /// The text of the Source Issue is being loaded.
    Loading,
    /// The assignment is being moved to `implementing`.
    EnteringImplementation { findings: String },
    /// The implementation agent is running.
    Implementing,
    /// The implementation output is being stored.
    RecordingImplementation { body: JsonDocument },
    /// The assignment is being moved to `implemented`.
    EnteringReview { body: JsonDocument },
    /// The review agent is running.
    Reviewing,
    /// The review output is being stored.
    RecordingReview { parsed: ParsedReviewOutput },
    /// The rejection is being counted.
    Counting { parsed: ParsedReviewOutput },
    /// The assignment is being moved to `reviewed`.
    Approving { review_body: JsonDocument },
    /// The assignment is being moved to `blocked`.
    Blocking,
    /// The block is being written back to the Issue Source.
    WritingBack,
    /// The failed write-back is being noted.
    NotingWriteback,
    /// The failed phase is being stored.
    RecordingFailure { failure: PhaseFailure },
    /// The assignment of a failed phase is being marked as blocked.
    MarkingBlocked { failure: PhaseFailure },
    Finished,
}

/// The result of an action.
#[derive(Debug, Eq, PartialEq)]
pub enum LoopEvent {
    /// The database took the action, or failed.
    Stored(Result<(), CoordinatorError>),
    /// An agent printed this, or failed.
    Ran(Result<String, PlanRunPhaseError>),
    /// How many rejections the assignment has now.
    Counted(Result<i64, CoordinatorError>),
    /// The Issue Source took the status, or failed.
    Written(Result<(), PlanRunPhaseError>),
    /// The action was performed; whether it succeeded does not matter.
    Noted,
}

/// What the driver does next.
#[derive(Debug, Eq, PartialEq)]
pub enum LoopAction {
    /// Load the text of the Source Issue.
    LoadSourceText,
    /// Store and publish a change of status.
    Transition { status: AssignmentStatus },
    /// Run the implementation agent with these review findings.
    RunImplementation { findings: String },
    /// Run the review agent on this implementation output.
    RunReview { impl_body: JsonDocument },
    /// Store the output of a phase, then publish it.
    RecordOutput { record: PhaseRecord },
    /// Count a rejection.
    IncrementRejection,
    /// Write a status back to the Issue Source.
    WriteLifecycle { status: LifecycleStatus },
    /// Add an entry to the Project Activity.
    RecordActivity { kind: &'static str, detail: String },
    /// Store a failed output of a phase, as far as possible.
    RecordFailure { record: PhaseRecord },
    /// Store this status of the assignment with this detail, as far as possible,
    /// and publish the change where it was stored.
    MarkBlocked { status: &'static str, error: String },
    /// The loop is over: with the body of the approving review, with nothing
    /// where the assignment is blocked, or with an error.
    Finish { result: Result<Option<JsonDocument>, CoordinatorError> },
}

/// The first action of the loop.
pub fn start() -> (first: (LoopStage, LoopAction))
    ensures
        first.0 is Loading,
        first.1 is LoadSourceText,
{
    (LoopStage::Loading, LoopAction::LoadSourceText)
}

/// The loop waits for this kind of result in this stage.
pub open spec fn awaits(stage: LoopStage, event: LoopEvent) -> bool {
    match stage {
        LoopStage::Loading => event is Stored,
        LoopStage::EnteringImplementation { .. } => event is Stored,
        LoopStage::Implementing => event is Ran,
        LoopStage::RecordingImplementation { .. } => event is Stored,
        LoopStage::EnteringReview { .. } => event is Stored,
        LoopStage::Reviewing => event is Ran,
        LoopStage::RecordingReview { .. } => event is Stored,
        LoopStage::Counting { .. } => event is Counted,
        LoopStage::Approving { .. } => event is Stored,
        LoopStage::Blocking => event is Stored,
        LoopStage::WritingBack => event is Written,
        LoopStage::NotingWriteback => event is Noted,
        LoopStage::RecordingFailure { .. } => event is Noted,
        LoopStage::MarkingBlocked { .. } => event is Noted,
        LoopStage::Finished => false,
    }
}

/// Whether the loop waits for this kind of result in this stage.
pub fn is_awaited(stage: &LoopStage, event: &LoopEvent) -> (yes: bool)
    ensures
        yes == awaits(*stage, *event),
{
    match stage {
        LoopStage::Implementing | LoopStage::Reviewing => matches!(event, LoopEvent::Ran(_)),
        LoopStage::Counting { .. } => matches!(event, LoopEvent::Counted(_)),
        LoopStage::WritingBack => matches!(event, LoopEvent::Written(_)),
        LoopStage::NotingWriteback | LoopStage::RecordingFailure { .. } | LoopStage::MarkingBlocked {
            ..
        } => matches!(event, LoopEvent::Noted),
        LoopStage::Finished => false,
        _ => matches!(event, LoopEvent::Stored(_)),
    }
}

/// The loop ends with this error.
pub open spec fn ends_with_error(
    after: LoopStage,
    action: LoopAction,
    error: CoordinatorError,
) -> bool {
    &&& after is Finished
    &&& action == LoopAction::Finish { result: Err(error) }
}

/// A phase failure starts on its way out: an output is recorded under `phase`,
/// and the loop will end with status 500 and this problem type.
pub open spec fn fails_phase(
    after: LoopStage,
    action: LoopAction,
    phase: Seq<char>,
    error: Seq<char>,
    problem_type: Seq<char>,
) -> bool {
    &&& after matches LoopStage::RecordingFailure { failure }
    &&& failure.error.is(500, problem_type, error)
    &&& action matches LoopAction::RecordFailure { record }
    &&& record.is_failure(phase, error)
}

/// What follows the printed output of an implementation pass.
pub open spec fn after_implementation(
    stdout: Seq<char>,
    after: LoopStage,
    action: LoopAction,
) -> bool {
    match outcome_output(stdout, "implementation"@, "impl"@) {
        Err(message) => fails_phase(
            after,
            action,
            "implementation"@,
            message,
            "urn:agentic-afk:implementation-output-unparseable"@,
        ),
        Ok((outcome, text, value)) => if outcome != "ready_for_review"@ {
            fails_phase(
                after,
                action,
                "implementation"@,
                not_ready_detail(outcome),
                "urn:agentic-afk:implementation-not-ready"@,
            )
        } else {
            &&& after matches LoopStage::RecordingImplementation { body }
            &&& body.text@ == text
            &&& body.value@ == value
            &&& records_output(action, "implementation"@, outcome, text, value)
        },
    }
}

/// The action stores this output of a phase.
pub open spec fn records_output(
    action: LoopAction,
    phase: Seq<char>,
    outcome: Seq<char>,
    text: Seq<char>,
    value: JsonModel,
) -> bool {
    &&& action matches LoopAction::RecordOutput { record }
    &&& record.phase@ == phase
    &&& record.outcome@ == outcome
    &&& record.body.text@ == text
    &&& record.body.value@ == value
}

/// What follows the printed output of a review pass.
pub open spec fn after_review(stdout: Seq<char>, after: LoopStage, action: LoopAction) -> bool {
    match outcome_output(stdout, "review"@, "review"@) {
        Err(message) => fails_phase(
            after,
            action,
            "review"@,
            message,
            "urn:agentic-afk:review-output-unparseable"@,
        ),
        Ok((outcome, text, value)) => {
            &&& after matches LoopStage::RecordingReview { parsed }
            &&& parsed.outcome@ == outcome
            &&& parsed.body.text@ == text
            &&& parsed.body.value@ == value
            &&& records_output(action, "review"@, outcome, text, value)
        },
    }
}

/// What follows a review that did not approve, with this count of rejections:
/// the loop starts again below the limit, and blocks at it.
pub open spec fn after_rejection(
    config: LoopConfig,
    parsed: ParsedReviewOutput,
    count: i64,
    after: LoopStage,
    action: LoopAction,
) -> bool {
    if count >= config.review_retry_limit {
        &&& after is Blocking
        &&& action matches LoopAction::Transition {
            status: AssignmentStatus::Blocked { kind, detail },
        }
        &&& kind == BlockReason::ReviewRetryLimitExhausted
        &&& detail@ == exhausted_reason(count as int, config.review_retry_limit as int)
    } else {
        &&& after matches LoopStage::EnteringImplementation { findings }
        &&& findings@ == findings_text(parsed.body.value@)
        &&& action == (LoopAction::Transition { status: AssignmentStatus::Implementing })
    }
}

/// One step of the loop: from `before`, the result `event` leads to `after` and
/// calls for `action`.
pub open spec fn is_step(
    config: LoopConfig,
    before: LoopStage,
    event: LoopEvent,
    after: LoopStage,
    action: LoopAction,
) -> bool {
    match (before, event) {
        (LoopStage::Loading, LoopEvent::Stored(Ok(_))) => {
            &&& after matches LoopStage::EnteringImplementation { findings }
            &&& findings@.len() == 0
            &&& action == (LoopAction::Transition { status: AssignmentStatus::Implementing })
        },
        (LoopStage::EnteringImplementation { findings }, LoopEvent::Stored(Ok(_))) => {
            &&& after is Implementing
            &&& action == LoopAction::RunImplementation { findings }
        },
        (LoopStage::Implementing, LoopEvent::Ran(Ok(stdout))) => after_implementation(
            stdout@,
            after,
            action,
        ),
        (LoopStage::Implementing, LoopEvent::Ran(Err(error))) => fails_phase(
            after,
            action,
            "implementation"@,
            error.text(),
            "urn:agentic-afk:implementation-phase-failed"@,
        ),
        (LoopStage::RecordingImplementation { body }, LoopEvent::Stored(Ok(_))) => {
            &&& after == LoopStage::EnteringReview { body }
            &&& action == (LoopAction::Transition { status: AssignmentStatus::Implemented })
        },
        (LoopStage::EnteringReview { body }, LoopEvent::Stored(Ok(_))) => {
            &&& after is Reviewing
            &&& action == LoopAction::RunReview { impl_body: body }
        },
        (LoopStage::Reviewing, LoopEvent::Ran(Ok(stdout))) => after_review(stdout@, after, action),
        (LoopStage::Reviewing, LoopEvent::Ran(Err(error))) => fails_phase(
            after,
            action,
            "review"@,
            error.text(),
            "urn:agentic-afk:review-phase-failed"@,
        ),
        (LoopStage::RecordingReview { parsed }, LoopEvent::Stored(Ok(_))) => if parsed.outcome@
            == "approved"@ {
            &&& after matches LoopStage::Approving { review_body }
            &&& review_body.text@ == parsed.body.text@
            &&& review_body.value@ == parsed.body.value@
            &&& action == (LoopAction::Transition { status: AssignmentStatus::Reviewed })
        } else {
            &&& after == LoopStage::Counting { parsed }
            &&& action is IncrementRejection
        },
        (LoopStage::Counting { parsed }, LoopEvent::Counted(Ok(count))) => after_rejection(
            config,
            parsed,
            count,
            after,
            action,
        ),
        (LoopStage::Counting { .. }, LoopEvent::Counted(Err(error))) => ends_with_error(
            after,
            action,
            error,
        ),
        (LoopStage::Approving { review_body }, LoopEvent::Stored(Ok(_))) => {
            &&& after is Finished
            &&& action == LoopAction::Finish { result: Ok(Some(review_body)) }
        },
        (LoopStage::Blocking, LoopEvent::Stored(Ok(_))) => if config.has_issue_source {
            &&& after is WritingBack
            &&& action == (LoopAction::WriteLifecycle { status: LifecycleStatus::Blocked })
        } else {
            ends_blocked(after, action)
        },
        (LoopStage::WritingBack, LoopEvent::Written(Ok(_))) => ends_blocked(after, action),
        (LoopStage::WritingBack, LoopEvent::Written(Err(error))) => {
            &&& after is NotingWriteback
            &&& action matches LoopAction::RecordActivity { kind, detail }
            &&& kind@ == "lifecycle_writeback_failed"@
            &&& detail@ == "blocked Lifecycle Status write-back failed: "@ + error.text()
        },
        (LoopStage::NotingWriteback, LoopEvent::Noted) => ends_blocked(after, action),
        (LoopStage::RecordingFailure { failure }, LoopEvent::Noted) => {
            &&& after == LoopStage::MarkingBlocked { failure }
            &&& action matches LoopAction::MarkBlocked { status, error }
            &&& status@ == AssignmentStatusKind::Blocked.wire()
            &&& error@ == failure.error.detail@
        },
        (LoopStage::MarkingBlocked { failure }, LoopEvent::Noted) => ends_with_error(
            after,
            action,
            failure.error,
        ),
        (_, LoopEvent::Stored(Err(error))) => ends_with_error(after, action, error),
        _ => false,
    }
}

/// The loop ends with a blocked assignment.
pub open spec fn ends_blocked(after: LoopStage, action: LoopAction) -> bool {
    &&& after is Finished
    &&& action == LoopAction::Finish { result: Ok(None) }
}

fn fail_phase(phase: &'static str, error: String, problem_type: &str) -> (next: (
    LoopStage,
    LoopAction,
))
    ensures
        fails_phase(next.0, next.1, phase@, error@, problem_type@),
{
    let record = PhaseRecord::failure(phase, error.as_str());
    let failure = PhaseFailure { error: CoordinatorError::new(500, problem_type, error) };
    (LoopStage::RecordingFailure { failure }, LoopAction::RecordFailure { record })
}

fn take_implementation(stdout: String) -> (next: (LoopStage, LoopAction))
    ensures
        after_implementation(stdout@, next.0, next.1),
{
    match parse_implementation_output(stdout.as_str()) {
        Err(error) => fail_phase(
            "implementation",
            error,
            "urn:agentic-afk:implementation-output-unparseable",
        ),
        Ok(parsed) => match check_implementation_outcome(parsed.outcome.as_str()) {
            Err(rejection) => {
                let error = CoordinatorError::from(rejection);
                fail_phase("implementation", error.detail, error.problem_type.as_str())
            },
            Ok(()) => {
                let body = parsed.body.copied();
                (
                    LoopStage::RecordingImplementation { body },
                    LoopAction::RecordOutput {
                        record: PhaseRecord {
                            phase: "implementation",
                            outcome: parsed.outcome,
                            body: parsed.body,
                        },
                    },
                )
            },
        },
    }
}

fn take_review(stdout: String) -> (next: (LoopStage, LoopAction))
    ensures
        after_review(stdout@, next.0, next.1),
{
    match parse_review_output(stdout.as_str()) {
        Err(error) => fail_phase("review", error, "urn:agentic-afk:review-output-unparseable"),
        Ok(parsed) => {
            let outcome = parsed.outcome.clone();
            let body = parsed.body.copied();
            (
                LoopStage::RecordingReview { parsed },
                LoopAction::RecordOutput {
                    record: PhaseRecord { phase: "review", outcome, body },
                },
            )
        },
    }
}

fn take_rejection(config: LoopConfig, parsed: ParsedReviewOutput, count: i64) -> (next: (
    LoopStage,
    LoopAction,
))
    requires
        parsed.outcome@ != "approved"@,
    ensures
        after_rejection(config, parsed, count, next.0, next.1),
{
    match decide_review_loop_step(&parsed, count, config.review_retry_limit) {
        ReviewLoopStep::Retry { findings } => (
            LoopStage::EnteringImplementation { findings },
            LoopAction::Transition { status: AssignmentStatus::Implementing },
        ),
        ReviewLoopStep::Block { reason } => (
            LoopStage::Blocking,
            LoopAction::Transition {
                status: AssignmentStatus::Blocked {
                    kind: BlockReason::ReviewRetryLimitExhausted,
                    detail: reason,
                },
            },
        ),
        ReviewLoopStep::Approved { review_body } => (
            LoopStage::Approving { review_body },
            LoopAction::Transition { status: AssignmentStatus::Reviewed },
        ),
    }
}

/// The rejection that is being counted is a rejection.
pub open spec fn stage_well_formed(stage: LoopStage) -> bool {
    stage matches LoopStage::Counting { parsed } ==> parsed.outcome@ != "approved"@
}

/// Take the result of the last action to the next one.
pub fn step(config: LoopConfig, stage: LoopStage, event: LoopEvent) -> (next: (
    LoopStage,
    LoopAction,
))
    requires
        stage_well_formed(stage),
        awaits(stage, event),
    ensures
        is_step(config, stage, event, next.0, next.1),
        stage_well_formed(next.0),
{
    if let LoopEvent::Stored(Err(error)) = event {
        return (LoopStage::Finished, LoopAction::Finish { result: Err(error) });
    }
    match (stage, event) {
        (LoopStage::Loading, _) => (
            LoopStage::EnteringImplementation { findings: String::new() },
            LoopAction::Transition { status: AssignmentStatus::Implementing },
        ),
        (LoopStage::EnteringImplementation { findings }, _) => (
            LoopStage::Implementing,
            LoopAction::RunImplementation { findings },
        ),
        (LoopStage::Implementing, LoopEvent::Ran(Ok(stdout))) => take_implementation(stdout),
        (LoopStage::Implementing, LoopEvent::Ran(Err(error))) => fail_phase(
            "implementation",
            error.message(),
            "urn:agentic-afk:implementation-phase-failed",
        ),
        (LoopStage::RecordingImplementation { body }, _) => (
            LoopStage::EnteringReview { body },
            LoopAction::Transition { status: AssignmentStatus::Implemented },
        ),
        (LoopStage::EnteringReview { body }, _) => (
            LoopStage::Reviewing,
            LoopAction::RunReview { impl_body: body },
        ),
        (LoopStage::Reviewing, LoopEvent::Ran(Ok(stdout))) => take_review(stdout),
        (LoopStage::Reviewing, LoopEvent::Ran(Err(error))) => fail_phase(
            "review",
            error.message(),
            "urn:agentic-afk:review-phase-failed",
        ),
        (LoopStage::RecordingReview { parsed }, _) => {
            if same_text(parsed.outcome.as_str(), "approved") {
                (
                    LoopStage::Approving { review_body: parsed.body },
                    LoopAction::Transition { status: AssignmentStatus::Reviewed },
                )
            } else {
                (LoopStage::Counting { parsed }, LoopAction::IncrementRejection)
            }
        },
        (LoopStage::Counting { parsed }, LoopEvent::Counted(Ok(count))) => take_rejection(
            config,
            parsed,
            count,
        ),
        (LoopStage::Counting { .. }, LoopEvent::Counted(Err(error))) => (
            LoopStage::Finished,
            LoopAction::Finish { result: Err(error) },
        ),
        (LoopStage::Approving { review_body }, _) => (
            LoopStage::Finished,
            LoopAction::Finish { result: Ok(Some(review_body)) },
        ),
        (LoopStage::Blocking, _) => {
            if config.has_issue_source {
                (
                    LoopStage::WritingBack,
                    LoopAction::WriteLifecycle { status: LifecycleStatus::Blocked },
                )
            } else {
                (LoopStage::Finished, LoopAction::Finish { result: Ok(None) })
            }
        },
        (LoopStage::WritingBack, LoopEvent::Written(Err(error))) => (
            LoopStage::NotingWriteback,
            LoopAction::RecordActivity {
                kind: "lifecycle_writeback_failed",
                detail: concat(
                    "blocked Lifecycle Status write-back failed: ",
                    error.message().as_str(),
                ),
            },
        ),
        (LoopStage::RecordingFailure { failure }, _) => {
            let error = failure.error.detail.clone();
            let status = AssignmentStatusKind::Blocked.as_wire();
            (LoopStage::MarkingBlocked { failure }, LoopAction::MarkBlocked { status, error })
        },
        (LoopStage::MarkingBlocked { failure }, _) => (
            LoopStage::Finished,
            LoopAction::Finish { result: Err(failure.error) },
        ),
        _ => (LoopStage::Finished, LoopAction::Finish { result: Ok(None) }),
    }
}

// --- Laws ---

/// An assignment is moved to `reviewed` only when a stored review output says
/// `approved`, and then the loop ends with the body of that review.
pub proof fn law_reviewed_needs_approval(
    config: LoopConfig,
    before: LoopStage,
    event: LoopEvent,
    after: LoopStage,
    action: LoopAction,
)
    requires
        stage_well_formed(before),
        is_step(config, before, event, after, action),
        action == (LoopAction::Transition { status: AssignmentStatus::Reviewed }),
    ensures
        before matches LoopStage::RecordingReview { parsed } && parsed.outcome@ == "approved"@ && (
        after matches LoopStage::Approving { review_body } && review_body.value@
            == parsed.body.value@),
{
}

/// A failed write-back to the Issue Source never fails the loop: the
/// assignment stays blocked, and the loop ends without an error.
pub proof fn law_writeback_is_best_effort(
    config: LoopConfig,
    result: Result<(), PlanRunPhaseError>,
    after: LoopStage,
    action: LoopAction,
)
    requires
        is_step(config, LoopStage::WritingBack, LoopEvent::Written(result), after, action),
    ensures
        after is NotingWriteback || ends_blocked(after, action),
        !(action matches LoopAction::Finish { result: Err(_) }),
{
}

/// A run of the loop from its start: the stages that it went through, the result
/// that ended each stage but the last, and the action that each stage began with.
pub open spec fn is_run(
    config: LoopConfig,
    stages: Seq<LoopStage>,
    events: Seq<LoopEvent>,
    actions: Seq<LoopAction>,
) -> bool {
    &&& stages.len() == events.len() + 1
    &&& actions.len() == events.len() + 1
    &&& stages[0] is Loading
    &&& actions[0] is LoadSourceText
    &&& forall|k: int|
        0 <= k < events.len() ==> is_step(
            config,
            stages[k],
            #[trigger] events[k],
            stages[k + 1],
            actions[k + 1],
        )
}

/// How many implementation passes the actions start.
pub open spec fn passes(actions: Seq<LoopAction>) -> nat
    decreases actions.len(),
{
    if actions.len() == 0 {
        0
    } else if actions.last() is RunImplementation {
        passes(actions.drop_last()) + 1
    } else {
        passes(actions.drop_last())
    }
}

/// How many rejections were counted below the limit.
pub open spec fn retried(events: Seq<LoopEvent>, limit: i64) -> nat
    decreases events.len(),
{
    if events.len() == 0 {
        0
    } else {
        match events.last() {
            LoopEvent::Counted(Ok(count)) => if count < limit {
                retried(events.drop_last(), limit) + 1
            } else {
                retried(events.drop_last(), limit)
            },
            _ => retried(events.drop_last(), limit),
        }
    }
}

/// The last count of rejections; zero before the first.
pub open spec fn last_count(events: Seq<LoopEvent>) -> int
    decreases events.len(),
{
    if events.len() == 0 {
        0
    } else {
        match events.last() {
            LoopEvent::Counted(Ok(count)) => count as int,
            _ => last_count(events.drop_last()),
        }
    }
}

/// Each count of rejections is above the one before, and the first above zero.
pub open spec fn counts_rise(events: Seq<LoopEvent>) -> bool
    decreases events.len(),
{
    if events.len() == 0 {
        true
    } else {
        &&& counts_rise(events.drop_last())
        &&& events.last() matches LoopEvent::Counted(Ok(count)) ==> count > last_count(
            events.drop_last(),
        )
    }
}

proof fn lemma_retried(events: Seq<LoopEvent>, limit: i64)
    requires
        counts_rise(events),
    ensures
        0 <= retried(events, limit) <= last_count(events),
        limit >= 1 ==> retried(events, limit) <= limit - 1,
        limit < 1 ==> retried(events, limit) == 0,
    decreases events.len(),
{
    if events.len() > 0 {
        lemma_retried(events.drop_last(), limit);
    }
}

proof fn lemma_passes(
    config: LoopConfig,
    stages: Seq<LoopStage>,
    events: Seq<LoopEvent>,
    actions: Seq<LoopAction>,
)
    requires
        is_run(config, stages, events, actions),
    ensures
        passes(actions) <= retried(events, config.review_retry_limit) + 1,
        stages.last() is Loading ==> passes(actions) == 0 && retried(
            events,
            config.review_retry_limit,
        ) == 0,
        stages.last() is EnteringImplementation ==> passes(actions) == retried(
            events,
            config.review_retry_limit,
        ),
        stages.last() is Implementing || stages.last() is RecordingImplementation || stages.last()
            is EnteringReview || stages.last() is Reviewing || stages.last() is RecordingReview
            || stages.last() is Counting ==> passes(actions) == retried(
            events,
            config.review_retry_limit,
        ) + 1,
    decreases events.len(),
{
    let n = events.len() as int;
    if n == 0 {
        assert(actions.drop_last() =~= seq![]);
        assert(passes(actions.drop_last()) == 0);
    } else {
        let shorter = stages.drop_last();
        let earlier = events.drop_last();
        assert forall|k: int| 0 <= k < earlier.len() implies is_step(
            config,
            shorter[k],
            #[trigger] earlier[k],
            shorter[k + 1],
            actions.drop_last()[k + 1],
        ) by {
            assert(earlier[k] == events[k]);
        }
        lemma_passes(config, shorter, earlier, actions.drop_last());
        assert(events[n - 1] == events.last());
        assert(is_step(config, stages[n - 1], events.last(), stages[n], actions[n]));
        assert(shorter.last() == stages[n - 1]);
    }
}

/// A run ends with a review only where that review was stored, it approved, and the
/// assignment was moved to `reviewed` on it.
pub proof fn law_success_follows_reviewed(
    config: LoopConfig,
    stages: Seq<LoopStage>,
    events: Seq<LoopEvent>,
    actions: Seq<LoopAction>,
    body: JsonDocument,
)
    requires
        is_run(config, stages, events, actions),
        actions.last() == (LoopAction::Finish { result: Ok(Some(body)) }),
    ensures
        events.len() >= 2,
        events.last() matches LoopEvent::Stored(Ok(_)),
        actions[events.len() - 1] == (LoopAction::Transition { status: AssignmentStatus::Reviewed }),
        events[events.len() - 2] matches LoopEvent::Stored(Ok(_)),
        stages[events.len() - 2] matches LoopStage::RecordingReview { parsed } && parsed.outcome@
            == "approved"@ && body.value@ == parsed.body.value@ && body.text@ == parsed.body.text@,
{
    let n = events.len() as int;
    assert(n > 0);
    assert(is_step(config, stages[n - 1], events[n - 1], stages[n], actions[n]));
    assert(stages[n - 1] is Approving);
    assert(n > 1);
    assert(is_step(config, stages[n - 2], events[n - 2], stages[n - 1], actions[n - 1]));
}

/// The Review Loop is bounded. Where each rejection raises the stored count, no run
/// has more implementation passes than the Review Retry Limit allows; the first
/// pass is always allowed.
pub proof fn law_review_loop_is_bounded(
    config: LoopConfig,
    stages: Seq<LoopStage>,
    events: Seq<LoopEvent>,
    actions: Seq<LoopAction>,
)
    requires
        is_run(config, stages, events, actions),
        counts_rise(events),
    ensures
        passes(actions) <= 1 || passes(actions) <= config.review_retry_limit,
{
    lemma_passes(config, stages, events, actions);
    lemma_retried(events, config.review_retry_limit);
}

} // verus!
