//! What holds of every run of the Review Loop, said of what it asks for and of what
//! it is told.

use vstd::prelude::*;

#[allow(unused_imports)]
use crate::assignment_loop::{is_run, is_step, LoopAction, LoopConfig, LoopEvent, LoopStage};
#[allow(unused_imports)]
use crate::contracts::BlockReason;
#[allow(unused_imports)]
use crate::json::{JsonDocument, JsonModel};
#[allow(unused_imports)]
use crate::plan_run::{outcome_output, LifecycleStatus};
#[allow(unused_imports)]
use crate::plan_run_status::AssignmentStatus;
#[allow(unused_imports)]
use crate::review_loop::{exhausted_reason, findings_text};

verus! {

/// The database took the action at `k`.
pub open spec fn stored(events: Seq<LoopEvent>, k: int) -> bool {
    0 <= k < events.len() && (events[k] matches LoopEvent::Stored(Ok(_)))
}

/// The action moves the assignment to the status.
pub open spec fn moves_to(action: LoopAction, status: AssignmentStatus) -> bool {
    action == (LoopAction::Transition { status })
}

/// The action stores an output of the phase.
pub open spec fn stores_output_of(action: LoopAction, phase: Seq<char>) -> bool {
    action matches LoopAction::RecordOutput { record } && record.phase@ == phase
}

/// The action stores that the phase failed with the error.
pub open spec fn stores_failure(action: LoopAction, phase: Seq<char>, error: Seq<char>) -> bool {
    &&& action matches LoopAction::RecordFailure { record }
    &&& record.phase@ == phase
    &&& record.outcome@ == "failed"@
    &&& record.body.value@ == JsonModel::Object(seq![("error"@, JsonModel::Text(error))])
}

spec fn same_body(a: JsonDocument, b: JsonDocument) -> bool {
    a.text@ == b.text@ && a.value@ == b.value@
}

spec fn shows(stage: LoopStage, action: LoopAction) -> bool {
    match stage {
        LoopStage::Loading => action is LoadSourceText,
        LoopStage::EnteringImplementation { findings } => moves_to(
            action,
            AssignmentStatus::Implementing,
        ),
        LoopStage::Implementing => action is RunImplementation,
        LoopStage::RecordingImplementation { body } => action matches LoopAction::RecordOutput {
            record,
        } && record.phase@ == "implementation"@ && record.outcome@ == "ready_for_review"@
            && same_body(record.body, body),
        LoopStage::EnteringReview { body } => moves_to(action, AssignmentStatus::Implemented),
        LoopStage::Reviewing => action is RunReview,
        LoopStage::RecordingReview { parsed } => action matches LoopAction::RecordOutput { record }
            && record.phase@ == "review"@ && record.outcome@ == parsed.outcome@ && same_body(
            record.body,
            parsed.body,
        ),
        LoopStage::Counting { parsed } => action is IncrementRejection,
        LoopStage::Approving { review_body } => moves_to(action, AssignmentStatus::Reviewed),
        LoopStage::Blocking => action matches LoopAction::Transition {
            status: AssignmentStatus::Blocked { .. },
        },
        LoopStage::WritingBack => action == (LoopAction::WriteLifecycle {
            status: LifecycleStatus::Blocked,
        }),
        LoopStage::NotingWriteback => action is RecordActivity,
        LoopStage::RecordingFailure { failure } => action matches LoopAction::RecordFailure { record }
            && stores_failure(action, record.phase@, failure.error.detail@),
        LoopStage::MarkingBlocked { failure } => action matches LoopAction::MarkBlocked {
            status,
            error,
        } && status@ == "blocked"@ && error@ == failure.error.detail@,
        LoopStage::Finished => action is Finish,
    }
}

proof fn lemma_shows(
    config: LoopConfig,
    stages: Seq<LoopStage>,
    events: Seq<LoopEvent>,
    actions: Seq<LoopAction>,
    k: int,
)
    requires
        is_run(config, stages, events, actions),
        0 <= k < stages.len(),
    ensures
        shows(stages[k], actions[k]),
        stages[k] is Loading <==> k == 0,
{
    if k > 0 {
        assert(is_step(config, stages[k - 1], events[k - 1], stages[k], actions[k]));
    }
}

proof fn lemma_phases_differ()
    ensures
        "implementation"@ != "review"@,
{
    reveal_strlit("implementation");
    reveal_strlit("review");
    assert("implementation"@.len() == 14 && "review"@.len() == 6);
}

/// Each implementation pass begins when the assignment was moved to `implementing`.
/// The first one is started with no findings. Each later one is started with the
/// findings in the stored body of the review that was just counted as a rejection.
pub proof fn law_findings_reach_the_next_pass(
    config: LoopConfig,
    stages: Seq<LoopStage>,
    events: Seq<LoopEvent>,
    actions: Seq<LoopAction>,
    k: int,
    findings: String,
)
    requires
        is_run(config, stages, events, actions),
        0 <= k < actions.len(),
        actions[k] == (LoopAction::RunImplementation { findings }),
    ensures
        k >= 2,
        moves_to(actions[k - 1], AssignmentStatus::Implementing),
        stored(events, k - 1),
        k == 2 ==> actions[0] is LoadSourceText && stored(events, 0) && findings@.len() == 0,
        k > 2 ==> {
            &&& k >= 5
            &&& actions[k - 2] is IncrementRejection
            &&& events[k - 2] matches LoopEvent::Counted(Ok(count)) && count
                < config.review_retry_limit
            &&& stored(events, k - 3)
            &&& actions[k - 3] matches LoopAction::RecordOutput { record } && record.phase@
                == "review"@ && record.outcome@ != "approved"@ && findings@ == findings_text(
                record.body.value@,
            )
        },
{
    lemma_phases_differ();
    lemma_shows(config, stages, events, actions, k);
    assert(k > 0);
    lemma_shows(config, stages, events, actions, k - 1);
    assert(is_step(config, stages[k - 1], events[k - 1], stages[k], actions[k]));
    assert(stages[k - 1] is EnteringImplementation);
    assert(k > 1);
    lemma_shows(config, stages, events, actions, k - 2);
    assert(is_step(config, stages[k - 2], events[k - 2], stages[k - 1], actions[k - 1]));
    if k > 2 {
        assert(stages[k - 2] is Counting);
        lemma_shows(config, stages, events, actions, k - 3);
        assert(is_step(config, stages[k - 3], events[k - 3], stages[k - 2], actions[k - 2]));
        assert(stages[k - 3] is RecordingReview);
        assert(k > 3);
        lemma_shows(config, stages, events, actions, k - 4);
        assert(is_step(config, stages[k - 4], events[k - 4], stages[k - 3], actions[k - 3]));
        assert(stages[k - 4] is Reviewing);
    }
}

/// The review agent runs on the implementation output that was just stored: the one
/// that the implementation agent printed, and that is ready for review.
pub proof fn law_review_sees_the_implementation(
    config: LoopConfig,
    stages: Seq<LoopStage>,
    events: Seq<LoopEvent>,
    actions: Seq<LoopAction>,
    k: int,
    impl_body: JsonDocument,
)
    requires
        is_run(config, stages, events, actions),
        0 <= k < actions.len(),
        actions[k] == (LoopAction::RunReview { impl_body }),
    ensures
        k >= 3,
        moves_to(actions[k - 1], AssignmentStatus::Implemented),
        stored(events, k - 1),
        stored(events, k - 2),
        actions[k - 2] matches LoopAction::RecordOutput { record } && record.phase@
            == "implementation"@ && record.outcome@ == "ready_for_review"@ && record.body.text@
            == impl_body.text@ && record.body.value@ == impl_body.value@,
        actions[k - 3] is RunImplementation,
        events[k - 3] matches LoopEvent::Ran(Ok(stdout)) && outcome_output(
            stdout@,
            "implementation"@,
            "impl"@,
        ) == Ok::<_, Seq<char>>(("ready_for_review"@, impl_body.text@, impl_body.value@)),
{
    lemma_phases_differ();
    lemma_shows(config, stages, events, actions, k);
    assert(k > 0);
    lemma_shows(config, stages, events, actions, k - 1);
    assert(is_step(config, stages[k - 1], events[k - 1], stages[k], actions[k]));
    assert(stages[k - 1] is EnteringReview);
    assert(k > 1);
    lemma_shows(config, stages, events, actions, k - 2);
    assert(is_step(config, stages[k - 2], events[k - 2], stages[k - 1], actions[k - 1]));
    assert(stages[k - 2] is RecordingImplementation);
    assert(k > 2);
    lemma_shows(config, stages, events, actions, k - 3);
    assert(is_step(config, stages[k - 3], events[k - 3], stages[k - 2], actions[k - 2]));
}

/// What an implementation pass printed decides what comes next: an output that is
/// ready for review is stored as it was printed; any other output, and an agent that
/// failed, is stored as a failure.
pub proof fn law_implementation_is_stored(
    config: LoopConfig,
    stages: Seq<LoopStage>,
    events: Seq<LoopEvent>,
    actions: Seq<LoopAction>,
    k: int,
)
    requires
        is_run(config, stages, events, actions),
        0 <= k < events.len(),
        actions[k] is RunImplementation,
    ensures
        match events[k] {
            LoopEvent::Ran(Ok(stdout)) => match outcome_output(
                stdout@,
                "implementation"@,
                "impl"@,
            ) {
                Ok((outcome, text, value)) => if outcome == "ready_for_review"@ {
                    actions[k + 1] matches LoopAction::RecordOutput { record } && record.phase@
                        == "implementation"@ && record.outcome@ == outcome && record.body.text@
                        == text && record.body.value@ == value
                } else {
                    actions[k + 1] matches LoopAction::RecordFailure { record } && record.phase@
                        == "implementation"@ && record.outcome@ == "failed"@
                },
                Err(message) => stores_failure(actions[k + 1], "implementation"@, message),
            },
            LoopEvent::Ran(Err(error)) => stores_failure(
                actions[k + 1],
                "implementation"@,
                error.text(),
            ),
            _ => actions[k + 1] is Finish,
        },
{
    lemma_shows(config, stages, events, actions, k);
    assert(is_step(config, stages[k], events[k], stages[k + 1], actions[k + 1]));
    lemma_shows(config, stages, events, actions, k + 1);
}

/// What a review pass printed is stored as it was printed; an output that cannot be
/// read, and an agent that failed, is stored as a failure of the review.
pub proof fn law_review_is_stored(
    config: LoopConfig,
    stages: Seq<LoopStage>,
    events: Seq<LoopEvent>,
    actions: Seq<LoopAction>,
    k: int,
)
    requires
        is_run(config, stages, events, actions),
        0 <= k < events.len(),
        actions[k] is RunReview,
    ensures
        match events[k] {
            LoopEvent::Ran(Ok(stdout)) => match outcome_output(stdout@, "review"@, "review"@) {
                Ok((outcome, text, value)) => actions[k + 1] matches LoopAction::RecordOutput {
                    record,
                } && record.phase@ == "review"@ && record.outcome@ == outcome && record.body.text@
                    == text && record.body.value@ == value,
                Err(message) => stores_failure(actions[k + 1], "review"@, message),
            },
            LoopEvent::Ran(Err(error)) => stores_failure(actions[k + 1], "review"@, error.text()),
            _ => actions[k + 1] is Finish,
        },
{
    lemma_shows(config, stages, events, actions, k);
    assert(is_step(config, stages[k], events[k], stages[k + 1], actions[k + 1]));
    lemma_shows(config, stages, events, actions, k + 1);
}

/// A stored review decides: where it says `approved` the assignment is moved to
/// `reviewed`, and otherwise a rejection is counted. Neither happens without one.
pub proof fn law_stored_review_decides(
    config: LoopConfig,
    stages: Seq<LoopStage>,
    events: Seq<LoopEvent>,
    actions: Seq<LoopAction>,
    k: int,
)
    requires
        is_run(config, stages, events, actions),
        0 <= k < events.len(),
    ensures
        moves_to(actions[k + 1], AssignmentStatus::Reviewed) <==> stored(events, k) && (
        actions[k] matches LoopAction::RecordOutput { record } && record.phase@ == "review"@
            && record.outcome@ == "approved"@),
        actions[k + 1] is IncrementRejection <==> stored(events, k) && (actions[k] matches
            LoopAction::RecordOutput { record } && record.phase@ == "review"@ && record.outcome@
            != "approved"@),
{
    lemma_phases_differ();
    lemma_shows(config, stages, events, actions, k);
    assert(is_step(config, stages[k], events[k], stages[k + 1], actions[k + 1]));
    lemma_shows(config, stages, events, actions, k + 1);
}

/// A counted rejection starts another pass below the Review Retry Limit, and blocks
/// the assignment at it. Nothing else in the loop blocks it with a typed reason.
pub proof fn law_limit_decides(
    config: LoopConfig,
    stages: Seq<LoopStage>,
    events: Seq<LoopEvent>,
    actions: Seq<LoopAction>,
    k: int,
)
    requires
        is_run(config, stages, events, actions),
        0 <= k < events.len(),
    ensures
        events[k] matches LoopEvent::Counted(Ok(count)) ==> if count < config.review_retry_limit {
            moves_to(actions[k + 1], AssignmentStatus::Implementing)
        } else {
            actions[k + 1] matches LoopAction::Transition {
                status: AssignmentStatus::Blocked { kind, detail },
            } && kind == BlockReason::ReviewRetryLimitExhausted && detail@ == exhausted_reason(
                count as int,
                config.review_retry_limit as int,
            )
        },
        actions[k + 1] matches LoopAction::Transition { status: AssignmentStatus::Blocked { .. } }
            ==> actions[k] is IncrementRejection && (events[k] matches LoopEvent::Counted(Ok(_))),
        moves_to(actions[k + 1], AssignmentStatus::Implementing) ==> k == 0 || (
        events[k] matches LoopEvent::Counted(Ok(_))),
{
    lemma_shows(config, stages, events, actions, k);
    assert(is_step(config, stages[k], events[k], stages[k + 1], actions[k + 1]));
    lemma_shows(config, stages, events, actions, k + 1);
}

/// A stored status is followed by the work of that status: `implementing` by the
/// implementation agent, `implemented` by the review agent, and a stored
/// implementation by the move to `implemented`.
pub proof fn law_work_follows_status(
    config: LoopConfig,
    stages: Seq<LoopStage>,
    events: Seq<LoopEvent>,
    actions: Seq<LoopAction>,
    k: int,
)
    requires
        is_run(config, stages, events, actions),
        0 <= k < events.len(),
        stored(events, k),
    ensures
        actions[k] is LoadSourceText <==> k == 0,
        k == 0 ==> moves_to(actions[k + 1], AssignmentStatus::Implementing),
        moves_to(actions[k], AssignmentStatus::Implementing) <==> actions[k + 1]
            is RunImplementation,
        stores_output_of(actions[k], "implementation"@) <==> moves_to(
            actions[k + 1],
            AssignmentStatus::Implemented,
        ),
        moves_to(actions[k], AssignmentStatus::Implemented) <==> actions[k + 1] is RunReview,
{
    lemma_phases_differ();
    lemma_shows(config, stages, events, actions, k);
    assert(is_step(config, stages[k], events[k], stages[k + 1], actions[k + 1]));
    lemma_shows(config, stages, events, actions, k + 1);
}

/// The loop ends with the body of a review exactly where that review was stored, it
/// says `approved`, and the assignment was moved to `reviewed` on it.
pub proof fn law_loop_ends_with_the_approving_review(
    config: LoopConfig,
    stages: Seq<LoopStage>,
    events: Seq<LoopEvent>,
    actions: Seq<LoopAction>,
    k: int,
)
    requires
        is_run(config, stages, events, actions),
        0 < k < events.len(),
    ensures
        actions[k + 1] matches LoopAction::Finish { result: Ok(Some(body)) } ==> moves_to(
            actions[k],
            AssignmentStatus::Reviewed,
        ) && stored(events, k) && (actions[k - 1] matches LoopAction::RecordOutput { record }
            && record.outcome@ == "approved"@ && record.body.text@ == body.text@
            && record.body.value@ == body.value@),
        moves_to(actions[k], AssignmentStatus::Reviewed) && stored(events, k) ==> (
        actions[k + 1] matches LoopAction::Finish { result: Ok(Some(_)) }),
{
    lemma_phases_differ();
    lemma_shows(config, stages, events, actions, k);
    assert(is_step(config, stages[k], events[k], stages[k + 1], actions[k + 1]));
    lemma_shows(config, stages, events, actions, k + 1);
    lemma_shows(config, stages, events, actions, k - 1);
    assert(is_step(config, stages[k - 1], events[k - 1], stages[k], actions[k]));
}

/// A blocked assignment ends the loop with nothing. Before that, the block is written
/// back where the Project has an Issue Source; a write-back that fails is noted, and
/// is no error of the loop.
pub proof fn law_block_ends_the_loop(
    config: LoopConfig,
    stages: Seq<LoopStage>,
    events: Seq<LoopEvent>,
    actions: Seq<LoopAction>,
    k: int,
)
    requires
        is_run(config, stages, events, actions),
        0 <= k < events.len(),
    ensures
        (actions[k] matches LoopAction::Transition { status: AssignmentStatus::Blocked { .. } })
            && stored(events, k) ==> if config.has_issue_source {
            actions[k + 1] == (LoopAction::WriteLifecycle { status: LifecycleStatus::Blocked })
        } else {
            actions[k + 1] matches LoopAction::Finish { result: Ok(None) }
        },
        actions[k + 1] is WriteLifecycle ==> actions[k + 1] == (LoopAction::WriteLifecycle {
            status: LifecycleStatus::Blocked,
        }) && (actions[k] matches LoopAction::Transition {
            status: AssignmentStatus::Blocked { .. },
        }) && config.has_issue_source,
        actions[k] is WriteLifecycle ==> match events[k] {
            LoopEvent::Written(Ok(_)) => actions[k + 1] matches LoopAction::Finish {
                result: Ok(None),
            },
            LoopEvent::Written(Err(error)) => actions[k + 1] matches LoopAction::RecordActivity {
                kind,
                detail,
            } && kind@ == "lifecycle_writeback_failed"@ && detail@
                == "blocked Lifecycle Status write-back failed: "@ + error.text(),
            _ => actions[k + 1] is Finish,
        },
        actions[k] is RecordActivity && events[k] is Noted ==> (actions[k + 1] matches
            LoopAction::Finish { result: Ok(None) }),
        actions[k + 1] matches LoopAction::Finish { result: Ok(None) } ==> (actions[k] matches
            LoopAction::Transition { status: AssignmentStatus::Blocked { .. } }) || actions[k]
            is WriteLifecycle || actions[k] is RecordActivity,
{
    lemma_shows(config, stages, events, actions, k);
    assert(is_step(config, stages[k], events[k], stages[k + 1], actions[k + 1]));
    lemma_shows(config, stages, events, actions, k + 1);
}

/// A phase that failed is stored, then the assignment is stored as `blocked` with the
/// error as its detail, and then the loop ends with that error: with status 500 and
/// the problem type of the phase.
pub proof fn law_failed_phase_ends_the_loop(
    config: LoopConfig,
    stages: Seq<LoopStage>,
    events: Seq<LoopEvent>,
    actions: Seq<LoopAction>,
    k: int,
    phase: Seq<char>,
    error: Seq<char>,
)
    requires
        is_run(config, stages, events, actions),
        0 < k,
        k + 1 < events.len(),
        stores_failure(actions[k], phase, error),
        events[k] is Noted,
        events[k + 1] is Noted,
    ensures
        actions[k + 1] matches LoopAction::MarkBlocked { status, error: detail } && status@
            == "blocked"@ && detail@ == error,
        actions[k + 2] matches LoopAction::Finish { result: Err(reported) } && reported.status
            == 500 && reported.detail@ == error && match events[k - 1] {
            LoopEvent::Ran(Err(_)) => reported.problem_type@ == if actions[k - 1]
                is RunImplementation {
                "urn:agentic-afk:implementation-phase-failed"@
            } else {
                "urn:agentic-afk:review-phase-failed"@
            },
            _ => if actions[k - 1] is RunReview {
                reported.problem_type@ == "urn:agentic-afk:review-output-unparseable"@
            } else {
                reported.problem_type@ == "urn:agentic-afk:implementation-output-unparseable"@
                    || reported.problem_type@ == "urn:agentic-afk:implementation-not-ready"@
            },
        },
        phase == if actions[k - 1] is RunImplementation {
            "implementation"@
        } else {
            "review"@
        },
{
    lemma_phases_differ();
    lemma_shows(config, stages, events, actions, k - 1);
    lemma_shows(config, stages, events, actions, k);
    lemma_shows(config, stages, events, actions, k + 1);
    lemma_shows(config, stages, events, actions, k + 2);
    assert(is_step(config, stages[k - 1], events[k - 1], stages[k], actions[k]));
    assert(is_step(config, stages[k], events[k], stages[k + 1], actions[k + 1]));
    assert(is_step(config, stages[k + 1], events[k + 1], stages[k + 2], actions[k + 2]));
    if let LoopStage::RecordingFailure { failure } = stages[k] {
        let record = actions[k]->RecordFailure_record;
        let held = record.body.value@->Object_0;
        assert(held[0] == ("error"@, JsonModel::Text(failure.error.detail@)));
        assert(held[0] == ("error"@, JsonModel::Text(error)));
    }
}

/// A database that fails ends the loop at once, with its error; and an error that ends
/// the loop is that of the database, or that of a phase which was stored as failed.
pub proof fn law_database_failure_ends_the_loop(
    config: LoopConfig,
    stages: Seq<LoopStage>,
    events: Seq<LoopEvent>,
    actions: Seq<LoopAction>,
    k: int,
)
    requires
        is_run(config, stages, events, actions),
        0 <= k < events.len(),
    ensures
        events[k] matches LoopEvent::Stored(Err(error)) ==> actions[k + 1] == (
        LoopAction::Finish { result: Err(error) }),
        events[k] matches LoopEvent::Counted(Err(error)) ==> actions[k + 1] == (
        LoopAction::Finish { result: Err(error) }),
        actions[k + 1] matches LoopAction::Finish { result: Err(error) } ==> events[k] == (
        LoopEvent::Stored(Err(error))) || events[k] == (LoopEvent::Counted(Err(error)))
            || actions[k] is MarkBlocked,
{
    lemma_shows(config, stages, events, actions, k);
    assert(is_step(config, stages[k], events[k], stages[k + 1], actions[k + 1]));
    lemma_shows(config, stages, events, actions, k + 1);
}

} // verus!
