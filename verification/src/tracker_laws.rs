//! What a tracked phase does from its first action to its last.

use vstd::prelude::*;

#[allow(unused_imports)]
use crate::contracts::{PhaseOutputBody, PhaseOutputResponse};
#[allow(unused_imports)]
use crate::in_flight_phase_tracker::{
    after_record, begin, is_step, start, PhaseLocator, PhaseProcessRecorder, TrackAction,
    TrackEvent, TrackStage, TrackedPhase, TrackerError, UnwrittenEnd,
};
#[allow(unused_imports)]
use crate::json::json_text;
#[allow(unused_imports)]
use crate::phase_body_format::Stored;
#[allow(unused_imports)]
use crate::problem::PersistenceError;

verus! {

/// The actions that a tracked run asks for, where it is told the events.
pub open spec fn is_run(
    stages: Seq<TrackStage>,
    events: Seq<TrackEvent>,
    actions: Seq<TrackAction>,
) -> bool {
    &&& stages.len() == actions.len() == events.len() + 1
    &&& call_ensures(begin, (), (stages[0], actions[0]))
    &&& forall|k: int|
        0 <= k < events.len() ==> is_step(stages[k], #[trigger] events[k], stages[k + 1], actions[
            k + 1])
}

/// A row is asked for first. Where it cannot be written, the error of the database is
/// the end, and there is nothing to sweep.
pub proof fn law_row_comes_first(
    stages: Seq<TrackStage>,
    events: Seq<TrackEvent>,
    actions: Seq<TrackAction>,
)
    requires
        is_run(stages, events, actions),
    ensures
        actions[0] is Insert,
        events.len() > 0 ==> (events[0] is Inserted <==> actions[1] is Run),
        events.len() > 0 && events[0] is Unavailable ==> events.len() == 1 && actions[1] == (
        TrackAction::Report {
            error: TrackerError::Persistence(events[0]->Unavailable_error),
            sweep: None,
        }),
{
    if events.len() > 0 {
        assert(is_step(stages[0], events[0], stages[1], actions[1]));
        if events.len() > 1 {
            assert(is_step(stages[1], events[1], stages[2], actions[2]));
        }
    }
}

/// What the phase gave is what is written: the outcome of one that succeeded, and the
/// error of one that failed.
pub proof fn law_result_is_written(
    stages: Seq<TrackStage>,
    events: Seq<TrackEvent>,
    actions: Seq<TrackAction>,
)
    requires
        is_run(stages, events, actions),
        events.len() >= 2,
    ensures
        actions[1] is Run,
        events[1] matches TrackEvent::Succeeded { outcome } ==> actions[2] == (
        TrackAction::WriteOutcome { outcome }),
        events[1] matches TrackEvent::Failed { error } ==> actions[2] == (
        TrackAction::WriteFailure { error }),
        events[1] is Succeeded || events[1] is Failed,
{
    assert(is_step(stages[0], events[0], stages[1], actions[1]));
    assert(is_step(stages[1], events[1], stages[2], actions[2]));
}

/// A run of three events has ended. Where the end was written, a phase that succeeded
/// hands back its value and one that failed its own error, with nothing to sweep. Where
/// it was not, the error of the database is handed back, and the row that was written
/// at first is to be swept.
pub proof fn law_written_end_decides(
    stages: Seq<TrackStage>,
    events: Seq<TrackEvent>,
    actions: Seq<TrackAction>,
)
    requires
        is_run(stages, events, actions),
        events.len() >= 3,
    ensures
        events.len() == 3,
        events[2] is Written || events[2] is Unavailable,
        events[2] is Written && events[1] is Succeeded ==> actions[3] is Return,
        events[2] is Written && events[1] is Failed ==> actions[3] == (TrackAction::Report {
            error: TrackerError::Phase(events[1]->Failed_error),
            sweep: None,
        }),
        events[2] is Unavailable ==> actions[3] == (TrackAction::Report {
            error: TrackerError::Persistence(events[2]->Unavailable_error),
            sweep: Some(events[0]->Inserted_row_id),
        }),
{
    assert(is_step(stages[0], events[0], stages[1], actions[1]));
    assert(is_step(stages[1], events[1], stages[2], actions[2]));
    assert(is_step(stages[2], events[2], stages[3], actions[3]));
    if events.len() > 3 {
        assert(is_step(stages[3], events[3], stages[4], actions[4]));
    }
}

/// What is published of a phase that ended belongs to the phase and the assignment that
/// were tracked from the start, with the outcome and the body that it ended with. Where
/// the end could not be written, the row that was inserted is handed on with the error.
pub proof fn law_end_belongs_to_the_start(
    locator: PhaseLocator,
    row_id: String,
    handle: TrackedPhase,
    outcome: &str,
    body: PhaseOutputBody,
    written: Result<(), PersistenceError>,
    ended: Result<PhaseOutputResponse, UnwrittenEnd>,
)
    requires
        call_ensures(start, (locator, Ok(row_id)), Ok(handle)),
        call_ensures(TrackedPhase::complete, (handle, outcome, body, written), ended),
    ensures
        handle.recording().row_id == row_id && !handle.recording().recorded,
        ended is Ok <==> written is Ok,
        ended matches Ok(output) ==> {
            &&& output.phase == locator.phase
            &&& output.assignment_id == locator.assignment_id
            &&& output.outcome@ == outcome@
            &&& PhaseOutputBody::reads(output.body_json.value@) == Some(body@)
            &&& output.body_json.text@ == json_text(output.body_json.value@)
            &&& output.recorded_at@.len() == 0
        },
        ended matches Err(unwritten) ==> unwritten.row_id == row_id && written == Err::<
            (),
            PersistenceError,
        >(unwritten.error),
{
    reveal_strlit("");
    PhaseOutputBody::reads_back(body@);
}

/// The error of a tracked phase says whose it is, and what was said.
pub proof fn law_tracker_error_text(error: TrackerError, text: String)
    requires
        call_ensures(TrackerError::message, (&error,), text),
    ensures
        error matches TrackerError::Phase(said) ==> text@ == "phase failed: "@ + said@,
        error matches TrackerError::Persistence(said) ==> text@ == "persistence error: "@
            + said.message@,
{
}

/// What is published of a phase that failed has the outcome `failed` and reads as a
/// failure with the error, of no known kind.
pub proof fn law_failure_is_published(
    locator: PhaseLocator,
    row_id: String,
    handle: TrackedPhase,
    error: String,
    ended: Result<PhaseOutputResponse, UnwrittenEnd>,
)
    requires
        call_ensures(start, (locator, Ok(row_id)), Ok(handle)),
        call_ensures(TrackedPhase::fail, (handle, error, Ok(())), ended),
    ensures
        ended matches Ok(output) && output.phase == locator.phase && output.assignment_id
            == locator.assignment_id && output.outcome@ == "failed"@ && PhaseOutputBody::reads(
            output.body_json.value@,
        ) == Some((PhaseOutputBody::Failed { error, problem_type: None })@),
{
    PhaseOutputBody::reads_back((PhaseOutputBody::Failed { error, problem_type: None })@);
}

/// A phase is tracked if and only if its row was written; one that is given up leaves
/// just that row.
pub proof fn law_only_a_written_row_is_tracked(
    locator: PhaseLocator,
    inserted: Result<String, PersistenceError>,
    started: Result<TrackedPhase, PersistenceError>,
    left: String,
)
    requires
        call_ensures(start, (locator, inserted), started),
    ensures
        started is Ok <==> inserted is Ok,
        started matches Err(error) ==> inserted == Err::<String, PersistenceError>(error),
        started is Ok && call_ensures(TrackedPhase::abandon, (started->Ok_0,), left) ==> inserted
            == Ok::<String, PersistenceError>(left),
{
}

/// The process is recorded once a write of it succeeded, and not before: a write that
/// failed leaves the recorder as it was.
pub proof fn law_recorded_once_written(
    recorder: PhaseProcessRecorder,
    written: Seq<Result<(), PersistenceError>>,
)
    ensures
        recorded_all(recorder, written).row_id == recorder.row_id,
        recorded_all(recorder, written).recorded <==> recorder.recorded || exists|k: int|
            0 <= k < written.len() && (#[trigger] written[k]) is Ok,
    decreases written.len(),
{
    if written.len() > 0 {
        let front = written.drop_last();
        law_recorded_once_written(recorder, front);
        if written.last() is Ok {
            assert(written[written.len() - 1] is Ok);
        } else {
            if exists|k: int| 0 <= k < written.len() && (#[trigger] written[k]) is Ok {
                let k = choose|k: int| 0 <= k < written.len() && (#[trigger] written[k]) is Ok;
                assert(front[k] is Ok);
            }
            if exists|k: int| 0 <= k < front.len() && (#[trigger] front[k]) is Ok {
                let k = choose|k: int| 0 <= k < front.len() && (#[trigger] front[k]) is Ok;
                assert(written[k] is Ok);
            }
        }
    }
}

/// The recorder after one process after the other was recorded.
pub open spec fn recorded_all(
    recorder: PhaseProcessRecorder,
    written: Seq<Result<(), PersistenceError>>,
) -> PhaseProcessRecorder
    decreases written.len(),
{
    if written.len() == 0 {
        recorder
    } else {
        after_record(recorded_all(recorder, written.drop_last()), written.last())
    }
}

} // verus!
