//! Tracking a phase from before it starts to its end, in one row.

use vstd::prelude::*;

use crate::contracts::{PhaseOutputBody, PhaseOutputResponse};
use crate::json::JsonDocument;
#[allow(unused_imports)]
use crate::json::json_text;
use crate::phase_body_format::Stored;
#[allow(unused_imports)]
use crate::phase_body_format::BodyModel;
use crate::plan_run::FAILED_OUTCOME;
use crate::problem::PersistenceError;
use crate::text::concat;

verus! {

/// The phase that a row belongs to.
#[derive(Clone, Debug, Eq, PartialEq)]
pub struct PhaseLocator {
    pub plan_run_id: String,
    pub assignment_id: Option<String>,
    pub phase: String,
}

/// What a phase gave: a value, and how its row ends.
pub struct PhaseRunResult<T> {
    pub value: T,
    pub outcome: String,
    pub body: PhaseOutputBody,
}

/// Writes the process of a phase into its row, once.
#[derive(Clone, Debug, Eq, PartialEq)]
pub struct PhaseProcessRecorder {
    pub row_id: String,
    /// The process has been written.
    pub recorded: bool,
}

/// The recorder after a process was recorded. `written` is what writing the
/// process gave.
pub open spec fn after_record(
    recorder: PhaseProcessRecorder,
    written: Result<(), PersistenceError>,
) -> PhaseProcessRecorder {
    PhaseProcessRecorder { recorded: recorder.recorded || written is Ok, ..recorder }
}

impl PhaseProcessRecorder {
    /// The row.
    pub fn row_id(&self) -> (id: &str)
        ensures
            id@ == self.row_id@,
    {
        self.row_id.as_str()
    }

    /// Whether the process is to be written: only the first one is.
    pub fn wants_write(&self) -> (yes: bool)
        ensures
            yes == !self.recorded,
    {
        !self.recorded
    }

    /// Take note of the process. `written` is what writing it gave, where it was
    /// to be written. A write that failed may be tried again.
    pub fn record(&mut self, written: Result<(), PersistenceError>) -> (result: Result<
        (),
        PersistenceError,
    >)
        ensures
            *final(self) == after_record(*old(self), written),
            old(self).recorded ==> result is Ok,
            !old(self).recorded ==> result == written,
    {
        if self.recorded {
            return Ok(());
        }
        match written {
            Ok(unit) => {
                self.recorded = true;
                Ok(unit)
            },
            Err(error) => Err(error),
        }
    }
}

/// An error of a tracked phase: its own, or one of the database.
#[derive(Debug, Eq, PartialEq)]
pub enum TrackerError {
    Phase(String),
    Persistence(PersistenceError),
}

impl TrackerError {
    /// The text of the error.
    pub fn message(&self) -> (text: String)
        ensures
            text@ == (match self {
                TrackerError::Phase(error) => "phase failed: "@ + error@,
                TrackerError::Persistence(error) => "persistence error: "@ + error.message@,
            }),
    {
        match self {
            TrackerError::Phase(error) => concat("phase failed: ", error.as_str()),
            TrackerError::Persistence(error) => concat(
                "persistence error: ",
                error.message.as_str(),
            ),
        }
    }
}

/// A phase whose row is in flight. It has no copy: whoever writes the end of the
/// row gives it up, so that no row has a second end.
#[derive(Debug, Eq, PartialEq)]
pub struct TrackedPhase {
    row_id: String,
    phase: String,
    assignment_id: Option<String>,
    pub recorder: PhaseProcessRecorder,
}

/// A row that was left in flight because its end could not be written. It is to
/// be swept.
#[derive(Debug, Eq, PartialEq)]
pub struct UnwrittenEnd {
    pub row_id: String,
    pub error: PersistenceError,
}

/// Track a phase. `inserted` is the row that was written before it starts.
pub fn start(locator: PhaseLocator, inserted: Result<String, PersistenceError>) -> (started: Result<
    TrackedPhase,
    PersistenceError,
>)
    ensures
        match inserted {
            Ok(row_id) => {
                &&& started matches Ok(handle)
                &&& handle.row() == row_id
                &&& handle.tracks() == locator.phase
                &&& handle.assignment() == locator.assignment_id
                &&& handle.recording() == (PhaseProcessRecorder { row_id, recorded: false })
            },
            Err(error) => started == Err::<TrackedPhase, PersistenceError>(error),
        },
{
    match inserted {
        Ok(row_id) => {
            let recorder = PhaseProcessRecorder { row_id: row_id.clone(), recorded: false };
            Ok(
                TrackedPhase {
                    row_id,
                    phase: locator.phase,
                    assignment_id: locator.assignment_id,
                    recorder,
                },
            )
        },
        Err(error) => Err(error),
    }
}

/// The body of a phase that failed.
pub fn failed_body(error: String) -> (body: PhaseOutputBody)
    ensures
        body == (PhaseOutputBody::Failed { error, problem_type: None }),
{
    PhaseOutputBody::Failed { error, problem_type: None }
}

/// How a tracked phase ends. Where the end was written, what is published holds
/// the stored form of the body; where it was not, the row is to be swept.
pub open spec fn is_end(
    handle: TrackedPhase,
    outcome: Seq<char>,
    body: BodyModel,
    written: Result<(), PersistenceError>,
    ended: Result<PhaseOutputResponse, UnwrittenEnd>,
) -> bool {
    match written {
        Ok(_) => {
            &&& ended matches Ok(output)
            &&& output.phase == handle.tracks()
            &&& output.outcome@ == outcome
            &&& output.body_json.value@ == PhaseOutputBody::writes(body)
            &&& output.body_json.text@ == json_text(PhaseOutputBody::writes(body))
            &&& output.recorded_at@ == ""@
            &&& output.assignment_id == handle.assignment()
        },
        Err(error) => ended == Err::<PhaseOutputResponse, UnwrittenEnd>(
            UnwrittenEnd { row_id: handle.row(), error },
        ),
    }
}

impl TrackedPhase {
    /// The row that is in flight.
    pub closed spec fn row(&self) -> String {
        self.row_id
    }

    /// The phase that the row is for.
    pub closed spec fn tracks(&self) -> String {
        self.phase
    }

    /// The assignment that the row is for.
    pub closed spec fn assignment(&self) -> Option<String> {
        self.assignment_id
    }

    /// What the recorder of the phase has written.
    pub closed spec fn recording(&self) -> PhaseProcessRecorder {
        self.recorder
    }

    /// The row.
    pub fn row_id(&self) -> (id: &str)
        ensures
            id@ == self.row()@,
    {
        self.row_id.as_str()
    }

    /// End the phase. `written` is what writing the outcome and the body into the
    /// row gave.
    pub fn complete(
        self,
        outcome: &str,
        body: PhaseOutputBody,
        written: Result<(), PersistenceError>,
    ) -> (ended: Result<PhaseOutputResponse, UnwrittenEnd>)
        ensures
            is_end(self, outcome@, body@, written, ended),
    {
        match written {
            Ok(_) => Ok(
                PhaseOutputResponse {
                    phase: self.phase,
                    outcome: outcome.to_owned(),
                    body_json: JsonDocument::of(body.to_json()),
                    recorded_at: "".to_owned(),
                    assignment_id: self.assignment_id,
                },
            ),
            Err(error) => Err(UnwrittenEnd { row_id: self.row_id, error }),
        }
    }

    /// End a phase that failed: its outcome is `failed`, and its body is that of
    /// [`failed_body`].
    pub fn fail(self, error: String, written: Result<(), PersistenceError>) -> (ended: Result<
        PhaseOutputResponse,
        UnwrittenEnd,
    >)
        ensures
            is_end(
                self,
                FAILED_OUTCOME@,
                (PhaseOutputBody::Failed { error, problem_type: None })@,
                written,
                ended,
            ),
    {
        self.complete(FAILED_OUTCOME, failed_body(error), written)
    }

    /// Give the phase up before its end: the row that is left in flight, and is to
    /// be swept.
    pub fn abandon(self) -> (row_id: String)
        ensures
            row_id == self.row(),
    {
        self.row_id
    }
}

/// What is published of a phase that ended reads as the body that it ended with.
pub proof fn law_published_body_reads_back(
    handle: TrackedPhase,
    outcome: Seq<char>,
    body: BodyModel,
    output: PhaseOutputResponse,
)
    requires
        is_end(handle, outcome, body, Ok(()), Ok(output)),
    ensures
        PhaseOutputBody::reads(output.body_json.value@) == Some(body),
{
    PhaseOutputBody::reads_back(body);
}

// --- A whole phase ---

/// Where a tracked run stands.
#[derive(Clone, Debug, Eq, PartialEq)]
pub enum TrackStage {
    /// The row is written.
    Inserting,
    /// The phase runs.
    Running { row_id: String },
    /// The end of the phase is written.
    Completing { row_id: String },
    /// The failure of the phase is written.
    Failing { row_id: String, error: String },
    Ended,
}

/// What a tracked run is told.
#[derive(Clone, Debug, Eq, PartialEq)]
pub enum TrackEvent {
    Inserted { row_id: String },
    Succeeded { outcome: String },
    Failed { error: String },
    Written,
    Unavailable { error: PersistenceError },
}

/// What a tracked run asks for.
#[derive(Debug, Eq, PartialEq)]
pub enum TrackAction {
    /// Write a row that is in flight.
    Insert,
    /// Run the phase.
    Run,
    /// Write the outcome and the body of the phase.
    WriteOutcome { outcome: String },
    /// Write the failure of the phase.
    WriteFailure { error: String },
    /// Hand back the value of the phase.
    Return,
    /// Hand back the error. `sweep` is the row that is left without an end.
    Report { error: TrackerError, sweep: Option<String> },
}

/// What a tracked run awaits.
pub open spec fn awaits(stage: TrackStage, event: TrackEvent) -> bool {
    match stage {
        TrackStage::Inserting => event is Inserted || event is Unavailable,
        TrackStage::Running { row_id } => event is Succeeded || event is Failed,
        TrackStage::Completing { row_id } => event is Written || event is Unavailable,
        TrackStage::Failing { row_id, error } => event is Written || event is Unavailable,
        TrackStage::Ended => false,
    }
}

/// How a tracked run goes on: the row is written before the phase runs, and has
/// its end written after it, whichever way it ended.
pub open spec fn is_step(
    before: TrackStage,
    event: TrackEvent,
    after: TrackStage,
    action: TrackAction,
) -> bool {
    match (before, event) {
        (TrackStage::Inserting, TrackEvent::Inserted { row_id }) => after == (
        TrackStage::Running { row_id }) && action is Run,
        (TrackStage::Inserting, TrackEvent::Unavailable { error }) => after is Ended && action == (
        TrackAction::Report { error: TrackerError::Persistence(error), sweep: None }),
        (TrackStage::Running { row_id }, TrackEvent::Succeeded { outcome }) => after == (
        TrackStage::Completing { row_id }) && action == (TrackAction::WriteOutcome { outcome }),
        (TrackStage::Running { row_id }, TrackEvent::Failed { error }) => after == (
        TrackStage::Failing { row_id, error }) && action == (TrackAction::WriteFailure { error }),
        (TrackStage::Completing { row_id }, TrackEvent::Written) => after is Ended
            && action is Return,
        (TrackStage::Completing { row_id }, TrackEvent::Unavailable { error }) => after is Ended
            && action == (TrackAction::Report {
            error: TrackerError::Persistence(error),
            sweep: Some(row_id),
        }),
        (TrackStage::Failing { row_id, error }, TrackEvent::Written) => after is Ended && action
            == (TrackAction::Report { error: TrackerError::Phase(error), sweep: None }),
        (
            TrackStage::Failing { row_id, error },
            TrackEvent::Unavailable { error: unavailable },
        ) => after is Ended && action == (TrackAction::Report {
            error: TrackerError::Persistence(unavailable),
            sweep: Some(row_id),
        }),
        _ => false,
    }
}

/// Begin a tracked run: the row comes first.
pub fn begin() -> (first: (TrackStage, TrackAction))
    ensures
        first == (TrackStage::Inserting, TrackAction::Insert),
{
    (TrackStage::Inserting, TrackAction::Insert)
}

/// Whether a tracked run awaits the event.
pub fn is_awaited(stage: &TrackStage, event: &TrackEvent) -> (yes: bool)
    ensures
        yes == awaits(*stage, *event),
{
    match (stage, event) {
        (TrackStage::Inserting, TrackEvent::Inserted { .. }) => true,
        (TrackStage::Inserting, TrackEvent::Unavailable { .. }) => true,
        (TrackStage::Running { .. }, TrackEvent::Succeeded { .. }) => true,
        (TrackStage::Running { .. }, TrackEvent::Failed { .. }) => true,
        (TrackStage::Completing { .. }, TrackEvent::Written) => true,
        (TrackStage::Completing { .. }, TrackEvent::Unavailable { .. }) => true,
        (TrackStage::Failing { .. }, TrackEvent::Written) => true,
        (TrackStage::Failing { .. }, TrackEvent::Unavailable { .. }) => true,
        _ => false,
    }
}

/// Go on with a tracked run.
pub fn step(stage: TrackStage, event: TrackEvent) -> (next: (TrackStage, TrackAction))
    requires
        awaits(stage, event),
    ensures
        is_step(stage, event, next.0, next.1),
{
    match (stage, event) {
        (TrackStage::Inserting, TrackEvent::Inserted { row_id }) => (
            TrackStage::Running { row_id },
            TrackAction::Run,
        ),
        (TrackStage::Running { row_id }, TrackEvent::Succeeded { outcome }) => (
            TrackStage::Completing { row_id },
            TrackAction::WriteOutcome { outcome },
        ),
        (TrackStage::Running { row_id }, TrackEvent::Failed { error }) => {
            let reported = error.clone();
            (
                TrackStage::Failing { row_id, error },
                TrackAction::WriteFailure { error: reported },
            )
        },
        (TrackStage::Completing { .. }, TrackEvent::Written) => (
            TrackStage::Ended,
            TrackAction::Return,
        ),
        (TrackStage::Completing { row_id }, TrackEvent::Unavailable { error }) => (
            TrackStage::Ended,
            TrackAction::Report {
                error: TrackerError::Persistence(error),
                sweep: Some(row_id),
            },
        ),
        (TrackStage::Failing { error, .. }, TrackEvent::Written) => (
            TrackStage::Ended,
            TrackAction::Report { error: TrackerError::Phase(error), sweep: None },
        ),
        (TrackStage::Failing { row_id, .. }, TrackEvent::Unavailable { error }) => (
            TrackStage::Ended,
            TrackAction::Report {
                error: TrackerError::Persistence(error),
                sweep: Some(row_id),
            },
        ),
        (_, TrackEvent::Unavailable { error }) => (
            TrackStage::Ended,
            TrackAction::Report { error: TrackerError::Persistence(error), sweep: None },
        ),
        _ => (TrackStage::Ended, TrackAction::Return),
    }
}

// --- Laws ---

/// A phase runs only after its row was written, and a row is written once: no
/// step asks for a second one.
pub proof fn law_one_row_before_the_phase(
    before: TrackStage,
    event: TrackEvent,
    after: TrackStage,
    action: TrackAction,
)
    requires
        is_step(before, event, after, action),
    ensures
        action is Run ==> before is Inserting && event is Inserted,
        !(action is Insert),
        !(after is Inserting),
{
}

/// A run that has written its row ends in one of two ways: the end of the phase
/// was written, or the row is handed on to be swept. No row stays in flight
/// unnoticed.
pub proof fn law_no_row_is_lost(
    before: TrackStage,
    event: TrackEvent,
    after: TrackStage,
    action: TrackAction,
)
    requires
        is_step(before, event, after, action),
        after is Ended,
        !(before is Inserting),
    ensures
        event is Written || (action matches TrackAction::Report { error, sweep } && sweep
            == Some(
            match before {
                TrackStage::Completing { row_id } => row_id,
                TrackStage::Failing { row_id, error } => row_id,
                _ => arbitrary(),
            },
        )),
{
}

/// The value of a phase is handed back only after its end was written, and the
/// error of a phase only after its failure was.
pub proof fn law_result_follows_write(
    before: TrackStage,
    event: TrackEvent,
    after: TrackStage,
    action: TrackAction,
)
    requires
        is_step(before, event, after, action),
    ensures
        action is Return ==> before is Completing && event is Written,
        action matches TrackAction::Report { error: TrackerError::Phase(error), sweep }
            ==> event is Written && (before matches TrackStage::Failing { row_id, error: kept }
            && kept == error),
{
}

/// Once a process was recorded, recording another one changes nothing: only the
/// first process is written.
pub proof fn law_record_is_idempotent(
    recorder: PhaseProcessRecorder,
    first: Result<(), PersistenceError>,
    second: Result<(), PersistenceError>,
)
    requires
        first is Ok,
    ensures
        after_record(recorder, first).recorded,
        after_record(after_record(recorder, first), second) == after_record(recorder, first),
{
}

} // verus!
