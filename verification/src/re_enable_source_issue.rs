//! Making a blocked Source Issue ready again.

use vstd::prelude::*;

use crate::plan_run::{LifecycleStatus, PlanRunPhaseError};
use crate::problem::{CoordinatorError, PersistenceError};
use crate::text::concat;

verus! {

/// What re-enabling a Source Issue gave.
#[derive(Debug, Eq, PartialEq)]
pub struct ReEnableOutcome {
    /// A blocked assignment was there, and is cleared.
    pub local_cleared: bool,
    /// What writing the status back gave.
    pub writeback: Result<(), WritebackError>,
}

/// Why a status was not written back.
#[derive(Clone, Debug, Eq, PartialEq)]
pub struct WritebackError(pub String);

impl WritebackError {
    /// The text of the error.
    pub fn message(&self) -> (text: &str)
        ensures
            text@ == self.0@,
    {
        self.0.as_str()
    }
}

/// Where re-enabling stands. `cleared` is the assignment that was cleared.
#[derive(Debug, Eq, PartialEq)]
pub enum ReEnableStage {
    /// The latest blocked assignment is looked up.
    LookingUp,
    /// The assignment is cleared.
    Clearing { assignment_id: String },
    /// The Planning Snapshot is brought up to date.
    Mirroring { cleared: Option<String> },
    /// The status is written back.
    WritingBack { cleared: Option<String> },
    /// The failed write-back is recorded.
    Recording { cleared: Option<String>, error: WritebackError },
    /// The cleared assignment is published.
    Publishing { writeback: Result<(), WritebackError> },
    Ended,
}

/// What re-enabling is told.
#[derive(Debug, Eq, PartialEq)]
pub enum ReEnableEvent {
    /// The latest blocked assignment of the Source Issue, if there is one.
    Found { assignment_id: Option<String> },
    /// The assignment is cleared.
    Cleared,
    /// The look-up or the clearing failed.
    Unavailable { error: PersistenceError },
    /// The Planning Snapshot is up to date, or could not be brought so.
    Mirrored { done: bool },
    WrittenBack { result: Result<(), PlanRunPhaseError> },
    Recorded,
    Published,
}

/// What re-enabling asks for.
#[derive(Debug, Eq, PartialEq)]
pub enum ReEnableAction {
    LookUp,
    Clear { assignment_id: String },
    /// Set the status of the Source Issue in the Planning Snapshot.
    Mirror { status: LifecycleStatus },
    WriteBack { status: LifecycleStatus },
    RecordActivity { assignment_id: Option<String>, kind: String, detail: String },
    /// Publish the cleared assignment.
    PublishCleared,
    Finish { outcome: ReEnableOutcome },
    Fail { error: CoordinatorError },
}

/// What re-enabling awaits.
pub open spec fn awaits(stage: ReEnableStage, event: ReEnableEvent) -> bool {
    match stage {
        ReEnableStage::LookingUp => event is Found || event is Unavailable,
        ReEnableStage::Clearing { assignment_id } => event is Cleared || event is Unavailable,
        ReEnableStage::Mirroring { cleared } => event is Mirrored,
        ReEnableStage::WritingBack { cleared } => event is WrittenBack,
        ReEnableStage::Recording { cleared, error } => event is Recorded,
        ReEnableStage::Publishing { writeback } => event is Published,
        ReEnableStage::Ended => false,
    }
}

/// How re-enabling ends: the cleared assignment is published first, where there is
/// one.
pub open spec fn winds_up(
    cleared: Option<String>,
    writeback: Result<(), WritebackError>,
    after: ReEnableStage,
    action: ReEnableAction,
) -> bool {
    if cleared is Some {
        after == (ReEnableStage::Publishing { writeback }) && action is PublishCleared
    } else {
        after is Ended && action == (ReEnableAction::Finish {
            outcome: ReEnableOutcome { local_cleared: false, writeback },
        })
    }
}

/// The error is the report of the database's error.
pub open spec fn reports(error: PersistenceError, reported: CoordinatorError) -> bool {
    reported.is(error.kind.status(), error.kind.problem_type(), error.message@)
}

/// How re-enabling goes on. The assignment is cleared where there is one. The
/// Planning Snapshot and the Issue Source are told in any case, and that they
/// cannot be told changes nothing about the assignment.
pub open spec fn is_step(
    before: ReEnableStage,
    event: ReEnableEvent,
    after: ReEnableStage,
    action: ReEnableAction,
) -> bool {
    match event {
        ReEnableEvent::Found { assignment_id } => {
            &&& before is LookingUp
            &&& match assignment_id {
                Some(assignment_id) => after == (ReEnableStage::Clearing { assignment_id })
                    && action == (ReEnableAction::Clear { assignment_id }),
                None => after == (ReEnableStage::Mirroring { cleared: None }) && action == (
                ReEnableAction::Mirror { status: LifecycleStatus::Ready }),
            }
        },
        ReEnableEvent::Unavailable { error } => {
            &&& before is LookingUp || before is Clearing
            &&& after is Ended
            &&& action matches ReEnableAction::Fail { error: reported } && reports(error, reported)
        },
        ReEnableEvent::Cleared => before matches ReEnableStage::Clearing { assignment_id } && after
            == (ReEnableStage::Mirroring { cleared: Some(assignment_id) }) && action == (
        ReEnableAction::Mirror { status: LifecycleStatus::Ready }),
        ReEnableEvent::Mirrored { done } => before matches ReEnableStage::Mirroring { cleared }
            && after == (ReEnableStage::WritingBack { cleared }) && action == (
        ReEnableAction::WriteBack { status: LifecycleStatus::Ready }),
        ReEnableEvent::WrittenBack { result } => before matches ReEnableStage::WritingBack {
            cleared,
        } && match result {
            Ok(_) => winds_up(cleared, Ok(()), after, action),
            Err(error) => {
                &&& after matches ReEnableStage::Recording { cleared: kept, error: writeback }
                    && kept == cleared && writeback.0@ == error.text()
                &&& action matches ReEnableAction::RecordActivity { assignment_id, kind, detail }
                    && assignment_id == cleared && kind@ == "lifecycle_writeback_failed"@
                    && detail@ == "ready Lifecycle Status write-back after re-enable failed: "@
                    + error.text()
            },
        },
        ReEnableEvent::Recorded => before matches ReEnableStage::Recording { cleared, error }
            && winds_up(cleared, Err(error), after, action),
        ReEnableEvent::Published => before matches ReEnableStage::Publishing { writeback } && after
            is Ended && action == (ReEnableAction::Finish {
            outcome: ReEnableOutcome { local_cleared: true, writeback },
        }),
    }
}

/// Begin with the look-up.
pub fn start() -> (first: (ReEnableStage, ReEnableAction))
    ensures
        first == (ReEnableStage::LookingUp, ReEnableAction::LookUp),
{
    (ReEnableStage::LookingUp, ReEnableAction::LookUp)
}

/// Whether re-enabling awaits the event.
pub fn is_awaited(stage: &ReEnableStage, event: &ReEnableEvent) -> (yes: bool)
    ensures
        yes == awaits(*stage, *event),
{
    match (stage, event) {
        (ReEnableStage::LookingUp, ReEnableEvent::Found { .. }) => true,
        (ReEnableStage::LookingUp, ReEnableEvent::Unavailable { .. }) => true,
        (ReEnableStage::Clearing { .. }, ReEnableEvent::Cleared) => true,
        (ReEnableStage::Clearing { .. }, ReEnableEvent::Unavailable { .. }) => true,
        (ReEnableStage::Mirroring { .. }, ReEnableEvent::Mirrored { .. }) => true,
        (ReEnableStage::WritingBack { .. }, ReEnableEvent::WrittenBack { .. }) => true,
        (ReEnableStage::Recording { .. }, ReEnableEvent::Recorded) => true,
        (ReEnableStage::Publishing { .. }, ReEnableEvent::Published) => true,
        _ => false,
    }
}

fn wind_up(cleared: Option<String>, writeback: Result<(), WritebackError>) -> (next: (
    ReEnableStage,
    ReEnableAction,
))
    ensures
        winds_up(cleared, writeback, next.0, next.1),
{
    if cleared.is_some() {
        (ReEnableStage::Publishing { writeback }, ReEnableAction::PublishCleared)
    } else {
        (
            ReEnableStage::Ended,
            ReEnableAction::Finish { outcome: ReEnableOutcome { local_cleared: false, writeback } },
        )
    }
}

/// Go on with re-enabling.
pub fn step(stage: ReEnableStage, event: ReEnableEvent) -> (next: (ReEnableStage, ReEnableAction))
    requires
        awaits(stage, event),
    ensures
        is_step(stage, event, next.0, next.1),
{
    match (stage, event) {
        (ReEnableStage::LookingUp, ReEnableEvent::Found { assignment_id: Some(assignment_id) }) => {
            let asked = assignment_id.clone();
            (
                ReEnableStage::Clearing { assignment_id },
                ReEnableAction::Clear { assignment_id: asked },
            )
        },
        (ReEnableStage::LookingUp, ReEnableEvent::Found { assignment_id: None }) => (
            ReEnableStage::Mirroring { cleared: None },
            ReEnableAction::Mirror { status: LifecycleStatus::Ready },
        ),
        (_, ReEnableEvent::Unavailable { error }) => (
            ReEnableStage::Ended,
            ReEnableAction::Fail { error: CoordinatorError::from_persistence(error) },
        ),
        (ReEnableStage::Clearing { assignment_id }, _) => (
            ReEnableStage::Mirroring { cleared: Some(assignment_id) },
            ReEnableAction::Mirror { status: LifecycleStatus::Ready },
        ),
        (ReEnableStage::Mirroring { cleared }, _) => (
            ReEnableStage::WritingBack { cleared },
            ReEnableAction::WriteBack { status: LifecycleStatus::Ready },
        ),
        (ReEnableStage::WritingBack { cleared }, ReEnableEvent::WrittenBack { result: Ok(_) }) => {
            wind_up(cleared, Ok(()))
        },
        (
            ReEnableStage::WritingBack { cleared },
            ReEnableEvent::WrittenBack { result: Err(error) },
        ) => {
            let message = error.message();
            let detail = concat(
                "ready Lifecycle Status write-back after re-enable failed: ",
                message.as_str(),
            );
            let assignment_id = crate::text::clone_option(&cleared);
            (
                ReEnableStage::Recording { cleared, error: WritebackError(message) },
                ReEnableAction::RecordActivity {
                    assignment_id,
                    kind: "lifecycle_writeback_failed".to_owned(),
                    detail,
                },
            )
        },
        (ReEnableStage::Recording { cleared, error }, _) => wind_up(cleared, Err(error)),
        (ReEnableStage::Publishing { writeback }, _) => (
            ReEnableStage::Ended,
            ReEnableAction::Finish { outcome: ReEnableOutcome { local_cleared: true, writeback } },
        ),
        _ => (ReEnableStage::Ended, ReEnableAction::LookUp),
    }
}

// --- Laws ---

/// A write-back that fails does not fail the whole, nor does it undo the
/// clearing: what was cleared is kept until it is reported.
pub proof fn law_writeback_is_best_effort(
    before: ReEnableStage,
    event: ReEnableEvent,
    middle: ReEnableStage,
    first: ReEnableAction,
    recorded: ReEnableEvent,
    after: ReEnableStage,
    second: ReEnableAction,
)
    requires
        before is WritingBack,
        event matches ReEnableEvent::WrittenBack { result } && result is Err,
        is_step(before, event, middle, first),
        recorded is Recorded,
        is_step(middle, recorded, after, second),
    ensures
        first is RecordActivity,
        !(second is Fail),
        before->WritingBack_cleared is Some ==> second is PublishCleared,
        before->WritingBack_cleared is None ==> (second matches ReEnableAction::Finish { outcome }
            && !outcome.local_cleared && outcome.writeback is Err),
{
}

/// The status is written back whether or not an assignment was there to clear,
/// and whether or not the Planning Snapshot could be brought up to date.
pub proof fn law_always_writes_back(
    before: ReEnableStage,
    event: ReEnableEvent,
    after: ReEnableStage,
    action: ReEnableAction,
)
    requires
        is_step(before, event, after, action),
        event is Mirrored,
    ensures
        action == (ReEnableAction::WriteBack { status: LifecycleStatus::Ready }),
{
}

/// A run from the look-up on: the stages that it went through, the result that ended
/// each stage but the last, and the action that each stage began with.
pub open spec fn is_run(
    stages: Seq<ReEnableStage>,
    events: Seq<ReEnableEvent>,
    actions: Seq<ReEnableAction>,
) -> bool {
    &&& stages.len() == events.len() + 1
    &&& actions.len() == events.len() + 1
    &&& stages[0] is LookingUp
    &&& actions[0] is LookUp
    &&& forall|k: int|
        0 <= k < events.len() ==> is_step(
            stages[k],
            #[trigger] events[k],
            stages[k + 1],
            actions[k + 1],
        )
}

/// An assignment was cleared before the stage at `k`.
pub open spec fn cleared_before(events: Seq<ReEnableEvent>, k: int) -> bool {
    exists|m: int| 0 <= m < k && (#[trigger] events[m]) is Cleared
}

proof fn lemma_stage_knows_what_was_cleared(
    stages: Seq<ReEnableStage>,
    events: Seq<ReEnableEvent>,
    actions: Seq<ReEnableAction>,
    k: int,
)
    requires
        is_run(stages, events, actions),
        0 <= k < stages.len(),
    ensures
        match stages[k] {
            ReEnableStage::LookingUp => !cleared_before(events, k),
            ReEnableStage::Clearing { .. } => !cleared_before(events, k),
            ReEnableStage::Mirroring { cleared } => cleared is Some <==> cleared_before(events, k),
            ReEnableStage::WritingBack { cleared } => cleared is Some <==> cleared_before(
                events,
                k,
            ),
            ReEnableStage::Recording { cleared, .. } => cleared is Some <==> cleared_before(
                events,
                k,
            ),
            ReEnableStage::Publishing { .. } => cleared_before(events, k),
            ReEnableStage::Ended => true,
        },
    decreases k,
{
    if k > 0 {
        lemma_stage_knows_what_was_cleared(stages, events, actions, k - 1);
        assert(is_step(stages[k - 1], events[k - 1], stages[k], actions[k]));
        if cleared_before(events, k - 1) {
            let m = choose|m: int| 0 <= m < k - 1 && (#[trigger] events[m]) is Cleared;
            assert(events[m] is Cleared);
            assert(cleared_before(events, k));
        }
        if cleared_before(events, k) && !cleared_before(events, k - 1) {
            let m = choose|m: int| 0 <= m < k && (#[trigger] events[m]) is Cleared;
            assert(m == k - 1);
        }
    }
}

/// The outcome says that an assignment was cleared exactly where one was, and how the
/// write-back went.
pub proof fn law_reports_what_was_done(
    stages: Seq<ReEnableStage>,
    events: Seq<ReEnableEvent>,
    actions: Seq<ReEnableAction>,
    outcome: ReEnableOutcome,
)
    requires
        is_run(stages, events, actions),
        actions.last() == (ReEnableAction::Finish { outcome }),
    ensures
        outcome.local_cleared <==> cleared_before(events, events.len() as int),
        exists|m: int|
            0 <= m < events.len() && (#[trigger] events[m] matches ReEnableEvent::WrittenBack {
                result,
            } && match result {
                Ok(_) => outcome.writeback is Ok,
                Err(error) => outcome.writeback matches Err(kept) && kept.0@ == error.text(),
            }),
{
    let n = events.len() as int;
    assert(n > 0);
    assert(is_step(stages[n - 1], events[n - 1], stages[n], actions[n]));
    lemma_stage_knows_what_was_cleared(stages, events, actions, n - 1);
    if cleared_before(events, n) && !cleared_before(events, n - 1) {
        let m = choose|m: int| 0 <= m < n && (#[trigger] events[m]) is Cleared;
        assert(m == n - 1);
    }
    if cleared_before(events, n - 1) {
        let m = choose|m: int| 0 <= m < n - 1 && (#[trigger] events[m]) is Cleared;
        assert(events[m] is Cleared);
    }
    if !(events[n - 1] is WrittenBack) {
        assert(n > 1);
        assert(is_step(stages[n - 2], events[n - 2], stages[n - 1], actions[n - 1]));
        if !(events[n - 2] is WrittenBack) {
            assert(n > 2);
            assert(is_step(stages[n - 3], events[n - 3], stages[n - 2], actions[n - 2]));
            assert(events[n - 3] is WrittenBack);
        }
    }
}

} // verus!
