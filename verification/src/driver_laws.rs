//! How the machines that drive a Plan Run begin, go on, and wait.

use vstd::prelude::*;

#[allow(unused_imports)]
use crate::assignment_loop;
#[allow(unused_imports)]
use crate::assignment_loop::{LoopAction, LoopConfig, LoopEvent, LoopStage};
#[allow(unused_imports)]
use crate::boot_container_sweeper;
#[allow(unused_imports)]
use crate::boot_container_sweeper::{SandboxContainer, Sweep, SweepAction, SweepEvent, SweepStage};
#[allow(unused_imports)]
use crate::boot_recovery_scanner;
#[allow(unused_imports)]
use crate::boot_recovery_scanner::{
    InFlightPhaseRowSummary, Recovery, RecoveryAction, RecoveryEvent, RecoveryStage,
};
#[allow(unused_imports)]
use crate::in_flight_phase_tracker;
#[allow(unused_imports)]
use crate::in_flight_phase_tracker::{TrackEvent, TrackStage};
#[allow(unused_imports)]
use crate::merge_driver;
#[allow(unused_imports)]
use crate::merge_driver::{MergeAction, MergeEvent, MergeItem, MergeRun, MergeStage};
#[allow(unused_imports)]
use crate::planning_driver;
#[allow(unused_imports)]
use crate::planning_driver::{PlanningAction, PlanningEvent, PlanningStage};
#[allow(unused_imports)]
use crate::re_enable_source_issue;
#[allow(unused_imports)]
use crate::re_enable_source_issue::{ReEnableAction, ReEnableEvent, ReEnableStage};

verus! {

// --- Going on ---

/// A step goes on with a run of a Merge Phase: what held of the run up to there holds with the
/// next event and the next action too.
pub proof fn law_merge_goes_on(
    runs: Seq<MergeRun>,
    events: Seq<MergeEvent>,
    actions: Seq<MergeAction>,
    event: MergeEvent,
    next: (MergeRun, MergeAction),
)
    requires
        merge_driver::is_run(runs, events, actions),
        call_ensures(merge_driver::step, (runs.last(), event), next),
    ensures
        merge_driver::is_run(runs.push(next.0), events.push(event), actions.push(next.1)),
{
    let more = events.push(event);
    assert forall|k: int| 0 <= k < more.len() implies merge_driver::is_step(
        runs.push(next.0)[k],
        #[trigger] more[k],
        runs.push(next.0)[k + 1],
        actions.push(next.1)[k + 1],
    ) by {
        if k < events.len() {
            assert(more[k] == events[k]);
        }
    }
}

/// A step goes on with a run of a Planning Phase: what held of the run up to there holds with the
/// next event and the next action too.
pub proof fn law_planning_goes_on(
    has_issue_source: bool,
    stages: Seq<PlanningStage>,
    events: Seq<PlanningEvent>,
    actions: Seq<PlanningAction>,
    event: PlanningEvent,
    next: (PlanningStage, PlanningAction),
)
    requires
        planning_driver::is_run(has_issue_source, stages, events, actions),
        call_ensures(planning_driver::step, (has_issue_source, stages.last(), event), next),
    ensures
        planning_driver::is_run(has_issue_source, stages.push(next.0), events.push(event), actions.push(next.1)),
{
    let more = events.push(event);
    assert forall|k: int| 0 <= k < more.len() implies planning_driver::is_step(
        has_issue_source, stages.push(next.0)[k],
        #[trigger] more[k],
        stages.push(next.0)[k + 1],
        actions.push(next.1)[k + 1],
    ) by {
        if k < events.len() {
            assert(more[k] == events[k]);
        }
    }
}

/// A step goes on with a run of a Review Loop: what held of the run up to there holds with the
/// next event and the next action too.
pub proof fn law_review_goes_on(
    config: LoopConfig,
    stages: Seq<LoopStage>,
    events: Seq<LoopEvent>,
    actions: Seq<LoopAction>,
    event: LoopEvent,
    next: (LoopStage, LoopAction),
)
    requires
        assignment_loop::is_run(config, stages, events, actions),
        call_ensures(assignment_loop::step, (config, stages.last(), event), next),
    ensures
        assignment_loop::is_run(config, stages.push(next.0), events.push(event), actions.push(next.1)),
{
    let more = events.push(event);
    assert forall|k: int| 0 <= k < more.len() implies assignment_loop::is_step(
        config, stages.push(next.0)[k],
        #[trigger] more[k],
        stages.push(next.0)[k + 1],
        actions.push(next.1)[k + 1],
    ) by {
        if k < events.len() {
            assert(more[k] == events[k]);
        }
    }
}

/// A step goes on with a run of a recovery: what held of the run up to there holds with the
/// next event and the next action too.
pub proof fn law_recovery_goes_on(
    runs: Seq<Recovery>,
    events: Seq<RecoveryEvent>,
    actions: Seq<RecoveryAction>,
    event: RecoveryEvent,
    next: (Recovery, RecoveryAction),
)
    requires
        boot_recovery_scanner::is_run(runs, events, actions),
        call_ensures(boot_recovery_scanner::step, (runs.last(), event), next),
    ensures
        boot_recovery_scanner::is_run(runs.push(next.0), events.push(event), actions.push(next.1)),
{
    let more = events.push(event);
    assert forall|k: int| 0 <= k < more.len() implies boot_recovery_scanner::is_step(
        runs.push(next.0)[k],
        #[trigger] more[k],
        runs.push(next.0)[k + 1],
        actions.push(next.1)[k + 1],
    ) by {
        if k < events.len() {
            assert(more[k] == events[k]);
        }
    }
}

/// A step goes on with a run of a sweep: what held of the run up to there holds with the
/// next event and the next action too.
pub proof fn law_sweep_goes_on(
    runs: Seq<Sweep>,
    events: Seq<SweepEvent>,
    actions: Seq<SweepAction>,
    event: SweepEvent,
    next: (Sweep, SweepAction),
)
    requires
        boot_container_sweeper::is_run(runs, events, actions),
        call_ensures(boot_container_sweeper::step, (runs.last(), event), next),
    ensures
        boot_container_sweeper::is_run(runs.push(next.0), events.push(event), actions.push(next.1)),
{
    let more = events.push(event);
    assert forall|k: int| 0 <= k < more.len() implies boot_container_sweeper::is_step(
        runs.push(next.0)[k],
        #[trigger] more[k],
        runs.push(next.0)[k + 1],
        actions.push(next.1)[k + 1],
    ) by {
        if k < events.len() {
            assert(more[k] == events[k]);
        }
    }
}

/// A step goes on with a run of making an issue ready again: what held of the run up to there holds with the
/// next event and the next action too.
pub proof fn law_re_enable_goes_on(
    stages: Seq<ReEnableStage>,
    events: Seq<ReEnableEvent>,
    actions: Seq<ReEnableAction>,
    event: ReEnableEvent,
    next: (ReEnableStage, ReEnableAction),
)
    requires
        re_enable_source_issue::is_run(stages, events, actions),
        call_ensures(re_enable_source_issue::step, (stages.last(), event), next),
    ensures
        re_enable_source_issue::is_run(stages.push(next.0), events.push(event), actions.push(next.1)),
{
    let more = events.push(event);
    assert forall|k: int| 0 <= k < more.len() implies re_enable_source_issue::is_step(
        stages.push(next.0)[k],
        #[trigger] more[k],
        stages.push(next.0)[k + 1],
        actions.push(next.1)[k + 1],
    ) by {
        if k < events.len() {
            assert(more[k] == events[k]);
        }
    }
}

// --- Beginning ---

/// Merging begins a run over the assignments that it was given.
pub proof fn law_merge_begins(
    items: Vec<MergeItem>,
    has_issue_source: bool,
    first: (MergeRun, MergeAction),
)
    requires
        call_ensures(merge_driver::start, (items, has_issue_source), first),
    ensures
        merge_driver::is_run(seq![first.0], seq![], seq![first.1]),
        first.0.items@ == items@,
        first.0.has_issue_source == has_issue_source,
{
}

/// Planning begins with the eligible issues, a Review Loop with the text of the issue, and
/// making an issue ready again with its assignment.
pub proof fn law_phases_begin(
    has_issue_source: bool,
    planning: (PlanningStage, PlanningAction),
    config: LoopConfig,
    review: (LoopStage, LoopAction),
    re_enable: (ReEnableStage, ReEnableAction),
)
    requires
        call_ensures(planning_driver::start, (), planning),
        call_ensures(assignment_loop::start, (), review),
        call_ensures(re_enable_source_issue::start, (), re_enable),
    ensures
        planning.1 is LoadSnapshot,
        review.1 is LoadSourceText,
        re_enable.1 is LookUp,
        planning_driver::is_run(has_issue_source, seq![planning.0], seq![], seq![planning.1]),
        assignment_loop::is_run(config, seq![review.0], seq![], seq![review.1]),
        re_enable_source_issue::is_run(seq![re_enable.0], seq![], seq![re_enable.1]),
{
}

/// A recovery begins a run over the rows that it was given. It has scanned every one of them and
/// done nothing yet.
pub proof fn law_recovery_begins(
    rows: Vec<InFlightPhaseRowSummary>,
    first: (Recovery, RecoveryAction),
)
    requires
        call_ensures(boot_recovery_scanner::start, (rows,), first),
    ensures
        boot_recovery_scanner::is_run(seq![first.0], seq![], seq![first.1]),
        first.0.rows@ == rows@,
        first.0.report.rows_scanned == rows@.len(),
        first.0.report.assignments_blocked == 0,
        first.0.report.plan_runs_finished == 0,
        first.0.report.planning_rows_recovered == 0,
{
}

/// A sweep has inspected every container that was listed and done nothing yet. It begins with
/// the first one: its assignment is read, or its Plan Run where it has no assignment. Where the
/// listing failed, it is over, and says that Docker could not be reached.
pub proof fn law_sweep_begins(
    listed: Result<Vec<SandboxContainer>, String>,
    first: (Sweep, SweepAction),
)
    requires
        call_ensures(boot_container_sweeper::start, (listed,), first),
    ensures
        first.0.report.docker_unavailable <==> listed is Err,
        first.0.report.containers_killed == 0,
        first.0.report.containers_removed == 0,
        first.0.report.assignments_blocked == 0,
        listed is Err ==> first.1 is Finish && first.0.report.containers_inspected == 0,
        listed matches Ok(containers) ==> {
            &&& boot_container_sweeper::is_run(seq![first.0], seq![], seq![first.1])
            &&& first.0.containers@ == containers@
            &&& first.0.report.containers_inspected == containers@.len()
            &&& containers@.len() == 0 ==> first.1 is Finish
            &&& containers@.len() > 0 && containers@[0].assignment_id is Some ==> first.1
                is ReadAssignment
            &&& containers@.len() > 0 && containers@[0].assignment_id is None ==> first.1
                is ReadPlanRun
        },
{
}

// --- Waiting ---

/// What merging waits for at each place, and that it takes nothing else.
pub proof fn law_merge_awaits(stage: MergeStage, event: MergeEvent, yes: bool)
    requires
        call_ensures(merge_driver::is_awaited, (&stage, &event), yes),
    ensures
        event is Stored ==> (yes <==> stage is Entering || stage is RecordingOutput || stage is Staging || stage is Blocking || stage is Promoting || stage is FinishingRun || stage is Reloading),
        event is Ran ==> (yes <==> stage is Merging),
        event is Pushed ==> (yes <==> stage is Pushing),
        event is Written ==> (yes <==> stage is WritingBlocked || stage is WritingCompleted),
        event is Noted ==> (yes <==> stage is RecordingFailure || stage is NotingBlocked || stage is RecordingPushFailure || stage is NotingCompleted || stage is Cleaning),
{
}

/// What planning waits for at each place, and that it takes nothing else.
pub proof fn law_planning_awaits(stage: PlanningStage, event: PlanningEvent, yes: bool)
    requires
        call_ensures(planning_driver::is_awaited, (&stage, &event), yes),
    ensures
        event is Snapshot ==> (yes <==> stage is LoadingEligible || stage is LoadingSnapshot),
        event is Ran ==> (yes <==> stage is Planning),
        event is Config ==> (yes <==> stage is LoadingConfig),
        event is Stored ==> (yes <==> stage is RecordingEmpty || stage is FinishingEmpty || stage is Creating || stage is Placing || stage is RecordingPlan),
        event is Provisioned ==> (yes <==> stage is Provisioning),
        event is Written ==> (yes <==> stage is Claiming),
        event is TrancheEnded ==> (yes <==> stage is RunningTranche),
        event is Noted ==> (yes <==> stage is RecordingFailure || stage is Closing || stage is Releasing),
{
}

/// What a Review Loop waits for at each place, and that it takes nothing else.
pub proof fn law_review_awaits(stage: LoopStage, event: LoopEvent, yes: bool)
    requires
        call_ensures(assignment_loop::is_awaited, (&stage, &event), yes),
    ensures
        event is Stored ==> (yes <==> stage is Loading || stage is EnteringImplementation || stage is RecordingImplementation || stage is EnteringReview || stage is RecordingReview || stage is Approving || stage is Blocking),
        event is Ran ==> (yes <==> stage is Implementing || stage is Reviewing),
        event is Counted ==> (yes <==> stage is Counting),
        event is Written ==> (yes <==> stage is WritingBack),
        event is Noted ==> (yes <==> stage is NotingWriteback || stage is RecordingFailure || stage is MarkingBlocked),
{
}

/// What a recovery waits for at each place, and that it takes nothing else.
pub proof fn law_recovery_awaits(stage: RecoveryStage, event: RecoveryEvent, yes: bool)
    requires
        call_ensures(boot_recovery_scanner::is_awaited, (&stage, &event), yes),
    ensures
        event is Marked ==> (yes <==> stage is MarkingPlanning || stage is MarkingSettled || stage is MarkingBlocked),
        event is AssignmentRead ==> (yes <==> stage is ReadingAssignment),
        event is Blocked ==> (yes <==> stage is Blocking),
        event is Published ==> (yes <==> stage is PublishingBlock || stage is PublishingPlanRun),
        event is PlanRunRead ==> (yes <==> stage is ReadingPlanRun),
        event is PlanRunFinished ==> (yes <==> stage is FinishingPlanRun),
        event is Unavailable ==> (yes <==> stage is MarkingPlanning || stage is MarkingSettled || stage is MarkingBlocked || stage is ReadingAssignment || stage is Blocking || stage is ReadingPlanRun || stage is FinishingPlanRun),
{
}

/// What a sweep waits for at each place, and that it takes nothing else.
pub proof fn law_sweep_awaits(stage: SweepStage, event: SweepEvent, yes: bool)
    requires
        call_ensures(boot_container_sweeper::is_awaited, (stage, &event), yes),
    ensures
        event is AssignmentRead ==> (yes <==> stage is OwnerAssignment || stage is Rereading),
        event is AssignmentUnread ==> (yes <==> stage is OwnerAssignment || stage is Rereading),
        event is PlanRunRead ==> (yes <==> stage is OwnerPlanRun),
        event is PlanRunUnread ==> (yes <==> stage is OwnerPlanRun),
        event is Killed ==> (yes <==> stage is Killing),
        event is Removed ==> (yes <==> stage is RemovingSettled || stage is Removing),
        event is Blocked ==> (yes <==> stage is Blocking),
        event is NotBlocked ==> (yes <==> stage is Blocking),
        event is Published ==> (yes <==> stage is Publishing),
{
}

/// What making an issue ready again waits for at each place, and that it takes nothing else.
pub proof fn law_re_enable_awaits(stage: ReEnableStage, event: ReEnableEvent, yes: bool)
    requires
        call_ensures(re_enable_source_issue::is_awaited, (&stage, &event), yes),
    ensures
        event is Found ==> (yes <==> stage is LookingUp),
        event is Cleared ==> (yes <==> stage is Clearing),
        event is Unavailable ==> (yes <==> stage is LookingUp || stage is Clearing),
        event is Mirrored ==> (yes <==> stage is Mirroring),
        event is WrittenBack ==> (yes <==> stage is WritingBack),
        event is Recorded ==> (yes <==> stage is Recording),
        event is Published ==> (yes <==> stage is Publishing),
{
}

/// What a tracked phase waits for at each place, and that it takes nothing else.
pub proof fn law_tracker_awaits(stage: TrackStage, event: TrackEvent, yes: bool)
    requires
        call_ensures(in_flight_phase_tracker::is_awaited, (&stage, &event), yes),
    ensures
        event is Inserted ==> (yes <==> stage is Inserting),
        event is Succeeded ==> (yes <==> stage is Running),
        event is Failed ==> (yes <==> stage is Running),
        event is Written ==> (yes <==> stage is Completing || stage is Failing),
        event is Unavailable ==> (yes <==> stage is Inserting || stage is Completing || stage is Failing),
{
}

} // verus!
