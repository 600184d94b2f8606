//! Recovering what an earlier process left in flight.

use vstd::prelude::*;

use crate::contracts::BlockReason;
use crate::problem::{PersistenceError, PersistenceErrorKind};
use crate::text::{concat, same_text};
#[allow(unused_imports)]
use crate::text::views;
use crate::text_order::insert_ascending;
#[allow(unused_imports)]
use crate::text_order::ascending;

verus! {

/// The kind of the activity for an assignment that a restart blocked.
pub const ACTIVITY_KIND_ASSIGNMENT_BLOCKED_ON_RESTART: &'static str =
    "assignment_blocked_on_restart";

/// The state of a Plan Run that a recovery finished.
pub const PLAN_RUN_TERMINAL_FINISHED: &'static str = "finished";

/// The detail of the block of an assignment.
pub const RESTART_BLOCK_DETAIL: &'static str =
    "orchestrator restarted while this phase was running";

/// A phase that was left in flight.
#[derive(Clone, Debug, Eq, PartialEq)]
pub struct InFlightPhaseRowSummary {
    pub id: String,
    pub plan_run_id: String,
    /// The assignment; `None` for a Planning Phase.
    pub assignment_id: Option<String>,
    pub phase: String,
    pub outcome: String,
    pub process_id: Option<u32>,
}

/// What a recovery did.
#[derive(Clone, Debug, Eq, PartialEq)]
pub struct RecoveryReport {
    pub rows_scanned: usize,
    pub assignments_blocked: usize,
    pub plan_runs_finished: usize,
    pub planning_rows_recovered: usize,
}

impl Default for RecoveryReport {
    fn default() -> (report: RecoveryReport)
        ensures
            report == (RecoveryReport {
                rows_scanned: 0,
                assignments_blocked: 0,
                plan_runs_finished: 0,
                planning_rows_recovered: 0,
            }),
    {
        RecoveryReport {
            rows_scanned: 0,
            assignments_blocked: 0,
            plan_runs_finished: 0,
            planning_rows_recovered: 0,
        }
    }
}

/// Where the recovery stands.
#[derive(Clone, Debug, Eq, PartialEq)]
pub enum RecoveryStage {
    /// The row of a Planning Phase is marked.
    MarkingPlanning,
    /// The assignment of the row is read.
    ReadingAssignment,
    /// The row of an assignment that has come to rest is marked.
    MarkingSettled,
    Blocking,
    /// The row of a blocked assignment is marked.
    MarkingBlocked { source_id: String },
    /// The block is published.
    PublishingBlock,
    /// The Plan Run is read.
    ReadingPlanRun,
    FinishingPlanRun,
    /// The end of the Plan Run is published.
    PublishingPlanRun,
    Finished,
    Failed,
}

/// What the recovery is told.
#[derive(Clone, Debug, Eq, PartialEq)]
pub enum RecoveryEvent {
    Marked,
    /// The status of the assignment.
    AssignmentRead { status: String },
    /// The assignment is blocked; its Source Issue.
    Blocked { source_id: String },
    Published,
    /// The state of the Plan Run, and the statuses of its assignments.
    PlanRunRead { state: String, statuses: Vec<String> },
    PlanRunFinished,
    /// What was asked for failed.
    Unavailable { error: PersistenceError },
}

/// What the recovery asks for. Each speaks of the row, or of the Plan Run, that
/// the recovery stands at.
#[derive(Clone, Debug, Eq, PartialEq)]
pub enum RecoveryAction {
    /// Mark the row as interrupted.
    MarkRow,
    ReadAssignment,
    Block { reason: BlockReason, detail: String },
    /// Record an activity, and publish the changed assignment.
    PublishBlock { kind: String, detail: String },
    ReadPlanRun,
    FinishPlanRun { state: String },
    PublishPlanRun,
    Finish,
    Fail { error: PersistenceError },
}

/// A recovery of the rows, and then of their Plan Runs.
#[derive(Clone, Debug, Eq, PartialEq)]
pub struct Recovery {
    pub rows: Vec<InFlightPhaseRowSummary>,
    /// The row that the recovery stands at.
    pub at: usize,
    /// The Plan Runs of the rows, in order and each once.
    pub plan_runs: Vec<String>,
    /// The Plan Run that the recovery stands at.
    pub run_at: usize,
    pub stage: RecoveryStage,
    pub report: RecoveryReport,
}

/// The recovery is at the rows.
pub open spec fn at_rows(stage: RecoveryStage) -> bool {
    match stage {
        RecoveryStage::MarkingPlanning => true,
        RecoveryStage::ReadingAssignment => true,
        RecoveryStage::MarkingSettled => true,
        RecoveryStage::Blocking => true,
        RecoveryStage::MarkingBlocked { source_id } => true,
        RecoveryStage::PublishingBlock => true,
        _ => false,
    }
}

/// The recovery is at the Plan Runs.
pub open spec fn at_plan_runs(stage: RecoveryStage) -> bool {
    stage is ReadingPlanRun || stage is FinishingPlanRun || stage is PublishingPlanRun
}

/// The list holds the Plan Runs of the rows, in order and each once.
pub open spec fn are_plan_runs_of(
    plan_runs: Seq<Seq<char>>,
    rows: Seq<InFlightPhaseRowSummary>,
) -> bool {
    &&& ascending(plan_runs)
    &&& forall|id: Seq<char>|
        #[trigger] plan_runs.contains(id) <==> exists|i: int|
            0 <= i < rows.len() && (#[trigger] rows[i]).plan_run_id@ == id
}

impl Recovery {
    /// The recovery stands at a row or a Plan Run while it runs, and has not
    /// counted more than it has dealt with.
    pub open spec fn well_formed(&self) -> bool {
        &&& are_plan_runs_of(views(self.plan_runs@), self.rows@)
        &&& self.at <= self.rows.len()
        &&& self.run_at <= self.plan_runs.len()
        &&& self.report.planning_rows_recovered <= self.at
        &&& self.report.assignments_blocked <= self.at
        &&& self.report.plan_runs_finished <= self.run_at + (if self.stage is PublishingPlanRun {
            1int
        } else {
            0
        })
        &&& at_rows(self.stage) ==> self.at < self.rows.len() && self.run_at == 0 && (
        self.rows[self.at as int].assignment_id is None <==> self.stage is MarkingPlanning)
        &&& at_plan_runs(self.stage) ==> self.at == self.rows.len() && self.run_at
            < self.plan_runs.len()
    }
}

/// The recovery takes up the Plan Run at `run_at`, or ends behind the last one.
pub open spec fn takes_up_run(after: Recovery, run_at: int, action: RecoveryAction) -> bool {
    &&& after.at == after.rows.len()
    &&& after.run_at == run_at
    &&& if run_at < after.plan_runs.len() {
        after.stage is ReadingPlanRun && action is ReadPlanRun
    } else {
        after.stage is Finished && action is Finish
    }
}

/// The recovery takes up the row at `at`; behind the last one it takes up the
/// Plan Runs.
pub open spec fn takes_up_row(after: Recovery, at: int, action: RecoveryAction) -> bool {
    if at < after.rows.len() {
        &&& after.at == at
        &&& after.run_at == 0
        &&& if after.rows[at].assignment_id is Some {
            after.stage is ReadingAssignment && action is ReadAssignment
        } else {
            after.stage is MarkingPlanning && action is MarkRow
        }
    } else {
        takes_up_run(after, 0, action)
    }
}

/// The recovery stays at its row or Plan Run.
pub open spec fn stays(before: Recovery, after: Recovery) -> bool {
    after.at == before.at && after.run_at == before.run_at
}

/// The assignment is left as it is: it is merged, blocked, or waits for its push.
pub open spec fn is_settled(status: Seq<char>) -> bool {
    status == "merge_staged"@ || status == "merged"@ || status == "blocked"@
}

/// The assignment has ended.
pub open spec fn is_terminal(status: Seq<char>) -> bool {
    status == "merged"@ || status == "blocked"@
}

/// The Plan Run is over: it was running, and each of its assignments has ended.
pub open spec fn is_over(state: Seq<char>, statuses: Seq<Seq<char>>) -> bool {
    &&& state == "running"@
    &&& forall|i: int| 0 <= i < statuses.len() ==> is_terminal(#[trigger] statuses[i])
}

/// The detail of the activity for a blocked assignment.
pub open spec fn activity_detail(phase: Seq<char>, source_id: Seq<char>) -> Seq<char> {
    "blocked on orchestrator restart during "@ + phase + " phase (source="@ + source_id + ")"@
}

/// What the recovery awaits.
pub open spec fn awaits(stage: RecoveryStage, event: RecoveryEvent) -> bool {
    match stage {
        RecoveryStage::MarkingPlanning => event is Marked || event is Unavailable,
        RecoveryStage::MarkingSettled => event is Marked || event is Unavailable,
        RecoveryStage::MarkingBlocked { source_id } => event is Marked || event is Unavailable,
        RecoveryStage::ReadingAssignment => event is AssignmentRead || event is Unavailable,
        RecoveryStage::Blocking => event is Blocked || event is Unavailable,
        RecoveryStage::PublishingBlock => event is Published,
        RecoveryStage::ReadingPlanRun => event is PlanRunRead || event is Unavailable,
        RecoveryStage::FinishingPlanRun => event is PlanRunFinished || event is Unavailable,
        RecoveryStage::PublishingPlanRun => event is Published,
        RecoveryStage::Finished => false,
        RecoveryStage::Failed => false,
    }
}

/// How the recovery goes on. Each row is marked. The assignment of a row is
/// blocked first, unless it is left as it is. Behind the rows, each Plan Run that
/// is over is finished. What fails ends the recovery, except that a Plan Run which
/// is gone is passed over.
pub open spec fn is_step(
    before: Recovery,
    event: RecoveryEvent,
    after: Recovery,
    action: RecoveryAction,
) -> bool {
    let report = before.report;
    &&& after.rows == before.rows
    &&& after.plan_runs == before.plan_runs
    &&& match event {
        RecoveryEvent::Unavailable { error } => {
            &&& after.report == report
            &&& if before.stage is ReadingPlanRun && error.kind == PersistenceErrorKind::NotFound {
                takes_up_run(after, before.run_at + 1, action)
            } else {
                &&& stays(before, after)
                &&& after.stage is Failed
                &&& action == (RecoveryAction::Fail { error })
            }
        },
        RecoveryEvent::Marked => match before.stage {
            RecoveryStage::MarkingPlanning => {
                &&& after.report == (RecoveryReport {
                    planning_rows_recovered: (report.planning_rows_recovered + 1) as usize,
                    ..report
                })
                &&& takes_up_row(after, before.at + 1, action)
            },
            RecoveryStage::MarkingSettled => {
                &&& after.report == report
                &&& takes_up_row(after, before.at + 1, action)
            },
            RecoveryStage::MarkingBlocked { source_id } => {
                &&& after.report == report
                &&& stays(before, after)
                &&& after.stage is PublishingBlock
                &&& action matches RecoveryAction::PublishBlock { kind, detail } && kind@
                    == ACTIVITY_KIND_ASSIGNMENT_BLOCKED_ON_RESTART@ && detail@ == activity_detail(
                    before.rows[before.at as int].phase@,
                    source_id@,
                )
            },
            _ => false,
        },
        RecoveryEvent::AssignmentRead { status } => {
            &&& before.stage is ReadingAssignment
            &&& after.report == report
            &&& stays(before, after)
            &&& if is_settled(status@) {
                after.stage is MarkingSettled && action is MarkRow
            } else {
                &&& after.stage is Blocking
                &&& action matches RecoveryAction::Block { reason, detail } && reason
                    == BlockReason::OrchestratorRestart && detail@ == RESTART_BLOCK_DETAIL@
            }
        },
        RecoveryEvent::Blocked { source_id } => {
            &&& before.stage is Blocking
            &&& after.report == report
            &&& stays(before, after)
            &&& after.stage == (RecoveryStage::MarkingBlocked { source_id })
            &&& action is MarkRow
        },
        RecoveryEvent::Published => match before.stage {
            RecoveryStage::PublishingBlock => {
                &&& after.report == (RecoveryReport {
                    assignments_blocked: (report.assignments_blocked + 1) as usize,
                    ..report
                })
                &&& takes_up_row(after, before.at + 1, action)
            },
            RecoveryStage::PublishingPlanRun => {
                &&& after.report == report
                &&& takes_up_run(after, before.run_at + 1, action)
            },
            _ => false,
        },
        RecoveryEvent::PlanRunRead { state, statuses } => {
            &&& before.stage is ReadingPlanRun
            &&& after.report == report
            &&& if is_over(state@, views(statuses@)) {
                &&& stays(before, after)
                &&& after.stage is FinishingPlanRun
                &&& action matches RecoveryAction::FinishPlanRun { state: terminal } && terminal@
                    == PLAN_RUN_TERMINAL_FINISHED@
            } else {
                takes_up_run(after, before.run_at + 1, action)
            }
        },
        RecoveryEvent::PlanRunFinished => {
            &&& before.stage is FinishingPlanRun
            &&& after.report == (RecoveryReport {
                plan_runs_finished: (report.plan_runs_finished + 1) as usize,
                ..report
            })
            &&& stays(before, after)
            &&& after.stage is PublishingPlanRun
            &&& action is PublishPlanRun
        },
    }
}

fn plan_runs_of(rows: &Vec<InFlightPhaseRowSummary>) -> (plan_runs: Vec<String>)
    ensures
        are_plan_runs_of(views(plan_runs@), rows@),
{
    let mut plan_runs: Vec<String> = Vec::new();
    let mut i: usize = 0;
    while i < rows.len()
        invariant
            i <= rows.len(),
            ascending(views(plan_runs@)),
            forall|id: Seq<char>|
                #[trigger] views(plan_runs@).contains(id) <==> exists|k: int|
                    0 <= k < i && (#[trigger] rows@[k]).plan_run_id@ == id,
        decreases rows.len() - i,
    {
        let ghost before = views(plan_runs@);
        insert_ascending(&mut plan_runs, rows[i].plan_run_id.as_str());
        proof {
            let after = views(plan_runs@);
            assert forall|id: Seq<char>| #[trigger] after.contains(id) <==> exists|k: int|
                0 <= k < i + 1 && (#[trigger] rows@[k]).plan_run_id@ == id by {
                if after.contains(id) {
                    if id == rows@[i as int].plan_run_id@ {
                    } else {
                        assert(before.contains(id));
                        let k = choose|k: int|
                            0 <= k < i && (#[trigger] rows@[k]).plan_run_id@ == id;
                        assert(rows@[k].plan_run_id@ == id);
                    }
                }
                if exists|k: int| 0 <= k < i + 1 && (#[trigger] rows@[k]).plan_run_id@ == id {
                    let k = choose|k: int|
                        0 <= k < i + 1 && (#[trigger] rows@[k]).plan_run_id@ == id;
                    if k < i {
                        assert(before.contains(id));
                    }
                }
            }
        }
        i += 1;
    }
    plan_runs
}

fn take_up_run(recovery: Recovery, run_at: usize) -> (next: (Recovery, RecoveryAction))
    requires
        are_plan_runs_of(views(recovery.plan_runs@), recovery.rows@),
        run_at <= recovery.plan_runs.len(),
        recovery.report.planning_rows_recovered <= recovery.rows.len(),
        recovery.report.assignments_blocked <= recovery.rows.len(),
        recovery.report.plan_runs_finished <= run_at,
    ensures
        next.0.rows == recovery.rows,
        next.0.plan_runs == recovery.plan_runs,
        next.0.report == recovery.report,
        takes_up_run(next.0, run_at as int, next.1),
        next.0.well_formed(),
{
    let mut recovery = recovery;
    recovery.at = recovery.rows.len();
    recovery.run_at = run_at;
    if run_at < recovery.plan_runs.len() {
        recovery.stage = RecoveryStage::ReadingPlanRun;
        (recovery, RecoveryAction::ReadPlanRun)
    } else {
        recovery.stage = RecoveryStage::Finished;
        (recovery, RecoveryAction::Finish)
    }
}

fn take_up_row(recovery: Recovery, at: usize) -> (next: (Recovery, RecoveryAction))
    requires
        are_plan_runs_of(views(recovery.plan_runs@), recovery.rows@),
        at <= recovery.rows.len(),
        recovery.report.planning_rows_recovered <= at,
        recovery.report.assignments_blocked <= at,
        recovery.report.plan_runs_finished == 0,
    ensures
        next.0.rows == recovery.rows,
        next.0.plan_runs == recovery.plan_runs,
        next.0.report == recovery.report,
        takes_up_row(next.0, at as int, next.1),
        next.0.well_formed(),
{
    if at >= recovery.rows.len() {
        return take_up_run(recovery, 0);
    }
    let owned = recovery.rows[at].assignment_id.is_some();
    let mut recovery = recovery;
    recovery.at = at;
    recovery.run_at = 0;
    if owned {
        recovery.stage = RecoveryStage::ReadingAssignment;
        (recovery, RecoveryAction::ReadAssignment)
    } else {
        recovery.stage = RecoveryStage::MarkingPlanning;
        (recovery, RecoveryAction::MarkRow)
    }
}

/// Begin the recovery of the rows.
pub fn start(rows: Vec<InFlightPhaseRowSummary>) -> (first: (Recovery, RecoveryAction))
    ensures
        first.0.well_formed(),
        first.0.rows == rows,
        takes_up_row(first.0, 0, first.1),
        first.0.report == (RecoveryReport {
            rows_scanned: rows.len(),
            assignments_blocked: 0,
            plan_runs_finished: 0,
            planning_rows_recovered: 0,
        }),
{
    let mut report = <RecoveryReport as Default>::default();
    report.rows_scanned = rows.len();
    let plan_runs = plan_runs_of(&rows);
    take_up_row(
        Recovery { rows, at: 0, plan_runs, run_at: 0, stage: RecoveryStage::Finished, report },
        0,
    )
}

/// Whether the recovery awaits the event.
pub fn is_awaited(stage: &RecoveryStage, event: &RecoveryEvent) -> (yes: bool)
    ensures
        yes == awaits(*stage, *event),
{
    match event {
        RecoveryEvent::Marked => match stage {
            RecoveryStage::MarkingPlanning | RecoveryStage::MarkingSettled => true,
            RecoveryStage::MarkingBlocked { .. } => true,
            _ => false,
        },
        RecoveryEvent::AssignmentRead { .. } => match stage {
            RecoveryStage::ReadingAssignment => true,
            _ => false,
        },
        RecoveryEvent::Blocked { .. } => match stage {
            RecoveryStage::Blocking => true,
            _ => false,
        },
        RecoveryEvent::Published => match stage {
            RecoveryStage::PublishingBlock | RecoveryStage::PublishingPlanRun => true,
            _ => false,
        },
        RecoveryEvent::PlanRunRead { .. } => match stage {
            RecoveryStage::ReadingPlanRun => true,
            _ => false,
        },
        RecoveryEvent::PlanRunFinished => match stage {
            RecoveryStage::FinishingPlanRun => true,
            _ => false,
        },
        RecoveryEvent::Unavailable { .. } => match stage {
            RecoveryStage::PublishingBlock | RecoveryStage::PublishingPlanRun => false,
            RecoveryStage::Finished | RecoveryStage::Failed => false,
            _ => true,
        },
    }
}

fn settled_status(status: &str) -> (yes: bool)
    ensures
        yes == is_settled(status@),
{
    same_text(status, "merge_staged") || same_text(status, "merged") || same_text(
        status,
        "blocked",
    )
}

fn plan_run_over(state: &str, statuses: &Vec<String>) -> (yes: bool)
    ensures
        yes == is_over(state@, views(statuses@)),
{
    let ghost all = views(statuses@);
    if !same_text(state, "running") {
        return false;
    }
    let mut i: usize = 0;
    while i < statuses.len()
        invariant
            i <= statuses.len(),
            all == views(statuses@),
            forall|k: int| 0 <= k < i ==> is_terminal(#[trigger] all[k]),
        decreases statuses.len() - i,
    {
        assert(all[i as int] == statuses@[i as int]@);
        let status = statuses[i].as_str();
        if !same_text(status, "merged") && !same_text(status, "blocked") {
            assert(!is_terminal(all[i as int]));
            return false;
        }
        i += 1;
    }
    true
}

fn activity_detail_of(phase: &str, source_id: &str) -> (detail: String)
    ensures
        detail@ == activity_detail(phase@, source_id@),
{
    let mut detail = concat("blocked on orchestrator restart during ", phase);
    detail.append(" phase (source=");
    detail.append(source_id);
    detail.append(")");
    detail
}

/// Go on with the recovery.
pub fn step(recovery: Recovery, event: RecoveryEvent) -> (next: (Recovery, RecoveryAction))
    requires
        recovery.well_formed(),
        awaits(recovery.stage, event),
    ensures
        next.0.well_formed(),
        is_step(recovery, event, next.0, next.1),
{
    let mut after = recovery;
    let at = after.at;
    let run_at = after.run_at;
    match event {
        RecoveryEvent::Unavailable { error } => {
            let gone = match (&after.stage, error.kind) {
                (RecoveryStage::ReadingPlanRun, PersistenceErrorKind::NotFound) => true,
                _ => false,
            };
            if gone {
                take_up_run(after, run_at + 1)
            } else {
                after.stage = RecoveryStage::Failed;
                (after, RecoveryAction::Fail { error })
            }
        },
        RecoveryEvent::Marked => match &after.stage {
            RecoveryStage::MarkingPlanning => {
                after.report.planning_rows_recovered += 1;
                take_up_row(after, at + 1)
            },
            RecoveryStage::MarkingBlocked { source_id } => {
                let detail = activity_detail_of(after.rows[at].phase.as_str(), source_id.as_str());
                after.stage = RecoveryStage::PublishingBlock;
                (
                    after,
                    RecoveryAction::PublishBlock {
                        kind: ACTIVITY_KIND_ASSIGNMENT_BLOCKED_ON_RESTART.to_owned(),
                        detail,
                    },
                )
            },
            _ => take_up_row(after, at + 1),
        },
        RecoveryEvent::AssignmentRead { status } => {
            if settled_status(status.as_str()) {
                after.stage = RecoveryStage::MarkingSettled;
                (after, RecoveryAction::MarkRow)
            } else {
                after.stage = RecoveryStage::Blocking;
                (
                    after,
                    RecoveryAction::Block {
                        reason: BlockReason::OrchestratorRestart,
                        detail: RESTART_BLOCK_DETAIL.to_owned(),
                    },
                )
            }
        },
        RecoveryEvent::Blocked { source_id } => {
            after.stage = RecoveryStage::MarkingBlocked { source_id };
            (after, RecoveryAction::MarkRow)
        },
        RecoveryEvent::Published => match &after.stage {
            RecoveryStage::PublishingBlock => {
                after.report.assignments_blocked += 1;
                take_up_row(after, at + 1)
            },
            _ => take_up_run(after, run_at + 1),
        },
        RecoveryEvent::PlanRunRead { state, statuses } => {
            if plan_run_over(state.as_str(), &statuses) {
                after.stage = RecoveryStage::FinishingPlanRun;
                (
                    after,
                    RecoveryAction::FinishPlanRun { state: PLAN_RUN_TERMINAL_FINISHED.to_owned() },
                )
            } else {
                take_up_run(after, run_at + 1)
            }
        },
        RecoveryEvent::PlanRunFinished => {
            after.report.plan_runs_finished += 1;
            after.stage = RecoveryStage::PublishingPlanRun;
            (after, RecoveryAction::PublishPlanRun)
        },
    }
}

// --- Laws ---

/// An assignment that is blocked, merged or waits for its push is neither blocked
/// nor does it get an activity: its row is marked, and the recovery goes on. So a
/// second recovery blocks nothing twice.
pub proof fn law_settled_assignment_is_kept(
    before: Recovery,
    event: RecoveryEvent,
    middle: Recovery,
    first: RecoveryAction,
    marked: RecoveryEvent,
    after: Recovery,
    second: RecoveryAction,
)
    requires
        before.well_formed(),
        event matches RecoveryEvent::AssignmentRead { status } && is_settled(status@),
        is_step(before, event, middle, first),
        marked is Marked,
        is_step(middle, marked, after, second),
    ensures
        first is MarkRow,
        takes_up_row(after, before.at + 1, second),
        after.report == before.report,
{
}

/// A recovery from its start: the states that it went through, the result that ended
/// each state but the last, and the action that each state began with.
pub open spec fn is_run(
    runs: Seq<Recovery>,
    events: Seq<RecoveryEvent>,
    actions: Seq<RecoveryAction>,
) -> bool {
    &&& runs.len() == events.len() + 1
    &&& actions.len() == events.len() + 1
    &&& takes_up_row(runs[0], 0, actions[0])
    &&& forall|k: int| 0 <= k < runs.len() ==> (#[trigger] runs[k]).well_formed()
    &&& forall|k: int|
        0 <= k < events.len() ==> is_step(
            runs[k],
            #[trigger] events[k],
            runs[k + 1],
            actions[k + 1],
        )
}

proof fn lemma_marking_begins(
    runs: Seq<Recovery>,
    events: Seq<RecoveryEvent>,
    actions: Seq<RecoveryAction>,
    k: int,
)
    requires
        is_run(runs, events, actions),
        0 <= k < runs.len(),
        runs[k].stage is MarkingPlanning || runs[k].stage is MarkingSettled || runs[k].stage
            is MarkingBlocked,
    ensures
        actions[k] is MarkRow,
{
    if k > 0 {
        assert(is_step(runs[k - 1], events[k - 1], runs[k], actions[k]));
    }
}

/// When a recovery has come past a row, it has marked the row.
proof fn lemma_passed_rows_are_marked(
    runs: Seq<Recovery>,
    events: Seq<RecoveryEvent>,
    actions: Seq<RecoveryAction>,
    k: int,
    row: int,
) -> (m: int)
    requires
        is_run(runs, events, actions),
        0 <= k < runs.len(),
        0 <= row < runs[k].at,
    ensures
        0 <= m < k,
        actions[m] is MarkRow,
        events[m] is Marked,
        runs[m].at == row,
    decreases k,
{
    assert(k > 0);
    assert(is_step(runs[k - 1], events[k - 1], runs[k], actions[k]));
    assert(runs[k - 1].well_formed() && runs[k].well_formed());
    if row < runs[k - 1].at {
        lemma_passed_rows_are_marked(runs, events, actions, k - 1, row)
    } else if runs[k - 1].stage is PublishingBlock {
        assert(k - 1 > 0);
        assert(is_step(runs[k - 2], events[k - 2], runs[k - 1], actions[k - 1]));
        lemma_marking_begins(runs, events, actions, k - 2);
        k - 2
    } else {
        lemma_marking_begins(runs, events, actions, k - 1);
        k - 1
    }
}

/// A recovery that finishes has marked each row: none is left in flight.
pub proof fn law_each_row_is_marked(
    runs: Seq<Recovery>,
    events: Seq<RecoveryEvent>,
    actions: Seq<RecoveryAction>,
    row: int,
)
    requires
        is_run(runs, events, actions),
        actions.last() is Finish,
        0 <= row < runs.last().rows@.len(),
    ensures
        exists|m: int|
            0 <= m < events.len() && actions[m] is MarkRow && (#[trigger] events[m]) is Marked
                && runs[m].at == row,
{
    let n = events.len() as int;
    if n > 0 {
        assert(is_step(runs[n - 1], events[n - 1], runs[n], actions[n]));
    }
    let m = lemma_passed_rows_are_marked(runs, events, actions, n, row);
    assert(events[m] is Marked);
}

/// A block is published only after the row was marked, and the row is marked only
/// after the assignment was blocked.
pub proof fn law_block_precedes_mark(
    before: Recovery,
    event: RecoveryEvent,
    after: Recovery,
    action: RecoveryAction,
)
    requires
        before.well_formed(),
        is_step(before, event, after, action),
    ensures
        after.stage is PublishingBlock ==> before.stage is MarkingBlocked && event is Marked,
        after.stage is MarkingBlocked ==> before.stage is Blocking && event is Blocked,
{
}

/// A Plan Run is finished only where it was running and each of its assignments
/// has ended; one with a push that waits stays as it is.
pub proof fn law_finishes_only_what_is_over(
    before: Recovery,
    event: RecoveryEvent,
    after: Recovery,
    action: RecoveryAction,
)
    requires
        before.well_formed(),
        is_step(before, event, after, action),
        action is FinishPlanRun,
    ensures
        event matches RecoveryEvent::PlanRunRead { state, statuses } && state@ == "running"@
            && forall|i: int|
            0 <= i < statuses.len() ==> is_terminal(#[trigger] statuses@[i]@)
                && statuses@[i]@ != "merge_staged"@,
{
    if let RecoveryEvent::PlanRunRead { state, statuses } = event {
        reveal_strlit("merge_staged");
        reveal_strlit("merged");
        reveal_strlit("blocked");
        assert forall|i: int| 0 <= i < statuses.len() implies is_terminal(
            #[trigger] statuses@[i]@,
        ) && statuses@[i]@ != "merge_staged"@ by {
            assert(views(statuses@)[i] == statuses@[i]@);
            assert("merge_staged"@.len() == 12 && "merged"@.len() == 6 && "blocked"@.len() == 7);
        }
    }
}

/// How many stages the recovery has before it in its row or Plan Run.
pub open spec fn stages_left(stage: RecoveryStage) -> int {
    match stage {
        RecoveryStage::ReadingAssignment => 5,
        RecoveryStage::Blocking => 4,
        RecoveryStage::MarkingBlocked { source_id } => 3,
        RecoveryStage::PublishingBlock => 2,
        RecoveryStage::MarkingSettled => 2,
        RecoveryStage::MarkingPlanning => 2,
        RecoveryStage::ReadingPlanRun => 4,
        RecoveryStage::FinishingPlanRun => 3,
        RecoveryStage::PublishingPlanRun => 2,
        RecoveryStage::Finished => 0,
        RecoveryStage::Failed => 0,
    }
}

/// How many steps the recovery has before it at most.
pub open spec fn steps_left(recovery: Recovery) -> int {
    6 * (recovery.rows.len() - recovery.at) + 6 * (recovery.plan_runs.len() - recovery.run_at)
        + stages_left(recovery.stage)
}

/// Each step brings the recovery nearer to its end.
pub proof fn law_recovery_ends(
    before: Recovery,
    event: RecoveryEvent,
    after: Recovery,
    action: RecoveryAction,
)
    requires
        before.well_formed(),
        after.well_formed(),
        awaits(before.stage, event),
        is_step(before, event, after, action),
    ensures
        0 <= steps_left(after) < steps_left(before),
{
}

} // verus!
