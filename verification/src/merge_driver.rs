//! The end of a Plan Run: merges, push, clean-up and terminal state.
//!
//! Reviewed assignments are merged one at a time. When every merge has settled,
//! the Integration Branch is pushed once. A successful push advances the staged
//! assignments to `merged`; a failed push leaves them at `merge_staged`, with
//! their worktrees, for the operator. The state machine names assignments by
//! their position in the batch; [`step`] takes the result of the last action to
//! the next one.

use vstd::prelude::*;

use crate::contracts::BlockReason;
#[allow(unused_imports)]
use crate::json::JsonModel;
use crate::merge_phase::{decide_merge_outcome, AssignmentMergeOutcome, PHASE_NAME};
#[allow(unused_imports)]
use crate::merge_phase::{is_merge_outcome, merge_block_reason};
use crate::plan_run::{
    parse_merge_output, LifecycleStatus, ParsedMergeOutput, PhaseRecord, PlanRunPhaseError,
};
#[allow(unused_imports)]
use crate::plan_run::outcome_output;
use crate::plan_run_finalize::{has_merged, PlanRunTerminal};
#[allow(unused_imports)]
use crate::plan_run_finalize::{any_merged, plan_run_terminal};
use crate::plan_run_status::AssignmentStatus;
use crate::problem::CoordinatorError;
use crate::text::concat;

verus! {

/// One assignment of the batch.
#[derive(Clone, Copy, Debug, Eq, PartialEq, Structural)]
pub struct MergeItem {
    /// The assignment was approved, so there is a review to merge on.
    pub has_review: bool,
    /// The assignment has a worktree to clean up.
    pub has_worktree: bool,
}

/// Which result the machine waits for.
#[derive(Clone, Debug, Eq, PartialEq)]
pub enum MergeStage {
    /// The current assignment is being moved to `merging`.
    Entering,
    /// The merge agent is running.
    Merging,
    /// The failed merge is being stored.
    RecordingFailure { reason: String },
    /// The merge output is being stored.
    RecordingOutput { parsed: ParsedMergeOutput },
    /// The current assignment is being moved to `merge_staged`.
    Staging,
    /// The current assignment is being moved to `blocked`.
    Blocking { reason: String },
    /// The block is being written back to the Issue Source.
    WritingBlocked { reason: String },
    /// The failed write-back is being noted.
    NotingBlocked { reason: String },
    /// The Integration Branch is being pushed.
    Pushing,
    /// The failed push is being stored for a staged assignment.
    RecordingPushFailure { at: usize, error: String },
    /// A staged assignment is being moved to `merged`.
    Promoting { at: usize },
    /// The completion of a pushed assignment is being written back.
    WritingCompleted { at: usize },
    /// The failed write-back is being noted.
    NotingCompleted { at: usize },
    /// The worktree of a settled assignment is being cleaned up.
    Cleaning { at: usize },
    /// The terminal state of the Plan Run is being stored.
    FinishingRun,
    /// The finished Plan Run is being loaded.
    Reloading,
    Finished,
}

/// The state of the machine.
#[derive(Debug, Eq, PartialEq)]
pub struct MergeRun {
    pub items: Vec<MergeItem>,
    /// Whether the Project has an Issue Source to write back to.
    pub has_issue_source: bool,
    pub stage: MergeStage,
    /// The assignment that is being merged.
    pub current: usize,
    /// What became of the assignments before the current one.
    pub outcomes: Vec<AssignmentMergeOutcome>,
    /// The assignments that are integrated locally.
    pub staged: Vec<usize>,
    /// The staged assignments that are known to be pushed.
    pub pushed: Vec<usize>,
    /// The assignments that are blocked.
    pub blocked: Vec<usize>,
    pub push_failed: bool,
}

/// The result of an action.
#[derive(Debug, Eq, PartialEq)]
pub enum MergeEvent {
    /// The database took the action, or failed.
    Stored(Result<(), CoordinatorError>),
    /// The merge agent printed this, or failed.
    Ran(Result<String, PlanRunPhaseError>),
    /// The remote took the push, or the push failed.
    Pushed(Result<(), PlanRunPhaseError>),
    /// The Issue Source took the status, or failed.
    Written(Result<(), PlanRunPhaseError>),
    /// The action was performed; whether it succeeded does not matter.
    Noted,
}

/// What the driver does next.
#[derive(Debug, Eq, PartialEq)]
pub enum MergeAction {
    /// Store and publish a change of status.
    Transition { item: usize, status: AssignmentStatus },
    /// Run the merge agent.
    RunMerge { item: usize },
    /// Store a merge output, then publish it.
    RecordOutput { item: usize, record: PhaseRecord },
    /// Store a failed merge output, as far as possible.
    RecordFailure { item: usize, record: PhaseRecord },
    /// Write a status back to the Issue Source.
    WriteLifecycle { item: usize, status: LifecycleStatus },
    /// Add an entry to the Project Activity.
    RecordActivity { item: usize, kind: &'static str, detail: String },
    /// Push the Integration Branch.
    Push,
    /// Remove the worktree and the branch, as far as possible.
    Cleanup { item: usize },
    /// Store the terminal state of the Plan Run, then publish it.
    FinishPlanRun { terminal: PlanRunTerminal },
    /// Load the finished Plan Run.
    ReloadPlanRun,
    /// The machine is done.
    Finish { result: Result<(), CoordinatorError> },
}

// --- The model ---

/// The first assignment from `from` on that was approved, or their number.
pub open spec fn next_reviewed(items: Seq<MergeItem>, from: int) -> int
    decreases items.len() - from,
{
    if from < 0 || from >= items.len() {
        items.len() as int
    } else if items[from].has_review {
        from
    } else {
        next_reviewed(items, from + 1)
    }
}

/// That many assignments without an approval.
pub open spec fn not_attempted(count: int) -> Seq<AssignmentMergeOutcome> {
    Seq::new(count as nat, |k: int| AssignmentMergeOutcome::NotAttempted)
}

/// The positions of the merged assignments.
pub open spec fn merged_positions(outcomes: Seq<AssignmentMergeOutcome>) -> Seq<usize>
    decreases outcomes.len(),
{
    if outcomes.len() == 0 {
        seq![]
    } else {
        let before = merged_positions(outcomes.drop_last());
        if outcomes.last() is Merged {
            before.push((outcomes.len() - 1) as usize)
        } else {
            before
        }
    }
}

/// The positions of the assignments that are not merged.
pub open spec fn unmerged_positions(outcomes: Seq<AssignmentMergeOutcome>) -> Seq<usize>
    decreases outcomes.len(),
{
    if outcomes.len() == 0 {
        seq![]
    } else {
        let before = unmerged_positions(outcomes.drop_last());
        if outcomes.last() is Merged {
            before
        } else {
            before.push((outcomes.len() - 1) as usize)
        }
    }
}

impl MergeRun {
    /// The assignments whose worktrees are cleaned up: those in a terminal
    /// status.
    pub open spec fn targets(&self) -> Seq<usize> {
        self.pushed@ + self.blocked@
    }

    /// The terminal state of the Plan Run. A failed push fails it, whatever was
    /// integrated locally.
    pub open spec fn terminal(&self) -> PlanRunTerminal {
        if self.push_failed {
            PlanRunTerminal::Failed
        } else {
            plan_run_terminal(false, self.outcomes@)
        }
    }

    /// What is settled agrees with the outcomes so far, and the stage with what
    /// is settled.
    pub open spec fn well_formed(&self) -> bool {
        &&& self.staged@ == merged_positions(self.outcomes@)
        &&& self.blocked@ == unmerged_positions(self.outcomes@)
        &&& match self.stage {
            MergeStage::Entering
            | MergeStage::Merging
            | MergeStage::RecordingFailure { .. }
            | MergeStage::RecordingOutput { .. }
            | MergeStage::Staging
            | MergeStage::Blocking { .. } => self.merging_item(),
            MergeStage::WritingBlocked { .. } | MergeStage::NotingBlocked { .. } => {
                &&& self.merging_item()
                &&& self.has_issue_source
            },
            MergeStage::Pushing => {
                &&& self.outcomes.len() == self.items.len()
                &&& any_merged(self.outcomes@)
                &&& self.pushed@.len() == 0
                &&& !self.push_failed
            },
            MergeStage::RecordingPushFailure { at, .. } => {
                &&& self.outcomes.len() == self.items.len()
                &&& self.pushed@.len() == 0
                &&& self.push_failed
                &&& at < self.staged.len()
            },
            MergeStage::Promoting { at } => {
                &&& self.outcomes.len() == self.items.len()
                &&& !self.push_failed
                &&& at < self.staged.len()
                &&& self.pushed@ == self.staged@.take(at as int)
            },
            MergeStage::WritingCompleted { at } | MergeStage::NotingCompleted { at } => {
                &&& self.all_settled()
                &&& !self.push_failed
                &&& self.has_issue_source
                &&& at < self.pushed.len()
            },
            MergeStage::Cleaning { at } => {
                &&& self.all_settled()
                &&& at < self.targets().len()
            },
            MergeStage::FinishingRun | MergeStage::Reloading => self.all_settled(),
            MergeStage::Finished => true,
        }
    }

    /// The current assignment is approved, and those before it are settled.
    pub open spec fn merging_item(&self) -> bool {
        &&& self.current < self.items.len()
        &&& self.items@[self.current as int].has_review
        &&& self.outcomes.len() == self.current
        &&& self.pushed@.len() == 0
        &&& !self.push_failed
    }

    /// Every merge and the push are settled: either the push failed and nothing
    /// is pushed, or everything that was staged is.
    pub open spec fn all_settled(&self) -> bool {
        &&& self.outcomes.len() == self.items.len()
        &&& if self.push_failed {
            self.pushed@.len() == 0
        } else {
            self.pushed@ == self.staged@
        }
    }
}

/// The first target from `from` on that has a worktree, or their number.
pub open spec fn next_with_worktree(
    items: Seq<MergeItem>,
    targets: Seq<usize>,
    from: int,
) -> int
    decreases targets.len() - from,
{
    if from < 0 || from >= targets.len() {
        targets.len() as int
    } else if items[targets[from] as int].has_worktree {
        from
    } else {
        next_with_worktree(items, targets, from + 1)
    }
}

/// The machine goes on with the clean-up from target `from` on, and ends it by
/// storing the terminal state.
pub open spec fn cleans_from(after: MergeRun, from: int, action: MergeAction) -> bool {
    let at = next_with_worktree(after.items@, after.targets(), from);
    if at < after.targets().len() {
        &&& after.stage == (MergeStage::Cleaning { at: at as usize })
        &&& action == (MergeAction::Cleanup { item: after.targets()[at] })
    } else {
        &&& after.stage is FinishingRun
        &&& action == (MergeAction::FinishPlanRun { terminal: after.terminal() })
    }
}

/// What does not change in a step.
pub open spec fn same_batch(before: MergeRun, after: MergeRun) -> bool {
    &&& after.items@ == before.items@
    &&& after.has_issue_source == before.has_issue_source
}

/// Nothing but the stage changes.
pub open spec fn only_stage_changes(before: MergeRun, after: MergeRun) -> bool {
    &&& same_batch(before, after)
    &&& after.current == before.current
    &&& after.outcomes@ == before.outcomes@
    &&& after.staged@ == before.staged@
    &&& after.pushed@ == before.pushed@
    &&& after.blocked@ == before.blocked@
    &&& after.push_failed == before.push_failed
}

/// The machine goes on with the assignments from `from` on, `outcomes` being
/// what became of those before: it passes over assignments without an approval
/// to the next approved one, or on to the push, or, where nothing was merged, to
/// the clean-up.
pub open spec fn moves_on(
    before: MergeRun,
    outcomes: Seq<AssignmentMergeOutcome>,
    from: int,
    after: MergeRun,
    action: MergeAction,
) -> bool {
    let next = next_reviewed(before.items@, from);
    &&& same_batch(before, after)
    &&& after.outcomes@ == outcomes + not_attempted(next - from)
    &&& after.pushed@.len() == 0
    &&& !after.push_failed
    &&& if next < before.items@.len() {
        &&& after.stage is Entering
        &&& after.current == next
        &&& action == (MergeAction::Transition {
            item: next as usize,
            status: AssignmentStatus::Merging,
        })
    } else if any_merged(after.outcomes@) {
        &&& after.stage is Pushing
        &&& action is Push
    } else {
        cleans_from(after, 0, action)
    }
}

/// The current assignment is blocked for this reason.
pub open spec fn blocks_current(
    before: MergeRun,
    after: MergeRun,
    reason: Seq<char>,
    action: MergeAction,
) -> bool {
    &&& only_stage_changes(before, after)
    &&& after.stage matches MergeStage::Blocking { reason: kept }
    &&& kept@ == reason
    &&& action matches MergeAction::Transition {
        item,
        status: AssignmentStatus::Blocked { kind, detail },
    }
    &&& item == before.current
    &&& kind == BlockReason::MergePhaseFailed
    &&& detail@ == reason
}

/// The failed merge of the current assignment is stored.
pub open spec fn records_failure(
    before: MergeRun,
    after: MergeRun,
    error: Seq<char>,
    action: MergeAction,
) -> bool {
    &&& only_stage_changes(before, after)
    &&& after.stage matches MergeStage::RecordingFailure { reason }
    &&& reason@ == error
    &&& action matches MergeAction::RecordFailure { item, record }
    &&& item == before.current
    &&& record.is_failure(PHASE_NAME@, error)
}

/// The completion of the pushed assignments from `at` on is written back, where
/// the Project has an Issue Source; then the clean-up follows.
pub open spec fn completes_from(after: MergeRun, at: int, action: MergeAction) -> bool {
    if after.has_issue_source && at < after.pushed@.len() {
        &&& after.stage == (MergeStage::WritingCompleted { at: at as usize })
        &&& action == (MergeAction::WriteLifecycle {
            item: after.pushed@[at],
            status: LifecycleStatus::Completed,
        })
    } else {
        cleans_from(after, 0, action)
    }
}

/// Nothing but the stage and the terminal knowledge of the push changes.
pub open spec fn same_merges(before: MergeRun, after: MergeRun) -> bool {
    &&& same_batch(before, after)
    &&& after.outcomes@ == before.outcomes@
    &&& after.staged@ == before.staged@
    &&& after.blocked@ == before.blocked@
}

/// One step of the machine: from `before`, the result `event` leads to `after`
/// and calls for `action`.
pub open spec fn is_step(
    before: MergeRun,
    event: MergeEvent,
    after: MergeRun,
    action: MergeAction,
) -> bool {
    let item = before.current;
    match (before.stage, event) {
        (_, MergeEvent::Stored(Err(error))) => {
            &&& only_stage_changes(before, after)
            &&& after.stage is Finished
            &&& action == MergeAction::Finish { result: Err(error) }
        },
        (MergeStage::Entering, MergeEvent::Stored(Ok(_))) => {
            &&& only_stage_changes(before, after)
            &&& after.stage is Merging
            &&& action == MergeAction::RunMerge { item }
        },
        (MergeStage::Merging, MergeEvent::Ran(Err(error))) => records_failure(
            before,
            after,
            error.text(),
            action,
        ),
        (MergeStage::Merging, MergeEvent::Ran(Ok(stdout))) => match outcome_output(
            stdout@,
            "merge"@,
            "merge"@,
        ) {
            Err(message) => records_failure(before, after, message, action),
            Ok((outcome, text, value)) => {
                &&& only_stage_changes(before, after)
                &&& after.stage matches MergeStage::RecordingOutput { parsed }
                &&& parsed.outcome@ == outcome
                &&& parsed.body.text@ == text
                &&& parsed.body.value@ == value
                &&& action matches MergeAction::RecordOutput { item: recorded, record }
                &&& recorded == item
                &&& record.phase@ == PHASE_NAME@
                &&& record.outcome@ == outcome
                &&& record.body.text@ == text
                &&& record.body.value@ == value
            },
        },
        (MergeStage::RecordingFailure { reason }, MergeEvent::Noted) => blocks_current(
            before,
            after,
            reason@,
            action,
        ),
        (MergeStage::RecordingOutput { parsed }, MergeEvent::Stored(Ok(_))) => if parsed.outcome@
            == "blocked"@ {
            blocks_current(before, after, merge_block_reason(parsed.body.value@), action)
        } else {
            &&& only_stage_changes(before, after)
            &&& after.stage is Staging
            &&& action == (MergeAction::Transition { item, status: AssignmentStatus::MergeStaged })
        },
        (MergeStage::Staging, MergeEvent::Stored(Ok(_))) => moves_on(
            before,
            before.outcomes@.push(AssignmentMergeOutcome::Merged),
            item + 1,
            after,
            action,
        ),
        (MergeStage::Blocking { reason }, MergeEvent::Stored(Ok(_))) => if before.has_issue_source {
            &&& only_stage_changes(before, after)
            &&& after.stage == MergeStage::WritingBlocked { reason }
            &&& action == (MergeAction::WriteLifecycle { item, status: LifecycleStatus::Blocked })
        } else {
            moves_on(
                before,
                before.outcomes@.push(AssignmentMergeOutcome::Blocked { reason }),
                item + 1,
                after,
                action,
            )
        },
        (MergeStage::WritingBlocked { reason }, MergeEvent::Written(Ok(_))) => moves_on(
            before,
            before.outcomes@.push(AssignmentMergeOutcome::Blocked { reason }),
            item + 1,
            after,
            action,
        ),
        (MergeStage::WritingBlocked { reason }, MergeEvent::Written(Err(error))) => {
            &&& only_stage_changes(before, after)
            &&& after.stage == MergeStage::NotingBlocked { reason }
            &&& notes_writeback(
                action,
                item,
                "blocked Lifecycle Status write-back during Merge Phase failed: "@,
                error,
            )
        },
        (MergeStage::NotingBlocked { reason }, MergeEvent::Noted) => moves_on(
            before,
            before.outcomes@.push(AssignmentMergeOutcome::Blocked { reason }),
            item + 1,
            after,
            action,
        ),
        (MergeStage::Pushing, MergeEvent::Pushed(Err(error))) => {
            &&& same_merges(before, after)
            &&& after.push_failed
            &&& after.pushed@.len() == 0
            &&& records_push_failure(after, 0, error.text(), action)
        },
        (MergeStage::RecordingPushFailure { at, error }, MergeEvent::Noted) => {
            &&& same_merges(before, after)
            &&& after.push_failed
            &&& after.pushed@.len() == 0
            &&& records_push_failure(after, at + 1, error@, action)
        },
        (MergeStage::Pushing, MergeEvent::Pushed(Ok(_))) => {
            &&& same_merges(before, after)
            &&& !after.push_failed
            &&& after.pushed@.len() == 0
            &&& after.stage == (MergeStage::Promoting { at: 0 })
            &&& action == (MergeAction::Transition {
                item: before.staged@[0],
                status: AssignmentStatus::Merged,
            })
        },
        (MergeStage::Promoting { at }, MergeEvent::Stored(Ok(_))) => {
            &&& same_merges(before, after)
            &&& !after.push_failed
            &&& after.pushed@ == before.staged@.take(at + 1)
            &&& if at + 1 < before.staged@.len() {
                &&& after.stage == (MergeStage::Promoting { at: (at + 1) as usize })
                &&& action == (MergeAction::Transition {
                    item: before.staged@[at + 1],
                    status: AssignmentStatus::Merged,
                })
            } else {
                completes_from(after, 0, action)
            }
        },
        (MergeStage::WritingCompleted { at }, MergeEvent::Written(Ok(_))) => {
            &&& same_merges(before, after)
            &&& !after.push_failed
            &&& after.pushed@ == before.pushed@
            &&& completes_from(after, at + 1, action)
        },
        (MergeStage::WritingCompleted { at }, MergeEvent::Written(Err(error))) => {
            &&& only_stage_changes(before, after)
            &&& after.stage == MergeStage::NotingCompleted { at }
            &&& notes_writeback(
                action,
                before.pushed@[at as int],
                "completed Lifecycle Status write-back after push failed: "@,
                error,
            )
        },
        (MergeStage::NotingCompleted { at }, MergeEvent::Noted) => {
            &&& same_merges(before, after)
            &&& !after.push_failed
            &&& after.pushed@ == before.pushed@
            &&& completes_from(after, at + 1, action)
        },
        (MergeStage::Cleaning { at }, MergeEvent::Noted) => {
            &&& same_merges(before, after)
            &&& after.push_failed == before.push_failed
            &&& after.pushed@ == before.pushed@
            &&& cleans_from(after, at + 1, action)
        },
        (MergeStage::FinishingRun, MergeEvent::Stored(Ok(_))) => {
            &&& only_stage_changes(before, after)
            &&& after.stage is Reloading
            &&& action is ReloadPlanRun
        },
        (MergeStage::Reloading, MergeEvent::Stored(Ok(_))) => {
            &&& only_stage_changes(before, after)
            &&& after.stage is Finished
            &&& action == MergeAction::Finish { result: Ok(()) }
        },
        _ => false,
    }
}

/// The failed push is stored for the staged assignments from `at` on; then the
/// clean-up follows.
pub open spec fn records_push_failure(
    after: MergeRun,
    at: int,
    error: Seq<char>,
    action: MergeAction,
) -> bool {
    if at < after.staged@.len() {
        &&& after.stage matches MergeStage::RecordingPushFailure { at: next, error: kept }
        &&& next == at
        &&& kept@ == error
        &&& action matches MergeAction::RecordFailure { item, record }
        &&& item == after.staged@[at]
        &&& record.is_failure(PHASE_NAME@, error)
    } else {
        cleans_from(after, 0, action)
    }
}

/// A failed write-back goes to the Project Activity.
pub open spec fn notes_writeback(
    action: MergeAction,
    item: usize,
    prefix: Seq<char>,
    error: PlanRunPhaseError,
) -> bool {
    &&& action matches MergeAction::RecordActivity { item: noted, kind, detail }
    &&& noted == item
    &&& kind@ == "lifecycle_writeback_failed"@
    &&& detail@ == prefix + error.text()
}

/// The machine waits for this kind of result in this stage.
pub open spec fn awaits(stage: MergeStage, event: MergeEvent) -> bool {
    match stage {
        MergeStage::Entering
        | MergeStage::RecordingOutput { .. }
        | MergeStage::Staging
        | MergeStage::Blocking { .. }
        | MergeStage::Promoting { .. }
        | MergeStage::FinishingRun
        | MergeStage::Reloading => event is Stored,
        MergeStage::Merging => event is Ran,
        MergeStage::WritingBlocked { .. } | MergeStage::WritingCompleted { .. } => event
            is Written,
        MergeStage::Pushing => event is Pushed,
        MergeStage::RecordingFailure { .. }
        | MergeStage::NotingBlocked { .. }
        | MergeStage::RecordingPushFailure { .. }
        | MergeStage::NotingCompleted { .. }
        | MergeStage::Cleaning { .. } => event is Noted,
        MergeStage::Finished => false,
    }
}

/// Whether the machine waits for this kind of result in this stage.
pub fn is_awaited(stage: &MergeStage, event: &MergeEvent) -> (yes: bool)
    ensures
        yes == awaits(*stage, *event),
{
    match stage {
        MergeStage::Entering
        | MergeStage::RecordingOutput { .. }
        | MergeStage::Staging
        | MergeStage::Blocking { .. }
        | MergeStage::Promoting { .. }
        | MergeStage::FinishingRun
        | MergeStage::Reloading => matches!(event, MergeEvent::Stored(_)),
        MergeStage::Merging => matches!(event, MergeEvent::Ran(_)),
        MergeStage::WritingBlocked { .. } | MergeStage::WritingCompleted { .. } => matches!(
            event,
            MergeEvent::Written(_)
        ),
        MergeStage::Pushing => matches!(event, MergeEvent::Pushed(_)),
        MergeStage::RecordingFailure { .. }
        | MergeStage::NotingBlocked { .. }
        | MergeStage::RecordingPushFailure { .. }
        | MergeStage::NotingCompleted { .. }
        | MergeStage::Cleaning { .. } => matches!(event, MergeEvent::Noted),
        MergeStage::Finished => false,
    }
}

// --- Facts about the model ---

proof fn lemma_next_reviewed(items: Seq<MergeItem>, from: int)
    requires
        0 <= from <= items.len(),
    ensures
        from <= next_reviewed(items, from) <= items.len(),
        next_reviewed(items, from) < items.len() ==> items[next_reviewed(items, from)].has_review,
    decreases items.len() - from,
{
    if from < items.len() && !items[from].has_review {
        lemma_next_reviewed(items, from + 1);
    }
}

proof fn lemma_next_with_worktree(items: Seq<MergeItem>, targets: Seq<usize>, from: int)
    requires
        0 <= from <= targets.len(),
    ensures
        from <= next_with_worktree(items, targets, from) <= targets.len(),
    decreases targets.len() - from,
{
    if from < targets.len() && !items[targets[from] as int].has_worktree {
        lemma_next_with_worktree(items, targets, from + 1);
    }
}

/// Merged positions are exactly the positions of the merged assignments, and
/// the others are exactly the other positions.
pub proof fn lemma_positions_partition(outcomes: Seq<AssignmentMergeOutcome>)
    requires
        outcomes.len() <= usize::MAX,
    ensures
        forall|k: int|
            0 <= k < merged_positions(outcomes).len() ==> {
                let p = #[trigger] merged_positions(outcomes)[k];
                p < outcomes.len() && outcomes[p as int] is Merged
            },
        forall|k: int|
            0 <= k < unmerged_positions(outcomes).len() ==> {
                let p = #[trigger] unmerged_positions(outcomes)[k];
                p < outcomes.len() && !(outcomes[p as int] is Merged)
            },
        any_merged(outcomes) <==> merged_positions(outcomes).len() > 0,
        merged_positions(outcomes).len() + unmerged_positions(outcomes).len() == outcomes.len(),
    decreases outcomes.len(),
{
    if outcomes.len() > 0 {
        let front = outcomes.drop_last();
        lemma_positions_partition(front);
        let last = (outcomes.len() - 1) as usize;
        assert(outcomes[last as int] == outcomes.last());
        assert forall|k: int| 0 <= k < merged_positions(outcomes).len() implies ({
            let p = #[trigger] merged_positions(outcomes)[k];
            p < outcomes.len() && outcomes[p as int] is Merged
        }) by {
            if k < merged_positions(front).len() {
                let p = merged_positions(front)[k];
                assert(merged_positions(outcomes)[k] == p);
                assert(front[p as int] == outcomes[p as int]);
            }
        }
        assert forall|k: int| 0 <= k < unmerged_positions(outcomes).len() implies ({
            let p = #[trigger] unmerged_positions(outcomes)[k];
            p < outcomes.len() && !(outcomes[p as int] is Merged)
        }) by {
            if k < unmerged_positions(front).len() {
                let p = unmerged_positions(front)[k];
                assert(unmerged_positions(outcomes)[k] == p);
                assert(front[p as int] == outcomes[p as int]);
            }
        }
        if any_merged(outcomes) && !(outcomes.last() is Merged) {
            let i = choose|i: int| 0 <= i < outcomes.len() && #[trigger] outcomes[i] is Merged;
            assert(front[i] is Merged);
        }
        if any_merged(front) {
            let i = choose|i: int| 0 <= i < front.len() && #[trigger] front[i] is Merged;
            assert(outcomes[i] is Merged);
        }
    }
}

proof fn lemma_push_outcome(outcomes: Seq<AssignmentMergeOutcome>, last: AssignmentMergeOutcome)
    ensures
        merged_positions(outcomes.push(last)) == if last is Merged {
            merged_positions(outcomes).push(outcomes.len() as usize)
        } else {
            merged_positions(outcomes)
        },
        unmerged_positions(outcomes.push(last)) == if last is Merged {
            unmerged_positions(outcomes)
        } else {
            unmerged_positions(outcomes).push(outcomes.len() as usize)
        },
{
    assert(outcomes.push(last).drop_last() =~= outcomes);
    assert(outcomes.push(last).last() == last);
}

// --- The machine ---

/// Start the clean-up at target `from`.
fn clean_from(settled: MergeRun, from: usize) -> (next: (MergeRun, MergeAction))
    requires
        settled.all_settled(),
        settled.staged@ == merged_positions(settled.outcomes@),
        settled.blocked@ == unmerged_positions(settled.outcomes@),
        from <= settled.targets().len(),
    ensures
        same_merges(settled, next.0),
        next.0.push_failed == settled.push_failed,
        next.0.pushed@ == settled.pushed@,
        cleans_from(next.0, from as int, next.1),
        next.0.well_formed(),
{
    let mut run = settled;
    proof {
        lemma_positions_partition(run.outcomes@);
        lemma_next_with_worktree(run.items@, run.targets(), from as int);
    }
    let total: usize = run.pushed.len() + run.blocked.len();
    let mut at: usize = from;
    while at < total
        invariant
            from <= at <= total,
            run == settled,
            total == run.targets().len(),
            run.targets().len() == run.pushed.len() + run.blocked.len(),
            run.outcomes.len() == run.items.len(),
            run.all_settled(),
            run.staged@ == merged_positions(run.outcomes@),
            run.blocked@ == unmerged_positions(run.outcomes@),
            next_with_worktree(run.items@, run.targets(), from as int) == next_with_worktree(
                run.items@,
                run.targets(),
                at as int,
            ),
        decreases total - at,
    {
        let item: usize = if at < run.pushed.len() {
            run.pushed[at]
        } else {
            run.blocked[at - run.pushed.len()]
        };
        proof {
            lemma_positions_partition(run.outcomes@);
            assert(item == run.targets()[at as int]);
        }
        if run.items[item].has_worktree {
            run.stage = MergeStage::Cleaning { at };
            return (run, MergeAction::Cleanup { item });
        }
        at += 1;
    }
    let terminal = if run.push_failed {
        PlanRunTerminal::Failed
    } else if has_merged(&run.outcomes) {
        PlanRunTerminal::Succeeded
    } else {
        PlanRunTerminal::Failed
    };
    run.stage = MergeStage::FinishingRun;
    (run, MergeAction::FinishPlanRun { terminal })
}

/// Go on with the assignments from `from` on.
fn advance(run: MergeRun, from: usize) -> (next: (MergeRun, MergeAction))
    requires
        from <= run.items.len(),
        run.outcomes.len() == from,
        run.staged@ == merged_positions(run.outcomes@),
        run.blocked@ == unmerged_positions(run.outcomes@),
        run.pushed@.len() == 0,
        !run.push_failed,
    ensures
        moves_on(run, run.outcomes@, from as int, next.0, next.1),
        next.0.well_formed(),
{
    let ghost before = run;
    let mut run = run;
    let mut at: usize = from;
    proof {
        lemma_next_reviewed(run.items@, from as int);
        assert(run.outcomes@ + not_attempted(0) =~= run.outcomes@);
    }
    while at < run.items.len() && !run.items[at].has_review
        invariant
            from <= at <= run.items.len(),
            same_batch(before, run),
            next_reviewed(run.items@, from as int) == next_reviewed(run.items@, at as int),
            run.outcomes@ == before.outcomes@ + not_attempted(at - from),
            run.outcomes.len() == at,
            run.staged@ == merged_positions(run.outcomes@),
            run.blocked@ == unmerged_positions(run.outcomes@),
            run.pushed@.len() == 0,
            !run.push_failed,
        decreases run.items.len() - at,
    {
        proof {
            lemma_push_outcome(run.outcomes@, AssignmentMergeOutcome::NotAttempted);
        }
        run.blocked.push(at);
        run.outcomes.push(AssignmentMergeOutcome::NotAttempted);
        at += 1;
        assert(run.outcomes@ =~= before.outcomes@ + not_attempted(at - from));
    }
    proof {
        lemma_positions_partition(run.outcomes@);
    }
    run.current = at;
    if at < run.items.len() {
        run.stage = MergeStage::Entering;
        let action = MergeAction::Transition { item: at, status: AssignmentStatus::Merging };
        return (run, action);
    }
    if has_merged(&run.outcomes) {
        run.stage = MergeStage::Pushing;
        return (run, MergeAction::Push);
    }
    assert(run.pushed@ =~= run.staged@);
    let ghost settled = run;
    let next = clean_from(run, 0);
    proof {
        assert(next.0.outcomes@ == settled.outcomes@);
        assert(next.0.pushed@ =~= settled.pushed@);
    }
    next
}

/// Settle the current assignment and go on with the next one.
fn settle_current(run: MergeRun, outcome: AssignmentMergeOutcome) -> (next: (MergeRun, MergeAction))
    requires
        run.merging_item(),
        run.staged@ == merged_positions(run.outcomes@),
        run.blocked@ == unmerged_positions(run.outcomes@),
    ensures
        moves_on(run, run.outcomes@.push(outcome), run.current + 1, next.0, next.1),
        next.0.well_formed(),
{
    let mut run = run;
    let current: usize = run.current;
    proof {
        lemma_push_outcome(run.outcomes@, outcome);
    }
    if matches!(outcome, AssignmentMergeOutcome::Merged) {
        run.staged.push(current);
    } else {
        run.blocked.push(current);
    }
    run.outcomes.push(outcome);
    advance(run, current + 1)
}

/// The first action: the batch as it comes from the Review Loops.
pub fn start(items: Vec<MergeItem>, has_issue_source: bool) -> (first: (MergeRun, MergeAction))
    ensures
        first.0.well_formed(),
        first.0.items@ == items@,
        first.0.has_issue_source == has_issue_source,
        moves_on(first.0, seq![], 0, first.0, first.1),
{
    let run = MergeRun {
        items,
        has_issue_source,
        stage: MergeStage::Finished,
        current: 0,
        outcomes: Vec::new(),
        staged: Vec::new(),
        pushed: Vec::new(),
        blocked: Vec::new(),
        push_failed: false,
    };
    let ghost before = run;
    let first = advance(run, 0);
    assert(before.outcomes@ =~= Seq::<AssignmentMergeOutcome>::empty());
    first
}

fn block_current(run: MergeRun, reason: String) -> (next: (MergeRun, MergeAction))
    requires
        run.merging_item(),
        run.staged@ == merged_positions(run.outcomes@),
        run.blocked@ == unmerged_positions(run.outcomes@),
    ensures
        blocks_current(run, next.0, reason@, next.1),
        next.0.well_formed(),
{
    let mut run = run;
    let item: usize = run.current;
    let detail = reason.clone();
    run.stage = MergeStage::Blocking { reason };
    let status = AssignmentStatus::Blocked { kind: BlockReason::MergePhaseFailed, detail };
    (run, MergeAction::Transition { item, status })
}

fn record_failure(run: MergeRun, error: String) -> (next: (MergeRun, MergeAction))
    requires
        run.merging_item(),
        run.staged@ == merged_positions(run.outcomes@),
        run.blocked@ == unmerged_positions(run.outcomes@),
    ensures
        records_failure(run, next.0, error@, next.1),
        next.0.well_formed(),
{
    let mut run = run;
    let item: usize = run.current;
    let record = PhaseRecord::failure(PHASE_NAME, error.as_str());
    run.stage = MergeStage::RecordingFailure { reason: error };
    (run, MergeAction::RecordFailure { item, record })
}

fn note_writeback(item: usize, prefix: &str, error: PlanRunPhaseError) -> (action: MergeAction)
    ensures
        notes_writeback(action, item, prefix@, error),
{
    MergeAction::RecordActivity {
        item,
        kind: "lifecycle_writeback_failed",
        detail: concat(prefix, error.message().as_str()),
    }
}

fn complete_from(run: MergeRun, at: usize) -> (next: (MergeRun, MergeAction))
    requires
        run.all_settled(),
        !run.push_failed,
        run.staged@ == merged_positions(run.outcomes@),
        run.blocked@ == unmerged_positions(run.outcomes@),
    ensures
        same_merges(run, next.0),
        !next.0.push_failed,
        next.0.pushed@ == run.pushed@,
        completes_from(next.0, at as int, next.1),
        next.0.well_formed(),
{
    let mut run = run;
    if run.has_issue_source && at < run.pushed.len() {
        let item: usize = run.pushed[at];
        run.stage = MergeStage::WritingCompleted { at };
        return (run, MergeAction::WriteLifecycle { item, status: LifecycleStatus::Completed });
    }
    clean_from(run, 0)
}

fn record_push_failure(run: MergeRun, at: usize, error: String) -> (next: (MergeRun, MergeAction))
    requires
        run.outcomes.len() == run.items.len(),
        run.push_failed,
        run.pushed@.len() == 0,
        run.staged@ == merged_positions(run.outcomes@),
        run.blocked@ == unmerged_positions(run.outcomes@),
    ensures
        same_merges(run, next.0),
        next.0.push_failed,
        next.0.pushed@.len() == 0,
        records_push_failure(next.0, at as int, error@, next.1),
        next.0.well_formed(),
{
    let mut run = run;
    if at < run.staged.len() {
        let item: usize = run.staged[at];
        let record = PhaseRecord::failure(PHASE_NAME, error.as_str());
        run.stage = MergeStage::RecordingPushFailure { at, error };
        return (run, MergeAction::RecordFailure { item, record });
    }
    clean_from(run, 0)
}

fn take_merge(run: MergeRun, stdout: String) -> (next: (MergeRun, MergeAction))
    requires
        run.merging_item(),
        run.stage is Merging,
        run.staged@ == merged_positions(run.outcomes@),
        run.blocked@ == unmerged_positions(run.outcomes@),
    ensures
        is_step(run, MergeEvent::Ran(Ok(stdout)), next.0, next.1),
        next.0.well_formed(),
{
    match parse_merge_output(stdout.as_str()) {
        Err(error) => record_failure(run, error),
        Ok(parsed) => {
            let mut run = run;
            let item: usize = run.current;
            let record = PhaseRecord {
                phase: PHASE_NAME,
                outcome: parsed.outcome.clone(),
                body: parsed.body.copied(),
            };
            run.stage = MergeStage::RecordingOutput { parsed };
            (run, MergeAction::RecordOutput { item, record })
        },
    }
}

/// Take the result of the last action to the next one.
#[verifier::rlimit(40)]
pub fn step(run: MergeRun, event: MergeEvent) -> (next: (MergeRun, MergeAction))
    requires
        run.well_formed(),
        awaits(run.stage, event),
    ensures
        is_step(run, event, next.0, next.1),
        next.0.well_formed(),
{
    let mut run = run;
    let ghost before = run;
    if let MergeEvent::Stored(Err(error)) = event {
        run.stage = MergeStage::Finished;
        return (run, MergeAction::Finish { result: Err(error) });
    }
    let mut stage = MergeStage::Finished;
    std::mem::swap(&mut stage, &mut run.stage);
    match (stage, event) {
        (MergeStage::Entering, _) => {
            let item: usize = run.current;
            run.stage = MergeStage::Merging;
            (run, MergeAction::RunMerge { item })
        },
        (MergeStage::Merging, MergeEvent::Ran(result)) => {
            run.stage = MergeStage::Merging;
            match result {
                Err(error) => record_failure(run, error.message()),
                Ok(stdout) => take_merge(run, stdout),
            }
        },
        (MergeStage::RecordingFailure { reason }, _) => block_current(run, reason),
        (MergeStage::RecordingOutput { parsed }, _) => match decide_merge_outcome(&parsed) {
            AssignmentMergeOutcome::Blocked { reason } => block_current(run, reason),
            _ => {
                let item: usize = run.current;
                run.stage = MergeStage::Staging;
                (run, MergeAction::Transition { item, status: AssignmentStatus::MergeStaged })
            },
        },
        (MergeStage::Staging, _) => settle_current(run, AssignmentMergeOutcome::Merged),
        (MergeStage::Blocking { reason }, _) => {
            if run.has_issue_source {
                let item: usize = run.current;
                run.stage = MergeStage::WritingBlocked { reason };
                (run, MergeAction::WriteLifecycle { item, status: LifecycleStatus::Blocked })
            } else {
                settle_current(run, AssignmentMergeOutcome::Blocked { reason })
            }
        },
        (MergeStage::WritingBlocked { reason }, MergeEvent::Written(Err(error))) => {
            let item: usize = run.current;
            run.stage = MergeStage::NotingBlocked { reason };
            let action = note_writeback(
                item,
                "blocked Lifecycle Status write-back during Merge Phase failed: ",
                error,
            );
            (run, action)
        },
        (MergeStage::WritingBlocked { reason }, _) => settle_current(
            run,
            AssignmentMergeOutcome::Blocked { reason },
        ),
        (MergeStage::NotingBlocked { reason }, _) => settle_current(
            run,
            AssignmentMergeOutcome::Blocked { reason },
        ),
        (MergeStage::Pushing, MergeEvent::Pushed(result)) => {
            proof {
                lemma_positions_partition(run.outcomes@);
            }
            match result {
                Err(error) => {
                    run.push_failed = true;
                    record_push_failure(run, 0, error.message())
                },
                Ok(()) => {
                    let item: usize = run.staged[0];
                    run.stage = MergeStage::Promoting { at: 0 };
                    assert(run.pushed@ =~= run.staged@.take(0));
                    (run, MergeAction::Transition { item, status: AssignmentStatus::Merged })
                },
            }
        },
        (MergeStage::RecordingPushFailure { at, error }, _) => record_push_failure(
            run,
            at + 1,
            error,
        ),
        (MergeStage::Promoting { at }, _) => {
            let promoted: usize = run.staged[at];
            run.pushed.push(promoted);
            assert(run.pushed@ =~= run.staged@.take(at + 1));
            if at + 1 < run.staged.len() {
                let item: usize = run.staged[at + 1];
                run.stage = MergeStage::Promoting { at: at + 1 };
                (run, MergeAction::Transition { item, status: AssignmentStatus::Merged })
            } else {
                assert(run.pushed@ =~= run.staged@);
                complete_from(run, 0)
            }
        },
        (MergeStage::WritingCompleted { at }, MergeEvent::Written(Err(error))) => {
            let item: usize = run.pushed[at];
            run.stage = MergeStage::NotingCompleted { at };
            let action = note_writeback(
                item,
                "completed Lifecycle Status write-back after push failed: ",
                error,
            );
            (run, action)
        },
        (MergeStage::WritingCompleted { at }, _) => complete_from(run, at + 1),
        (MergeStage::NotingCompleted { at }, _) => complete_from(run, at + 1),
        (MergeStage::Cleaning { at }, _) => {
            proof {
                lemma_positions_partition(run.outcomes@);
            }
            clean_from(run, at + 1)
        },
        (MergeStage::FinishingRun, _) => {
            run.stage = MergeStage::Reloading;
            (run, MergeAction::ReloadPlanRun)
        },
        _ => {
            run.stage = MergeStage::Finished;
            (run, MergeAction::Finish { result: Ok(()) })
        },
    }
}

// --- Laws ---

/// A failed push fails the Plan Run, whatever was integrated locally; without
/// one, the outcomes of the merges decide.
pub proof fn law_failed_push_fails_run(
    before: MergeRun,
    event: MergeEvent,
    after: MergeRun,
    action: MergeAction,
)
    requires
        before.well_formed(),
        is_step(before, event, after, action),
        action is FinishPlanRun,
    ensures
        after.push_failed ==> action->terminal == PlanRunTerminal::Failed,
        !after.push_failed ==> action->terminal == plan_run_terminal(false, after.outcomes@),
{
}

/// Only assignments in a terminal status are cleaned up: blocked ones, and
/// merged ones that are pushed. Work that is staged and not pushed keeps its
/// worktree and its branch.
pub proof fn law_cleanup_only_terminal(
    before: MergeRun,
    event: MergeEvent,
    after: MergeRun,
    action: MergeAction,
)
    requires
        before.well_formed(),
        after.well_formed(),
        after.items@.len() <= usize::MAX,
        is_step(before, event, after, action),
        action is Cleanup,
    ensures
        action->Cleanup_item < after.outcomes@.len(),
        after.outcomes@[action->Cleanup_item as int] is Merged ==> !after.push_failed
            && after.pushed@.contains(action->Cleanup_item),
{
    lemma_positions_partition(after.outcomes@);
    lemma_next_with_worktree(after.items@, after.targets(), 0);
    if before.stage is Cleaning {
        lemma_next_with_worktree(after.items@, after.targets(), before.stage->Cleaning_at + 1);
    }
    let at = after.stage->Cleaning_at as int;
    assert(action->Cleanup_item == after.targets()[at]);
    if at < after.pushed@.len() {
        assert(after.pushed@[at] == action->Cleanup_item);
    } else {
        assert(after.blocked@[at - after.pushed@.len()] == action->Cleanup_item);
    }
}

/// The push is asked for only when every merge has settled and at least one
/// succeeded: blocked merges alone never push.
pub proof fn law_push_after_all_merges(
    before: MergeRun,
    event: MergeEvent,
    after: MergeRun,
    action: MergeAction,
)
    requires
        before.well_formed(),
        after.well_formed(),
        is_step(before, event, after, action),
        action is Push,
    ensures
        after.outcomes@.len() == after.items@.len(),
        any_merged(after.outcomes@),
{
}

/// Which part of the run a stage belongs to: the merges, the push, or what
/// follows it.
pub open spec fn part(stage: MergeStage) -> int {
    match stage {
        MergeStage::Entering
        | MergeStage::Merging
        | MergeStage::RecordingFailure { .. }
        | MergeStage::RecordingOutput { .. }
        | MergeStage::Staging
        | MergeStage::Blocking { .. }
        | MergeStage::WritingBlocked { .. }
        | MergeStage::NotingBlocked { .. } => 0,
        MergeStage::Pushing => 1,
        _ => 2,
    }
}

/// A run of the machine from its start: the states that it went through, the result
/// that ended each state but the last, and the action that each state began with.
pub open spec fn is_run(
    runs: Seq<MergeRun>,
    events: Seq<MergeEvent>,
    actions: Seq<MergeAction>,
) -> bool {
    &&& runs.len() == events.len() + 1
    &&& actions.len() == events.len() + 1
    &&& moves_on(runs[0], seq![], 0, runs[0], actions[0])
    &&& forall|k: int| 0 <= k < runs.len() ==> (#[trigger] runs[k]).well_formed()
    &&& forall|k: int|
        0 <= k < events.len() ==> is_step(
            runs[k],
            #[trigger] events[k],
            runs[k + 1],
            actions[k + 1],
        )
}

/// The machine never goes back to the merges, or from behind the push to it.
proof fn lemma_parts_rise(
    runs: Seq<MergeRun>,
    events: Seq<MergeEvent>,
    actions: Seq<MergeAction>,
    i: int,
    j: int,
)
    requires
        is_run(runs, events, actions),
        0 <= i <= j < runs.len(),
    ensures
        part(runs[i].stage) <= part(runs[j].stage),
        i < j && runs[i].stage is Pushing ==> part(runs[j].stage) == 2,
    decreases j - i,
{
    if i < j {
        lemma_parts_rise(runs, events, actions, i, j - 1);
        assert(is_step(runs[j - 1], events[j - 1], runs[j], actions[j]));
    }
}

/// Whatever a run meets, the Integration Branch is pushed at most once.
pub proof fn law_push_at_most_once(
    runs: Seq<MergeRun>,
    events: Seq<MergeEvent>,
    actions: Seq<MergeAction>,
    i: int,
    j: int,
)
    requires
        is_run(runs, events, actions),
        0 <= i < actions.len(),
        0 <= j < actions.len(),
        actions[i] is Push,
        actions[j] is Push,
    ensures
        i == j,
{
    if i < j {
        lemma_push_begins_pushing(runs, events, actions, i);
        lemma_push_begins_pushing(runs, events, actions, j);
        lemma_parts_rise(runs, events, actions, i, j);
    } else if j < i {
        lemma_push_begins_pushing(runs, events, actions, i);
        lemma_push_begins_pushing(runs, events, actions, j);
        lemma_parts_rise(runs, events, actions, j, i);
    }
}

proof fn lemma_push_begins_pushing(
    runs: Seq<MergeRun>,
    events: Seq<MergeEvent>,
    actions: Seq<MergeAction>,
    k: int,
)
    requires
        is_run(runs, events, actions),
        0 <= k < actions.len(),
        actions[k] is Push,
    ensures
        runs[k].stage is Pushing,
{
    if k > 0 {
        assert(is_step(runs[k - 1], events[k - 1], runs[k], actions[k]));
    }
}

proof fn lemma_promotion_follows_push(
    runs: Seq<MergeRun>,
    events: Seq<MergeEvent>,
    actions: Seq<MergeAction>,
    k: int,
) -> (i: int)
    requires
        is_run(runs, events, actions),
        0 <= k < runs.len(),
        runs[k].stage is Promoting,
    ensures
        0 <= i < k,
        events[i] matches MergeEvent::Pushed(Ok(_)),
    decreases k,
{
    assert(k > 0);
    assert(is_step(runs[k - 1], events[k - 1], runs[k], actions[k]));
    if runs[k - 1].stage is Promoting {
        lemma_promotion_follows_push(runs, events, actions, k - 1)
    } else {
        k - 1
    }
}

/// An assignment is moved to `merged` only after a successful push of the
/// Integration Branch, and only where its work was integrated locally.
pub proof fn law_merged_only_after_push(
    runs: Seq<MergeRun>,
    events: Seq<MergeEvent>,
    actions: Seq<MergeAction>,
    k: int,
    item: usize,
)
    requires
        is_run(runs, events, actions),
        0 <= k < actions.len(),
        actions[k] == (MergeAction::Transition { item, status: AssignmentStatus::Merged }),
    ensures
        exists|i: int| 0 <= i < k && (#[trigger] events[i] matches MergeEvent::Pushed(Ok(_))),
        item < runs[k].outcomes@.len(),
        runs[k].outcomes@[item as int] is Merged,
{
    assert(k > 0);
    assert(is_step(runs[k - 1], events[k - 1], runs[k], actions[k]));
    assert(runs[k].stage is Promoting);
    let i = lemma_promotion_follows_push(runs, events, actions, k);
    assert(events[i] matches MergeEvent::Pushed(Ok(_)));
    assert(runs[k - 1].well_formed());
    lemma_positions_partition(runs[k].outcomes@);
}

proof fn lemma_push_failure_stays(
    runs: Seq<MergeRun>,
    events: Seq<MergeEvent>,
    actions: Seq<MergeAction>,
    i: int,
    k: int,
)
    requires
        is_run(runs, events, actions),
        0 <= i < k < runs.len(),
        events[i] matches MergeEvent::Pushed(Err(_)),
    ensures
        runs[k].push_failed,
    decreases k,
{
    assert(is_step(runs[k - 1], events[k - 1], runs[k], actions[k]));
    assert(runs[k - 1].well_formed());
    if i < k - 1 {
        lemma_push_failure_stays(runs, events, actions, i, k - 1);
    }
}

/// After a failed push no assignment changes its status, and nothing is written
/// back: what was staged stays at `merge_staged` for the operator.
pub proof fn law_failed_push_keeps_staged(
    runs: Seq<MergeRun>,
    events: Seq<MergeEvent>,
    actions: Seq<MergeAction>,
    i: int,
    k: int,
)
    requires
        is_run(runs, events, actions),
        0 <= i < k < runs.len(),
        events[i] matches MergeEvent::Pushed(Err(_)),
    ensures
        !(actions[k] is Transition),
        !(actions[k] is WriteLifecycle),
{
    assert(is_step(runs[k - 1], events[k - 1], runs[k], actions[k]));
    assert(runs[k - 1].well_formed());
    lemma_push_failure_stays(runs, events, actions, i, k);
    if i < k - 1 {
        lemma_push_failure_stays(runs, events, actions, i, k - 1);
    }
}

/// The completion of a Source Issue is written back only for pushed work.
pub proof fn law_completed_only_after_push(
    before: MergeRun,
    event: MergeEvent,
    after: MergeRun,
    action: MergeAction,
)
    requires
        before.well_formed(),
        is_step(before, event, after, action),
        action matches MergeAction::WriteLifecycle { status: LifecycleStatus::Completed, .. },
    ensures
        !after.push_failed,
        after.pushed@.contains(action->WriteLifecycle_item),
{
    let at = after.stage->WritingCompleted_at as int;
    assert(after.pushed@[at] == action->WriteLifecycle_item);
}

/// How many steps a run has left at most.
pub open spec fn steps_left(run: MergeRun) -> int {
    let n = run.items@.len() as int;
    let merging = 10 * (n - run.current) + 10 * n + 20;
    match run.stage {
        MergeStage::Entering => merging + 8,
        MergeStage::Merging => merging + 7,
        MergeStage::RecordingFailure { .. } | MergeStage::RecordingOutput { .. } => merging + 6,
        MergeStage::Staging | MergeStage::Blocking { .. } => merging + 5,
        MergeStage::WritingBlocked { .. } => merging + 4,
        MergeStage::NotingBlocked { .. } => merging + 3,
        MergeStage::Pushing => 10 * n + 20,
        MergeStage::RecordingPushFailure { at, .. } => 2 * n + (n - at) + 10,
        MergeStage::Promoting { at } => 5 * n + (n - at) + 10,
        MergeStage::WritingCompleted { at } => 2 * n + 2 * (n - at) + 10,
        MergeStage::NotingCompleted { at } => 2 * n + 2 * (n - at) + 9,
        MergeStage::Cleaning { at } => (n - at) + 3,
        MergeStage::FinishingRun => 2,
        MergeStage::Reloading => 1,
        MergeStage::Finished => 0,
    }
}

/// The machine comes to its end: each step uses up one of finitely many.
pub proof fn law_run_ends(
    before: MergeRun,
    event: MergeEvent,
    after: MergeRun,
    action: MergeAction,
)
    requires
        before.well_formed(),
        after.well_formed(),
        before.items@.len() <= usize::MAX,
        awaits(before.stage, event),
        is_step(before, event, after, action),
    ensures
        0 <= steps_left(after) < steps_left(before),
{
    lemma_positions_partition(before.outcomes@);
    lemma_positions_partition(after.outcomes@);
    lemma_next_with_worktree(after.items@, after.targets(), 0);
    if before.stage is Cleaning {
        lemma_next_with_worktree(
            after.items@,
            after.targets(),
            before.stage->Cleaning_at + 1,
        );
    }
    if before.current < before.items@.len() {
        lemma_next_reviewed(before.items@, before.current + 1);
    }
}

} // verus!
