//! What holds of every run of the merge machine, said of what it asks for and of
//! what it is told.

use vstd::prelude::*;

#[allow(unused_imports)]
use crate::contracts::BlockReason;
#[allow(unused_imports)]
use crate::json::JsonModel;
#[allow(unused_imports)]
use crate::merge_driver::{
    is_run, is_step, lemma_positions_partition, merged_positions, next_reviewed, next_with_worktree,
    unmerged_positions, MergeAction, MergeEvent, MergeItem, MergeRun, MergeStage,
};
#[allow(unused_imports)]
use crate::merge_phase::{merge_block_reason, AssignmentMergeOutcome};
#[allow(unused_imports)]
use crate::plan_run::{outcome_output, LifecycleStatus, PhaseRecord};
#[allow(unused_imports)]
use crate::plan_run_finalize::{any_merged, PlanRunTerminal};
#[allow(unused_imports)]
use crate::plan_run_status::AssignmentStatus;

verus! {

// --- What can be seen of a run ---

/// The database took the action at `k`.
pub open spec fn stored(events: Seq<MergeEvent>, k: int) -> bool {
    0 <= k < events.len() && (events[k] matches MergeEvent::Stored(Ok(_)))
}

/// Before `k`, the assignment was moved to the status.
pub open spec fn reached(
    events: Seq<MergeEvent>,
    actions: Seq<MergeAction>,
    k: int,
    item: usize,
    status: AssignmentStatus,
) -> bool {
    exists|j: int|
        0 <= j < k && #[trigger] actions[j] == (MergeAction::Transition { item, status }) && stored(
            events,
            j,
        )
}

/// The action moves the assignment to `blocked`.
pub open spec fn moves_to_blocked(action: MergeAction, item: usize) -> bool {
    action matches MergeAction::Transition { item: moved, status: AssignmentStatus::Blocked { .. } }
        && moved == item
}

/// Before `k`, the assignment was moved to `blocked`.
pub open spec fn reached_blocked(
    events: Seq<MergeEvent>,
    actions: Seq<MergeAction>,
    k: int,
    item: usize,
) -> bool {
    exists|j: int|
        0 <= j < k && #[trigger] moves_to_blocked(actions[j], item) && stored(events, j)
}

/// Before `k`, the Integration Branch was pushed.
pub open spec fn pushed_before(events: Seq<MergeEvent>, k: int) -> bool {
    exists|j: int|
        0 <= j < k && j < events.len() && (#[trigger] events[j] matches MergeEvent::Pushed(Ok(_)))
}

/// What is stored of a merge that failed with the error.
pub open spec fn is_merge_failure(record: PhaseRecord, error: Seq<char>) -> bool {
    &&& record.phase@ == "merge"@
    &&& record.outcome@ == "failed"@
    &&& record.body.value@ == JsonModel::Object(seq![("error"@, JsonModel::Text(error))])
}

// --- The stage shows in the action that it began with ---

spec fn shows(run: MergeRun, action: MergeAction) -> bool {
    match run.stage {
        MergeStage::Entering => action == (MergeAction::Transition {
            item: run.current,
            status: AssignmentStatus::Merging,
        }),
        MergeStage::Merging => action == (MergeAction::RunMerge { item: run.current }),
        MergeStage::RecordingFailure { reason } => action matches MergeAction::RecordFailure {
            item,
            record,
        } && item == run.current && is_merge_failure(record, reason@),
        MergeStage::RecordingOutput { parsed } => action matches MergeAction::RecordOutput {
            item,
            record,
        } && item == run.current && record.phase@ == "merge"@ && record.outcome@ == parsed.outcome@
            && record.body.text@ == parsed.body.text@ && record.body.value@ == parsed.body.value@,
        MergeStage::Staging => action == (MergeAction::Transition {
            item: run.current,
            status: AssignmentStatus::MergeStaged,
        }),
        MergeStage::Blocking { reason } => action matches MergeAction::Transition {
            item,
            status: AssignmentStatus::Blocked { kind, detail },
        } && item == run.current && kind == BlockReason::MergePhaseFailed && detail@ == reason@,
        MergeStage::WritingBlocked { reason } => action == (MergeAction::WriteLifecycle {
            item: run.current,
            status: LifecycleStatus::Blocked,
        }),
        MergeStage::NotingBlocked { reason } => action is RecordActivity,
        MergeStage::Pushing => action is Push,
        MergeStage::RecordingPushFailure { at, error } => action matches MergeAction::RecordFailure {
            item,
            record,
        } && item == run.staged@[at as int] && is_merge_failure(record, error@),
        MergeStage::Promoting { at } => action == (MergeAction::Transition {
            item: run.staged@[at as int],
            status: AssignmentStatus::Merged,
        }),
        MergeStage::WritingCompleted { at } => action == (MergeAction::WriteLifecycle {
            item: run.pushed@[at as int],
            status: LifecycleStatus::Completed,
        }),
        MergeStage::NotingCompleted { at } => action is RecordActivity,
        MergeStage::Cleaning { at } => action == (MergeAction::Cleanup {
            item: run.targets()[at as int],
        }),
        MergeStage::FinishingRun => action is FinishPlanRun,
        MergeStage::Reloading => action is ReloadPlanRun,
        MergeStage::Finished => action is Finish,
    }
}

proof fn lemma_next_worktree(items: Seq<MergeItem>, targets: Seq<usize>, from: int)
    requires
        0 <= from <= targets.len(),
    ensures
        from <= next_with_worktree(items, targets, from) <= targets.len(),
        forall|t: int|
            from <= t < next_with_worktree(items, targets, from)
                ==> !items[#[trigger] targets[t] as int].has_worktree,
        next_with_worktree(items, targets, from) < targets.len()
            ==> items[targets[next_with_worktree(items, targets, from)] as int].has_worktree,
    decreases targets.len() - from,
{
    if from < targets.len() && !items[targets[from] as int].has_worktree {
        lemma_next_worktree(items, targets, from + 1);
    }
}

proof fn lemma_next_approved(items: Seq<MergeItem>, from: int)
    requires
        0 <= from <= items.len(),
    ensures
        from <= next_reviewed(items, from) <= items.len(),
        forall|i: int|
            from <= i < next_reviewed(items, from) ==> !(#[trigger] items[i]).has_review,
        next_reviewed(items, from) < items.len() ==> items[next_reviewed(items, from)].has_review,
    decreases items.len() - from,
{
    if from < items.len() && !items[from].has_review {
        lemma_next_approved(items, from + 1);
    }
}

proof fn lemma_shows(
    runs: Seq<MergeRun>,
    events: Seq<MergeEvent>,
    actions: Seq<MergeAction>,
    k: int,
)
    requires
        is_run(runs, events, actions),
        0 <= k < runs.len(),
    ensures
        shows(runs[k], actions[k]),
{
    let run = runs[k];
    assert(run.well_formed());
    assert(run.outcomes.len() <= usize::MAX);
    lemma_positions_partition(run.outcomes@);
    lemma_next_worktree(run.items@, run.targets(), 0);
    if k > 0 {
        let before = runs[k - 1];
        assert(before.well_formed());
        assert(is_step(before, events[k - 1], run, actions[k]));
        assert(before.outcomes.len() <= usize::MAX);
        lemma_positions_partition(before.outcomes@);
        if before.current < before.items@.len() {
            lemma_next_approved(before.items@, before.current + 1);
        }
        if before.stage is Cleaning {
            lemma_next_worktree(run.items@, run.targets(), before.stage->Cleaning_at + 1);
        }
    } else {
        lemma_next_approved(run.items@, 0);
    }
}

// --- The state remembers what happened ---

proof fn lemma_positions_exact(outcomes: Seq<AssignmentMergeOutcome>)
    requires
        outcomes.len() <= usize::MAX,
    ensures
        forall|p: usize| #[trigger]
            merged_positions(outcomes).contains(p) <==> p < outcomes.len()
                && outcomes[p as int] is Merged,
        forall|p: usize| #[trigger]
            unmerged_positions(outcomes).contains(p) <==> p < outcomes.len()
                && !(outcomes[p as int] is Merged),
        forall|a: int, b: int|
            0 <= a < b < merged_positions(outcomes).len() ==> #[trigger] merged_positions(
                outcomes,
            )[a] < #[trigger] merged_positions(outcomes)[b],
        forall|a: int, b: int|
            0 <= a < b < unmerged_positions(outcomes).len() ==> #[trigger] unmerged_positions(
                outcomes,
            )[a] < #[trigger] unmerged_positions(outcomes)[b],
    decreases outcomes.len(),
{
    lemma_positions_partition(outcomes);
    if outcomes.len() > 0 {
        let front = outcomes.drop_last();
        let last = (outcomes.len() - 1) as usize;
        lemma_positions_exact(front);
        lemma_positions_partition(front);
        assert forall|p: usize| #[trigger]
            merged_positions(outcomes).contains(p) <==> p < outcomes.len()
                && outcomes[p as int] is Merged by {
            if p < outcomes.len() && outcomes[p as int] is Merged {
                if p < last {
                    assert(merged_positions(front).contains(p));
                    let i = choose|i: int|
                        0 <= i < merged_positions(front).len() && merged_positions(front)[i] == p;
                    assert(merged_positions(outcomes)[i] == p);
                } else {
                    assert(merged_positions(outcomes)[merged_positions(front).len() as int] == p);
                }
            }
        }
        assert forall|p: usize| #[trigger]
            unmerged_positions(outcomes).contains(p) <==> p < outcomes.len()
                && !(outcomes[p as int] is Merged) by {
            if p < outcomes.len() && !(outcomes[p as int] is Merged) {
                if p < last {
                    assert(unmerged_positions(front).contains(p));
                    let i = choose|i: int|
                        0 <= i < unmerged_positions(front).len() && unmerged_positions(front)[i]
                            == p;
                    assert(unmerged_positions(outcomes)[i] == p);
                } else {
                    assert(unmerged_positions(outcomes)[unmerged_positions(front).len() as int]
                        == p);
                }
            }
        }
    }
}

/// The merge agent is asked for the current assignment, or has been.
spec fn has_entered(stage: MergeStage) -> bool {
    match stage {
        MergeStage::Merging
        | MergeStage::RecordingFailure { .. }
        | MergeStage::RecordingOutput { .. }
        | MergeStage::Staging
        | MergeStage::Blocking { .. }
        | MergeStage::WritingBlocked { .. }
        | MergeStage::NotingBlocked { .. } => true,
        _ => false,
    }
}

spec fn behind_push(run: MergeRun) -> bool {
    match run.stage {
        MergeStage::Promoting { .. }
        | MergeStage::WritingCompleted { .. }
        | MergeStage::NotingCompleted { .. } => true,
        MergeStage::Cleaning { .. } | MergeStage::FinishingRun | MergeStage::Reloading =>
            !run.push_failed && any_merged(run.outcomes@),
        _ => false,
    }
}

spec fn remembers(
    runs: Seq<MergeRun>,
    events: Seq<MergeEvent>,
    actions: Seq<MergeAction>,
    k: int,
) -> bool {
    let run = runs[k];
    let items = runs[0].items@;
    &&& run.items@ == items
    &&& run.has_issue_source == runs[0].has_issue_source
    &&& forall|item: usize|
        #![trigger reached(events, actions, k, item, AssignmentStatus::Merging)]
        reached(events, actions, k, item, AssignmentStatus::Merging) <==> (item
            < run.outcomes@.len() && items[item as int].has_review || item == run.current
            && has_entered(run.stage))
    &&& forall|item: usize|
        #![trigger reached(events, actions, k, item, AssignmentStatus::MergeStaged)]
        reached(events, actions, k, item, AssignmentStatus::MergeStaged) <==> (item
            < run.outcomes@.len() && run.outcomes@[item as int] is Merged)
    &&& forall|item: usize|
        #![trigger reached(events, actions, k, item, AssignmentStatus::Merged)]
        reached(events, actions, k, item, AssignmentStatus::Merged) <==> run.pushed@.contains(item)
    &&& forall|item: usize| #[trigger]
        reached_blocked(events, actions, k, item) <==> (item < run.outcomes@.len()
            && run.outcomes@[item as int] is Blocked || item == run.current && (run.stage
            is WritingBlocked || run.stage is NotingBlocked))
    &&& forall|i: int|
        0 <= i < run.outcomes@.len() ==> (#[trigger] run.outcomes@[i] is NotAttempted
            <==> !items[i].has_review)
    &&& pushed_before(events, k) <==> behind_push(run)
}

/// One more action: what was reached before, and what it reached.
proof fn lemma_reached_next(events: Seq<MergeEvent>, actions: Seq<MergeAction>, k: int)
    requires
        0 <= k,
    ensures
        forall|item: usize, status: AssignmentStatus| #[trigger]
            reached(events, actions, k + 1, item, status) <==> (reached(
                events,
                actions,
                k,
                item,
                status,
            ) || (actions[k] == (MergeAction::Transition { item, status }) && stored(events, k))),
        forall|item: usize| #[trigger]
            reached_blocked(events, actions, k + 1, item) <==> (reached_blocked(
                events,
                actions,
                k,
                item,
            ) || (moves_to_blocked(actions[k], item) && stored(events, k))),
        k < events.len() ==> (pushed_before(events, k + 1) <==> (pushed_before(events, k) || (
        events[k] matches MergeEvent::Pushed(Ok(_))))),
{
    assert forall|item: usize, status: AssignmentStatus| #[trigger]
        reached(events, actions, k + 1, item, status) <==> (reached(
            events,
            actions,
            k,
            item,
            status,
        ) || (actions[k] == (MergeAction::Transition { item, status }) && stored(events, k))) by {
        if reached(events, actions, k + 1, item, status) {
            let j = choose|j: int|
                0 <= j < k + 1 && #[trigger] actions[j] == (MergeAction::Transition {
                    item,
                    status,
                }) && stored(events, j);
            if j < k {
                assert(reached(events, actions, k, item, status));
            }
        }
    }
    assert forall|item: usize| #[trigger]
        reached_blocked(events, actions, k + 1, item) <==> (reached_blocked(
            events,
            actions,
            k,
            item,
        ) || (moves_to_blocked(actions[k], item) && stored(events, k))) by {
        if reached_blocked(events, actions, k + 1, item) {
            let j = choose|j: int|
                0 <= j < k + 1 && #[trigger] moves_to_blocked(actions[j], item) && stored(
                    events,
                    j,
                );
            if j < k {
                assert(reached_blocked(events, actions, k, item));
            }
        }
    }
    if k < events.len() && pushed_before(events, k + 1) {
        let j = choose|j: int|
            0 <= j < k + 1 && j < events.len() && (#[trigger] events[j] matches MergeEvent::Pushed(
                Ok(_),
            ));
        if j < k {
            assert(pushed_before(events, k));
        }
    }
}

#[verifier::rlimit(60)]
#[verifier::spinoff_prover]
proof fn lemma_remembers(
    runs: Seq<MergeRun>,
    events: Seq<MergeEvent>,
    actions: Seq<MergeAction>,
    k: int,
)
    requires
        is_run(runs, events, actions),
        0 <= k < runs.len(),
        !(runs[k].stage is Finished),
    ensures
        remembers(runs, events, actions, k),
    decreases k,
{
    let run = runs[k];
    assert(run.well_formed());
    assert(run.outcomes.len() <= usize::MAX);
    lemma_positions_partition(run.outcomes@);
    lemma_positions_exact(run.outcomes@);
    lemma_next_worktree(run.items@, run.targets(), 0);
    if k == 0 {
        lemma_next_approved(run.items@, 0);
    } else {
        let before = runs[k - 1];
        assert(before.well_formed());
        assert(is_step(before, events[k - 1], run, actions[k]));
        lemma_remembers(runs, events, actions, k - 1);
        lemma_shows(runs, events, actions, k - 1);
        lemma_reached_next(events, actions, k - 1);
        assert(before.outcomes.len() <= usize::MAX);
        lemma_positions_partition(before.outcomes@);
        lemma_positions_exact(before.outcomes@);
        if before.current < before.items@.len() {
            lemma_next_approved(before.items@, before.current + 1);
        }
        if before.stage is Promoting {
            let at = before.stage->Promoting_at as int;
            assert(before.staged@.take(at + 1) =~= before.staged@.take(at).push(before.staged@[at]));
            assert forall|item: usize| #[trigger] run.pushed@.contains(item)
                <==> before.pushed@.contains(item) || item == before.staged@[at] by {
                if item == before.staged@[at] {
                    assert(run.pushed@[at] == item);
                }
                if before.pushed@.contains(item) {
                    let i = choose|i: int|
                        0 <= i < before.pushed@.len() && before.pushed@[i] == item;
                    assert(run.pushed@[i] == item);
                }
            }
        }
    }
}

// --- One assignment ---

/// The merge agent runs on the assignment that was moved to `merging` just before,
/// and on each such assignment.
pub proof fn law_merge_runs_on_entered(
    runs: Seq<MergeRun>,
    events: Seq<MergeEvent>,
    actions: Seq<MergeAction>,
    k: int,
    item: usize,
)
    requires
        is_run(runs, events, actions),
        0 <= k < events.len(),
    ensures
        actions[k + 1] == (MergeAction::RunMerge { item }) <==> actions[k] == (
        MergeAction::Transition { item, status: AssignmentStatus::Merging }) && stored(events, k),
        actions[0] != (MergeAction::RunMerge { item }),
{
    lemma_shows(runs, events, actions, 0);
    lemma_shows(runs, events, actions, k);
    lemma_shows(runs, events, actions, k + 1);
    assert(is_step(runs[k], events[k], runs[k + 1], actions[k + 1]));
    assert(runs[k].well_formed());
}

/// What the merge agent printed for an assignment is stored for that assignment; an
/// agent that failed, or whose output cannot be read, is stored as a failure.
pub proof fn law_merge_is_stored(
    runs: Seq<MergeRun>,
    events: Seq<MergeEvent>,
    actions: Seq<MergeAction>,
    k: int,
    item: usize,
)
    requires
        is_run(runs, events, actions),
        0 <= k < events.len(),
        actions[k] == (MergeAction::RunMerge { item }),
    ensures
        match events[k] {
            MergeEvent::Ran(Ok(stdout)) => match outcome_output(stdout@, "merge"@, "merge"@) {
                Ok((outcome, text, value)) => actions[k + 1] matches MergeAction::RecordOutput {
                    item: of,
                    record,
                } && of == item && record.phase@ == "merge"@ && record.outcome@ == outcome
                    && record.body.text@ == text && record.body.value@ == value,
                Err(message) => actions[k + 1] matches MergeAction::RecordFailure {
                    item: of,
                    record,
                } && of == item && is_merge_failure(record, message),
            },
            MergeEvent::Ran(Err(error)) => actions[k + 1] matches MergeAction::RecordFailure {
                item: of,
                record,
            } && of == item && is_merge_failure(record, error.text()),
            _ => actions[k + 1] is Finish,
        },
{
    lemma_shows(runs, events, actions, k);
    lemma_shows(runs, events, actions, k + 1);
    assert(is_step(runs[k], events[k], runs[k + 1], actions[k + 1]));
}

/// An assignment is moved to `merge_staged` only after the merge agent ran on that
/// assignment, and its output was read, says no block, and was stored for it.
pub proof fn law_staged_was_merged(
    runs: Seq<MergeRun>,
    events: Seq<MergeEvent>,
    actions: Seq<MergeAction>,
    k: int,
    item: usize,
)
    requires
        is_run(runs, events, actions),
        0 <= k < actions.len(),
        actions[k] == (MergeAction::Transition { item, status: AssignmentStatus::MergeStaged }),
    ensures
        k >= 3,
        actions[k - 3] == (MergeAction::Transition { item, status: AssignmentStatus::Merging }),
        stored(events, k - 3),
        actions[k - 2] == (MergeAction::RunMerge { item }),
        stored(events, k - 1),
        actions[k - 1] matches MergeAction::RecordOutput { item: of, record } && of == item
            && record.outcome@ != "blocked"@ && (events[k - 2] matches MergeEvent::Ran(Ok(stdout))
            && outcome_output(stdout@, "merge"@, "merge"@) == Ok::<_, Seq<char>>(
            (record.outcome@, record.body.text@, record.body.value@),
        )),
{
    lemma_shows(runs, events, actions, k);
    assert(runs[k].well_formed());
    assert(k > 0) by {
        lemma_next_approved(runs[0].items@, 0);
    }
    assert(is_step(runs[k - 1], events[k - 1], runs[k], actions[k]));
    assert(runs[k - 1].well_formed());
    lemma_shows(runs, events, actions, k - 1);
    assert(runs[k - 1].stage is RecordingOutput);
    assert(k > 1);
    assert(is_step(runs[k - 2], events[k - 2], runs[k - 1], actions[k - 1]));
    assert(runs[k - 2].well_formed());
    lemma_shows(runs, events, actions, k - 2);
    assert(runs[k - 2].stage is Merging);
    assert(k > 2);
    law_merge_runs_on_entered(runs, events, actions, k - 3, item);
}

/// After its output was stored, an assignment is staged, unless the output says that
/// the merge is blocked: then the assignment is blocked for the reason in it.
pub proof fn law_stored_merge_decides(
    runs: Seq<MergeRun>,
    events: Seq<MergeEvent>,
    actions: Seq<MergeAction>,
    k: int,
    item: usize,
    record: PhaseRecord,
)
    requires
        is_run(runs, events, actions),
        0 <= k < events.len(),
        actions[k] == (MergeAction::RecordOutput { item, record }),
        stored(events, k),
    ensures
        if record.outcome@ == "blocked"@ {
            actions[k + 1] matches MergeAction::Transition {
                item: of,
                status: AssignmentStatus::Blocked { kind, detail },
            } && of == item && kind == BlockReason::MergePhaseFailed && detail@
                == merge_block_reason(record.body.value@)
        } else {
            actions[k + 1] == (MergeAction::Transition {
                item,
                status: AssignmentStatus::MergeStaged,
            })
        },
{
    lemma_shows(runs, events, actions, k);
    lemma_shows(runs, events, actions, k + 1);
    assert(is_step(runs[k], events[k], runs[k + 1], actions[k + 1]));
}

/// Before the push, an assignment whose failure was stored is blocked with the error
/// as its detail.
pub proof fn law_failed_merge_is_blocked(
    runs: Seq<MergeRun>,
    events: Seq<MergeEvent>,
    actions: Seq<MergeAction>,
    k: int,
    item: usize,
    record: PhaseRecord,
    error: Seq<char>,
)
    requires
        is_run(runs, events, actions),
        0 < k < events.len(),
        actions[k - 1] == (MergeAction::RunMerge { item }),
        actions[k] == (MergeAction::RecordFailure { item, record }),
        record.body.value@ == JsonModel::Object(seq![("error"@, JsonModel::Text(error))]),
        events[k] is Noted,
    ensures
        actions[k + 1] matches MergeAction::Transition {
            item: of,
            status: AssignmentStatus::Blocked { kind, detail },
        } && of == item && kind == BlockReason::MergePhaseFailed && detail@ == error,
{
    lemma_shows(runs, events, actions, k - 1);
    lemma_shows(runs, events, actions, k);
    lemma_shows(runs, events, actions, k + 1);
    assert(is_step(runs[k - 1], events[k - 1], runs[k], actions[k]));
    assert(is_step(runs[k], events[k], runs[k + 1], actions[k + 1]));
    if let MergeStage::RecordingFailure { reason } = runs[k].stage {
        let held = record.body.value@->Object_0;
        assert(held[0] == ("error"@, JsonModel::Text(reason@)));
        assert(held[0] == ("error"@, JsonModel::Text(error)));
    }
}

/// A block is written back to the Issue Source, where the Project has one, for the
/// assignment that was blocked; a write-back that fails is noted for it, and the
/// run goes on either way.
pub proof fn law_block_is_written_back(
    runs: Seq<MergeRun>,
    events: Seq<MergeEvent>,
    actions: Seq<MergeAction>,
    k: int,
    item: usize,
)
    requires
        is_run(runs, events, actions),
        0 <= k < events.len(),
    ensures
        actions[k + 1] == (MergeAction::WriteLifecycle { item, status: LifecycleStatus::Blocked })
            <==> moves_to_blocked(actions[k], item) && stored(events, k)
            && runs[0].has_issue_source,
        actions[k] matches MergeAction::WriteLifecycle { item: of, status } ==> match events[k] {
            MergeEvent::Written(Err(error)) => actions[k + 1] matches MergeAction::RecordActivity {
                item: noted,
                kind,
                detail,
            } && noted == of && kind@ == "lifecycle_writeback_failed"@ && detail@ == (if status
                == LifecycleStatus::Blocked {
                "blocked Lifecycle Status write-back during Merge Phase failed: "@
            } else {
                "completed Lifecycle Status write-back after push failed: "@
            }) + error.text(),
            MergeEvent::Written(Ok(_)) => !(actions[k + 1] is RecordActivity) && !(actions[k + 1]
                is Finish),
            _ => actions[k + 1] is Finish,
        },
{
    lemma_shows(runs, events, actions, k);
    lemma_shows(runs, events, actions, k + 1);
    assert(is_step(runs[k], events[k], runs[k + 1], actions[k + 1]));
    assert(runs[k].well_formed() && runs[k + 1].well_formed());
    if !(runs[k].stage is Finished) {
        lemma_remembers(runs, events, actions, k);
    }
}

// --- The batch ---

/// What came of an assignment, before `k`: it was staged or blocked.
pub open spec fn is_settled(
    events: Seq<MergeEvent>,
    actions: Seq<MergeAction>,
    k: int,
    item: usize,
) -> bool {
    reached(events, actions, k, item, AssignmentStatus::MergeStaged) || reached_blocked(
        events,
        actions,
        k,
        item,
    )
}

/// Only approved assignments are merged, each once and in the order of the batch; and
/// before one is begun, each approved one before it has been staged or blocked.
pub proof fn law_approved_are_merged_in_order(
    runs: Seq<MergeRun>,
    events: Seq<MergeEvent>,
    actions: Seq<MergeAction>,
    k: int,
    item: usize,
)
    requires
        is_run(runs, events, actions),
        0 <= k < actions.len(),
        actions[k] == (MergeAction::Transition { item, status: AssignmentStatus::Merging }),
    ensures
        item < runs[0].items@.len(),
        runs[0].items@[item as int].has_review,
        forall|other: usize|
            #![trigger runs[0].items@[other as int]]
            other < item && runs[0].items@[other as int].has_review ==> is_settled(
                events,
                actions,
                k,
                other,
            ),
        forall|other: usize|
            #![trigger reached(events, actions, k, other, AssignmentStatus::Merging)]
            reached(events, actions, k, other, AssignmentStatus::Merging) ==> other < item,
{
    lemma_shows(runs, events, actions, k);
    assert(runs[k].well_formed());
    assert(runs[k].stage is Entering) by {
        lemma_next_approved(runs[0].items@, 0);
    }
    lemma_remembers(runs, events, actions, k);
    assert forall|other: usize|
        #![trigger runs[0].items@[other as int]]
        other < item && runs[0].items@[other as int].has_review implies is_settled(
        events,
        actions,
        k,
        other,
    ) by {
        let outcome = runs[k].outcomes@[other as int];
        assert(reached(events, actions, k, other, AssignmentStatus::MergeStaged) <==> outcome
            is Merged);
        assert(reached_blocked(events, actions, k, other) <==> outcome is Blocked);
    }
}

/// The merges are over when the push, the clean-up or the end of the Plan Run is
/// asked for: each approved assignment has been staged or blocked.
pub proof fn law_every_approved_is_settled(
    runs: Seq<MergeRun>,
    events: Seq<MergeEvent>,
    actions: Seq<MergeAction>,
    k: int,
    item: usize,
)
    requires
        is_run(runs, events, actions),
        0 <= k < actions.len(),
        actions[k] is Push || actions[k] is Cleanup || actions[k] is FinishPlanRun,
        item < runs[0].items@.len(),
        runs[0].items@[item as int].has_review,
    ensures
        is_settled(events, actions, k, item),
{
    lemma_shows(runs, events, actions, k);
    assert(runs[k].well_formed());
    lemma_remembers(runs, events, actions, k);
    let outcome = runs[k].outcomes@[item as int];
    assert(reached(events, actions, k, item, AssignmentStatus::MergeStaged) <==> outcome is Merged);
    assert(reached_blocked(events, actions, k, item) <==> outcome is Blocked);
}

/// The Integration Branch is pushed only where something was staged; and a Plan Run
/// in which something was staged does not end before the push was tried.
pub proof fn law_push_iff_staged(
    runs: Seq<MergeRun>,
    events: Seq<MergeEvent>,
    actions: Seq<MergeAction>,
    k: int,
)
    requires
        is_run(runs, events, actions),
        0 <= k < actions.len(),
    ensures
        actions[k] is Push ==> exists|item: usize|
            reached(events, actions, k, item, AssignmentStatus::MergeStaged),
        actions[k] is FinishPlanRun && (exists|item: usize|
            reached(events, actions, k, item, AssignmentStatus::MergeStaged)) ==> exists|j: int|
            0 <= j < k && #[trigger] actions[j] is Push,
{
    lemma_shows(runs, events, actions, k);
    assert(runs[k].well_formed());
    if actions[k] is Push {
        lemma_remembers(runs, events, actions, k);
        let i = choose|i: int|
            0 <= i < runs[k].outcomes@.len() && #[trigger] runs[k].outcomes@[i] is Merged;
        assert(runs[k].outcomes.len() <= usize::MAX);
        assert(reached(events, actions, k, i as usize, AssignmentStatus::MergeStaged));
    }
    if actions[k] is FinishPlanRun && (exists|item: usize|
        reached(events, actions, k, item, AssignmentStatus::MergeStaged)) {
        lemma_remembers(runs, events, actions, k);
        let item = choose|item: usize|
            reached(events, actions, k, item, AssignmentStatus::MergeStaged);
        assert(runs[k].outcomes@[item as int] is Merged);
        let j = lemma_push_was_tried(runs, events, actions, k);
        assert(actions[j] is Push);
    }
}

proof fn lemma_push_was_tried(
    runs: Seq<MergeRun>,
    events: Seq<MergeEvent>,
    actions: Seq<MergeAction>,
    k: int,
) -> (j: int)
    requires
        is_run(runs, events, actions),
        0 <= k < runs.len(),
        any_merged(runs[k].outcomes@),
        runs[k].outcomes@.len() == runs[k].items@.len(),
        !(runs[k].stage is Finished),
        !(runs[k].stage is Pushing),
        !has_entered(runs[k].stage),
        !(runs[k].stage is Entering),
    ensures
        0 <= j < k,
        actions[j] is Push,
        events[j] is Pushed,
        runs[k].push_failed <==> (events[j] matches MergeEvent::Pushed(Err(_))),
    decreases k,
{
    lemma_next_approved(runs[0].items@, 0);
    assert(k > 0);
    assert(is_step(runs[k - 1], events[k - 1], runs[k], actions[k]));
    assert(runs[k - 1].well_formed() && runs[k].well_formed());
    lemma_shows(runs, events, actions, k - 1);
    if runs[k - 1].current < runs[k - 1].items@.len() {
        lemma_next_approved(runs[k - 1].items@, runs[k - 1].current + 1);
    }
    if runs[k - 1].stage is Pushing {
        k - 1
    } else {
        lemma_push_was_tried(runs, events, actions, k - 1)
    }
}

/// Only work that was staged is moved to `merged`, and its completion is written back
/// only when it was.
pub proof fn law_merged_was_staged(
    runs: Seq<MergeRun>,
    events: Seq<MergeEvent>,
    actions: Seq<MergeAction>,
    k: int,
    item: usize,
)
    requires
        is_run(runs, events, actions),
        0 <= k < actions.len(),
    ensures
        actions[k] == (MergeAction::Transition { item, status: AssignmentStatus::Merged })
            ==> reached(events, actions, k, item, AssignmentStatus::MergeStaged),
        actions[k] == (MergeAction::WriteLifecycle { item, status: LifecycleStatus::Completed })
            ==> reached(events, actions, k, item, AssignmentStatus::Merged)
            && runs[0].has_issue_source,
{
    lemma_shows(runs, events, actions, k);
    assert(runs[k].well_formed());
    assert(runs[k].outcomes.len() <= usize::MAX);
    lemma_positions_exact(runs[k].outcomes@);
    if !(runs[k].stage is Finished) {
        lemma_remembers(runs, events, actions, k);
    }
    if runs[k].stage is Promoting {
        let at = runs[k].stage->Promoting_at as int;
        assert(runs[k].staged@.contains(runs[k].staged@[at]));
    }
    if runs[k].stage is WritingCompleted {
        let at = runs[k].stage->WritingCompleted_at as int;
        assert(runs[k].pushed@.contains(runs[k].pushed@[at]));
    }
}

/// The completion of an assignment was asked for before `k`.
pub open spec fn completion_written(actions: Seq<MergeAction>, k: int, item: usize) -> bool {
    exists|j: int|
        0 <= j < k && #[trigger] actions[j] == (MergeAction::WriteLifecycle {
            item,
            status: LifecycleStatus::Completed,
        })
}

/// The clean-up of an assignment was asked for before `k`.
pub open spec fn cleaned_up(actions: Seq<MergeAction>, k: int, item: usize) -> bool {
    exists|j: int| 0 <= j < k && #[trigger] actions[j] == (MergeAction::Cleanup { item })
}

spec fn completed_to(run: MergeRun) -> int {
    match run.stage {
        MergeStage::WritingCompleted { at } => at as int,
        MergeStage::NotingCompleted { at } => at + 1,
        _ => run.pushed@.len() as int,
    }
}

proof fn lemma_completions(
    runs: Seq<MergeRun>,
    events: Seq<MergeEvent>,
    actions: Seq<MergeAction>,
    k: int,
    t: int,
)
    requires
        is_run(runs, events, actions),
        0 <= k < runs.len(),
        runs[k].stage is WritingCompleted || runs[k].stage is NotingCompleted || runs[k].stage
            is Cleaning || runs[k].stage is FinishingRun,
        runs[k].has_issue_source,
        0 <= t < completed_to(runs[k]),
        t < runs[k].pushed@.len(),
    ensures
        completion_written(actions, k, runs[k].pushed@[t]),
    decreases k,
{
    lemma_next_approved(runs[0].items@, 0);
    assert(runs[k].well_formed());
    assert(k > 0);
    let before = runs[k - 1];
    assert(is_step(before, events[k - 1], runs[k], actions[k]));
    assert(before.well_formed());
    lemma_shows(runs, events, actions, k - 1);
    if before.current < before.items@.len() {
        lemma_next_approved(before.items@, before.current + 1);
    }
    assert(before.outcomes.len() <= usize::MAX);
    lemma_positions_partition(runs[k].outcomes@);
    if before.stage is WritingCompleted && t == before.stage->WritingCompleted_at {
        assert(actions[k - 1] == (MergeAction::WriteLifecycle {
            item: runs[k].pushed@[t],
            status: LifecycleStatus::Completed,
        }));
    } else {
        assert(before.stage is WritingCompleted || before.stage is NotingCompleted || before.stage
            is Cleaning);
        lemma_completions(runs, events, actions, k - 1, t);
        let j = choose|j: int|
            0 <= j < k - 1 && #[trigger] actions[j] == (MergeAction::WriteLifecycle {
                item: runs[k].pushed@[t],
                status: LifecycleStatus::Completed,
            });
        assert(actions[j] == (MergeAction::WriteLifecycle {
            item: runs[k].pushed@[t],
            status: LifecycleStatus::Completed,
        }));
    }
}

/// Where the push succeeded, all that was staged is moved to `merged` before the Plan
/// Run ends, and each completion is written back, where there is an Issue Source.
pub proof fn law_pushed_work_is_completed(
    runs: Seq<MergeRun>,
    events: Seq<MergeEvent>,
    actions: Seq<MergeAction>,
    k: int,
    item: usize,
)
    requires
        is_run(runs, events, actions),
        0 <= k < actions.len(),
        actions[k] is FinishPlanRun,
        pushed_before(events, k),
        reached(events, actions, k, item, AssignmentStatus::MergeStaged),
    ensures
        reached(events, actions, k, item, AssignmentStatus::Merged),
        runs[0].has_issue_source ==> completion_written(actions, k, item),
{
    lemma_shows(runs, events, actions, k);
    assert(runs[k].well_formed());
    assert(runs[k].outcomes.len() <= usize::MAX);
    lemma_positions_exact(runs[k].outcomes@);
    lemma_remembers(runs, events, actions, k);
    assert(runs[k].staged@.contains(item));
    assert(runs[k].pushed@.contains(item));
    if runs[0].has_issue_source {
        let t = choose|t: int| 0 <= t < runs[k].pushed@.len() && runs[k].pushed@[t] == item;
        lemma_completions(runs, events, actions, k, t);
    }
}

/// The assignment has come to rest before `k`: it was merged, it was blocked, or it
/// was never approved.
pub open spec fn at_rest(
    runs: Seq<MergeRun>,
    events: Seq<MergeEvent>,
    actions: Seq<MergeAction>,
    k: int,
    item: usize,
) -> bool {
    ||| reached(events, actions, k, item, AssignmentStatus::Merged)
    ||| reached_blocked(events, actions, k, item)
    ||| !runs[0].items@[item as int].has_review
}

/// Only an assignment that has come to rest, and has a worktree, is cleaned up.
pub proof fn law_only_rested_is_cleaned_up(
    runs: Seq<MergeRun>,
    events: Seq<MergeEvent>,
    actions: Seq<MergeAction>,
    k: int,
    item: usize,
)
    requires
        is_run(runs, events, actions),
        0 <= k < actions.len(),
        actions[k] == (MergeAction::Cleanup { item }),
    ensures
        item < runs[0].items@.len(),
        runs[0].items@[item as int].has_worktree,
        at_rest(runs, events, actions, k, item),
{
    lemma_shows(runs, events, actions, k);
    let run = runs[k];
    assert(run.well_formed());
    assert(run.outcomes.len() <= usize::MAX);
    lemma_positions_exact(run.outcomes@);
    lemma_positions_partition(run.outcomes@);
    lemma_remembers(runs, events, actions, k);
    let at = run.stage->Cleaning_at as int;
    lemma_cleaning_has_worktree(runs, events, actions, k);
    if at < run.pushed@.len() {
        assert(run.pushed@.contains(item)) by {
            assert(run.pushed@[at] == item);
        }
        assert(reached(events, actions, k, item, AssignmentStatus::Merged));
        assert(run.staged@.contains(item));
    } else {
        assert(run.blocked@.contains(item)) by {
            assert(run.blocked@[at - run.pushed@.len()] == item);
        }
        let outcome = run.outcomes@[item as int];
        assert(outcome is NotAttempted <==> !runs[0].items@[item as int].has_review);
        assert(reached_blocked(events, actions, k, item) <==> outcome is Blocked);
    }
}

proof fn lemma_cleaning_has_worktree(
    runs: Seq<MergeRun>,
    events: Seq<MergeEvent>,
    actions: Seq<MergeAction>,
    k: int,
)
    requires
        is_run(runs, events, actions),
        0 <= k < runs.len(),
        runs[k].stage is Cleaning,
    ensures
        runs[k].items@[runs[k].targets()[runs[k].stage->Cleaning_at as int] as int].has_worktree,
{
    let run = runs[k];
    assert(run.well_formed());
    assert(run.outcomes.len() <= usize::MAX);
    lemma_positions_partition(run.outcomes@);
    lemma_next_worktree(run.items@, run.targets(), 0);
    if k > 0 {
        let before = runs[k - 1];
        assert(is_step(before, events[k - 1], run, actions[k]));
        assert(before.well_formed());
        if before.stage is Cleaning {
            lemma_next_worktree(run.items@, run.targets(), before.stage->Cleaning_at + 1);
        }
    }
}

spec fn cleaned_to(run: MergeRun) -> int {
    match run.stage {
        MergeStage::Cleaning { at } => at as int,
        _ => run.targets().len() as int,
    }
}

proof fn lemma_cleanups(
    runs: Seq<MergeRun>,
    events: Seq<MergeEvent>,
    actions: Seq<MergeAction>,
    k: int,
    t: int,
)
    requires
        is_run(runs, events, actions),
        0 <= k < runs.len(),
        runs[k].stage is Cleaning || runs[k].stage is FinishingRun,
        0 <= t < cleaned_to(runs[k]),
        runs[k].items@[runs[k].targets()[t] as int].has_worktree,
    ensures
        cleaned_up(actions, k, runs[k].targets()[t]),
    decreases k,
{
    let run = runs[k];
    assert(run.well_formed());
    assert(run.outcomes.len() <= usize::MAX);
    lemma_positions_partition(run.outcomes@);
    lemma_next_worktree(run.items@, run.targets(), 0);
    assert(k > 0);
    let before = runs[k - 1];
    assert(is_step(before, events[k - 1], run, actions[k]));
    assert(before.well_formed());
    if before.stage is Cleaning {
        let at = before.stage->Cleaning_at as int;
        lemma_next_worktree(run.items@, run.targets(), at + 1);
        lemma_shows(runs, events, actions, k - 1);
        assert(run.targets() == before.targets());
        if t < at {
            lemma_cleanups(runs, events, actions, k - 1, t);
            let item = run.targets()[t];
            let j = choose|j: int|
                0 <= j < k - 1 && #[trigger] actions[j] == (MergeAction::Cleanup { item });
            assert(actions[j] == (MergeAction::Cleanup { item }));
        } else {
            assert(t == at) by {
                if t > at {
                    assert(!run.items@[run.targets()[t] as int].has_worktree);
                }
            }
            assert(actions[k - 1] == (MergeAction::Cleanup { item: run.targets()[t] }));
        }
    } else {
        assert(!run.items@[run.targets()[t] as int].has_worktree);
    }
}

/// Before the Plan Run ends, each assignment that has come to rest and has a worktree
/// is cleaned up.
pub proof fn law_rested_is_cleaned_up(
    runs: Seq<MergeRun>,
    events: Seq<MergeEvent>,
    actions: Seq<MergeAction>,
    k: int,
    item: usize,
)
    requires
        is_run(runs, events, actions),
        0 <= k < actions.len(),
        actions[k] is FinishPlanRun,
        item < runs[0].items@.len(),
        runs[0].items@[item as int].has_worktree,
        at_rest(runs, events, actions, k, item),
    ensures
        cleaned_up(actions, k, item),
{
    lemma_shows(runs, events, actions, k);
    let run = runs[k];
    assert(run.well_formed());
    assert(run.outcomes.len() <= usize::MAX);
    lemma_positions_exact(run.outcomes@);
    lemma_remembers(runs, events, actions, k);
    let outcome = run.outcomes@[item as int];
    assert(outcome is NotAttempted <==> !runs[0].items@[item as int].has_review);
    if run.pushed@.contains(item) {
        let t = choose|t: int| 0 <= t < run.pushed@.len() && run.pushed@[t] == item;
        assert(run.targets()[t] == item);
        lemma_cleanups(runs, events, actions, k, t);
    } else {
        assert(run.blocked@.contains(item));
        let t = choose|t: int| 0 <= t < run.blocked@.len() && run.blocked@[t] == item;
        assert(run.targets()[run.pushed@.len() + t] == item);
        lemma_cleanups(runs, events, actions, k, run.pushed@.len() + t);
    }
}

/// The Plan Run succeeds exactly where the Integration Branch was pushed; otherwise
/// it fails.
pub proof fn law_success_is_a_push(
    runs: Seq<MergeRun>,
    events: Seq<MergeEvent>,
    actions: Seq<MergeAction>,
    k: int,
    terminal: PlanRunTerminal,
)
    requires
        is_run(runs, events, actions),
        0 <= k < actions.len(),
        actions[k] == (MergeAction::FinishPlanRun { terminal }),
    ensures
        terminal == PlanRunTerminal::Succeeded <==> pushed_before(events, k),
        terminal == PlanRunTerminal::Failed <==> !pushed_before(events, k),
{
    lemma_shows(runs, events, actions, k);
    assert(runs[k].well_formed());
    assert(runs[k].outcomes.len() <= usize::MAX);
    lemma_positions_partition(runs[k].outcomes@);
    lemma_next_worktree(runs[k].items@, runs[k].targets(), 0);
    lemma_remembers(runs, events, actions, k);
    if k > 0 {
        let before = runs[k - 1];
        assert(is_step(before, events[k - 1], runs[k], actions[k]));
        assert(before.well_formed());
        if before.stage is Cleaning {
            lemma_next_worktree(
                runs[k].items@,
                runs[k].targets(),
                before.stage->Cleaning_at + 1,
            );
        }
    }
}

/// The failure of the push was stored for the assignment, between `i` and `k`.
pub open spec fn push_failure_stored(
    actions: Seq<MergeAction>,
    i: int,
    k: int,
    item: usize,
    error: Seq<char>,
) -> bool {
    exists|j: int|
        i < j < k && (#[trigger] actions[j] matches MergeAction::RecordFailure { item: of, record }
            && of == item && is_merge_failure(record, error))
}

proof fn lemma_push_failures(
    runs: Seq<MergeRun>,
    events: Seq<MergeEvent>,
    actions: Seq<MergeAction>,
    i: int,
    k: int,
    t: int,
    error: Seq<char>,
)
    requires
        is_run(runs, events, actions),
        0 <= i < k < runs.len(),
        events[i] matches MergeEvent::Pushed(Err(failure)) && failure.text() == error,
        !(runs[k].stage is Finished),
        0 <= t < runs[k].staged@.len(),
        runs[k].stage matches MergeStage::RecordingPushFailure { at, .. } ==> t < at,
    ensures
        push_failure_stored(actions, i, k, runs[k].staged@[t], error),
    decreases k,
{
    let run = runs[k];
    let before = runs[k - 1];
    assert(is_step(before, events[k - 1], run, actions[k]));
    assert(before.well_formed() && run.well_formed());
    lemma_shows(runs, events, actions, k - 1);
    lemma_push_failure_follows(runs, events, actions, i, k, error);
    if i == k - 1 {
        assert(runs[i].stage is Pushing);
    } else {
        lemma_push_failure_follows(runs, events, actions, i, k - 1, error);
        if before.stage is RecordingPushFailure && t == before.stage->RecordingPushFailure_at {
            assert(actions[k - 1] matches MergeAction::RecordFailure { item, record } && item
                == run.staged@[t] && is_merge_failure(record, error));
        } else {
            lemma_push_failures(runs, events, actions, i, k - 1, t, error);
            let item = run.staged@[t];
            let j = choose|j: int|
                i < j < k - 1 && (#[trigger] actions[j] matches MergeAction::RecordFailure {
                    item: of,
                    record,
                } && of == item && is_merge_failure(record, error));
            assert(actions[j] matches MergeAction::RecordFailure { item: of, record } && of == item
                && is_merge_failure(record, error));
        }
    }
}

/// After a failed push the run stores it, cleans up, and ends.
proof fn lemma_push_failure_follows(
    runs: Seq<MergeRun>,
    events: Seq<MergeEvent>,
    actions: Seq<MergeAction>,
    i: int,
    k: int,
    error: Seq<char>,
)
    requires
        is_run(runs, events, actions),
        0 <= i < k < runs.len(),
        events[i] matches MergeEvent::Pushed(Err(failure)) && failure.text() == error,
    ensures
        match runs[k].stage {
            MergeStage::RecordingPushFailure { at, error: kept } => kept@ == error,
            MergeStage::Cleaning { .. }
            | MergeStage::FinishingRun
            | MergeStage::Reloading
            | MergeStage::Finished => true,
            _ => false,
        },
        runs[k].push_failed,
        runs[k].staged@ == runs[i].staged@,
    decreases k,
{
    assert(is_step(runs[k - 1], events[k - 1], runs[k], actions[k]));
    assert(runs[k - 1].well_formed() && runs[k].well_formed());
    if i < k - 1 {
        lemma_push_failure_follows(runs, events, actions, i, k - 1, error);
    }
}

/// A push that failed is stored, with its error, for each staged assignment before the
/// Plan Run ends, and for no other one.
pub proof fn law_failed_push_is_stored(
    runs: Seq<MergeRun>,
    events: Seq<MergeEvent>,
    actions: Seq<MergeAction>,
    i: int,
    k: int,
    item: usize,
    error: Seq<char>,
)
    requires
        is_run(runs, events, actions),
        0 <= i < k < actions.len(),
        events[i] matches MergeEvent::Pushed(Err(failure)) && failure.text() == error,
    ensures
        actions[k] is FinishPlanRun && reached(
            events,
            actions,
            k,
            item,
            AssignmentStatus::MergeStaged,
        ) ==> push_failure_stored(actions, i, k, item, error),
        actions[k] matches MergeAction::RecordFailure { item: of, record } ==> reached(
            events,
            actions,
            k,
            of,
            AssignmentStatus::MergeStaged,
        ) && is_merge_failure(record, error),
{
    lemma_shows(runs, events, actions, k);
    let run = runs[k];
    assert(run.well_formed());
    assert(run.outcomes.len() <= usize::MAX);
    lemma_positions_exact(run.outcomes@);
    lemma_push_failure_follows(runs, events, actions, i, k, error);
    if !(run.stage is Finished) {
        lemma_remembers(runs, events, actions, k);
    }
    if actions[k] is FinishPlanRun && reached(
        events,
        actions,
        k,
        item,
        AssignmentStatus::MergeStaged,
    ) {
        assert(run.staged@.contains(item));
        let t = choose|t: int| 0 <= t < run.staged@.len() && run.staged@[t] == item;
        lemma_push_failures(runs, events, actions, i, k, t, error);
    }
    if run.stage is RecordingPushFailure {
        let at = run.stage->RecordingPushFailure_at as int;
        assert(run.staged@.contains(run.staged@[at]));
    }
}

/// The run ends with the error of the database that failed, at once and only then;
/// without one it ends when the finished Plan Run was loaded.
pub proof fn law_end_of_the_run(
    runs: Seq<MergeRun>,
    events: Seq<MergeEvent>,
    actions: Seq<MergeAction>,
    k: int,
)
    requires
        is_run(runs, events, actions),
        0 <= k < events.len(),
    ensures
        events[k] matches MergeEvent::Stored(Err(error)) ==> actions[k + 1] == (
        MergeAction::Finish { result: Err(error) }),
        actions[k + 1] matches MergeAction::Finish { result: Err(error) } ==> events[k] == (
        MergeEvent::Stored(Err(error))),
        actions[k + 1] matches MergeAction::Finish { result: Ok(_) } ==> k > 0 && actions[k]
            is ReloadPlanRun && stored(events, k) && actions[k - 1] is FinishPlanRun && stored(
            events,
            k - 1,
        ),
        actions[k] is FinishPlanRun && stored(events, k) ==> actions[k + 1] is ReloadPlanRun,
        actions[k] is ReloadPlanRun && stored(events, k) ==> actions[k + 1] == (
        MergeAction::Finish { result: Ok(()) }),
{
    lemma_shows(runs, events, actions, k);
    lemma_shows(runs, events, actions, k + 1);
    assert(is_step(runs[k], events[k], runs[k + 1], actions[k + 1]));
    assert(runs[k].well_formed() && runs[k + 1].well_formed());
    if runs[k].current < runs[k].items@.len() {
        lemma_next_approved(runs[k].items@, runs[k].current + 1);
    }
    if runs[k].stage is Reloading {
        lemma_next_approved(runs[0].items@, 0);
        assert(k > 0);
        assert(is_step(runs[k - 1], events[k - 1], runs[k], actions[k]));
        lemma_shows(runs, events, actions, k - 1);
    }
}

} // verus!
