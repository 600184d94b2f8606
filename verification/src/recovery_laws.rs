//! What holds of every recovery after a restart, said of what it asks for and of what
//! it is told.

use vstd::prelude::*;

#[allow(unused_imports)]
use crate::boot_recovery_scanner::{
    is_run, is_step, InFlightPhaseRowSummary, Recovery, RecoveryAction, RecoveryEvent,
    RecoveryStage,
};
#[allow(unused_imports)]
use crate::contracts::BlockReason;
#[allow(unused_imports)]
use crate::problem::{PersistenceError, PersistenceErrorKind};
#[allow(unused_imports)]
use crate::text::views;

verus! {

spec fn shows(run: Recovery, action: RecoveryAction) -> bool {
    match run.stage {
        RecoveryStage::MarkingPlanning => action is MarkRow,
        RecoveryStage::ReadingAssignment => action is ReadAssignment,
        RecoveryStage::MarkingSettled => action is MarkRow,
        RecoveryStage::Blocking => action is Block,
        RecoveryStage::MarkingBlocked { source_id } => action is MarkRow,
        RecoveryStage::PublishingBlock => action is PublishBlock,
        RecoveryStage::ReadingPlanRun => action is ReadPlanRun,
        RecoveryStage::FinishingPlanRun => action is FinishPlanRun,
        RecoveryStage::PublishingPlanRun => action is PublishPlanRun,
        RecoveryStage::Finished => action is Finish,
        RecoveryStage::Failed => action is Fail,
    }
}

proof fn lemma_shows(
    runs: Seq<Recovery>,
    events: Seq<RecoveryEvent>,
    actions: Seq<RecoveryAction>,
    k: int,
)
    requires
        is_run(runs, events, actions),
        0 <= k < runs.len(),
    ensures
        shows(runs[k], actions[k]),
        runs[k].rows == runs[0].rows,
        runs[k].plan_runs == runs[0].plan_runs,
    decreases k,
{
    if k > 0 {
        lemma_shows(runs, events, actions, k - 1);
        assert(is_step(runs[k - 1], events[k - 1], runs[k], actions[k]));
    }
}

/// An assignment whose phase was in flight is blocked, because of the restart, exactly
/// where its status is none of `merge_staged`, `merged` and `blocked`; in these three
/// cases only its row is marked.
pub proof fn law_interrupted_is_blocked(
    runs: Seq<Recovery>,
    events: Seq<RecoveryEvent>,
    actions: Seq<RecoveryAction>,
    k: int,
    status: String,
)
    requires
        is_run(runs, events, actions),
        0 <= k < events.len(),
        events[k] == (RecoveryEvent::AssignmentRead { status }),
    ensures
        actions[k + 1] is Block <==> status@ != "merge_staged"@ && status@ != "merged"@ && status@
            != "blocked"@,
        actions[k + 1] is MarkRow <==> status@ == "merge_staged"@ || status@ == "merged"@ || status@
            == "blocked"@,
        actions[k + 1] matches RecoveryAction::Block { reason, detail } ==> reason
            == BlockReason::OrchestratorRestart && detail@
            == "orchestrator restarted while this phase was running"@,
        runs[k + 1].at == runs[k].at,
{
    assert(is_step(runs[k], events[k], runs[k + 1], actions[k + 1]));
}

/// In each status that an assignment has while an agent works on it, or while it waits
/// for one, a restart blocks it.
pub proof fn law_each_working_status_is_blocked(
    runs: Seq<Recovery>,
    events: Seq<RecoveryEvent>,
    actions: Seq<RecoveryAction>,
    k: int,
    status: String,
)
    requires
        is_run(runs, events, actions),
        0 <= k < events.len(),
        events[k] == (RecoveryEvent::AssignmentRead { status }),
        status@ == "implementing"@ || status@ == "implemented"@ || status@ == "reviewed"@ || status@
            == "merging"@,
    ensures
        actions[k + 1] is Block,
{
    reveal_strlit("implementing");
    reveal_strlit("implemented");
    reveal_strlit("reviewed");
    reveal_strlit("merging");
    reveal_strlit("merge_staged");
    reveal_strlit("merged");
    reveal_strlit("blocked");
    assert("implementing"@.len() == 12 && "implemented"@.len() == 11 && "reviewed"@.len() == 8
        && "merging"@.len() == 7 && "merge_staged"@.len() == 12 && "merged"@.len() == 6
        && "blocked"@.len() == 7);
    assert("implementing"@[0] == 'i' && "merge_staged"@[0] == 'm' && "merging"@[0] == 'm'
        && "blocked"@[0] == 'b');
    law_interrupted_is_blocked(runs, events, actions, k, status);
}

/// A block is followed through: the assignment of the row was read just before it, then
/// the row is marked, and then the block is published, with the phase of the row and
/// the Source Issue of the assignment. The recovery stays at the row all the while.
pub proof fn law_block_is_followed_through(
    runs: Seq<Recovery>,
    events: Seq<RecoveryEvent>,
    actions: Seq<RecoveryAction>,
    k: int,
)
    requires
        is_run(runs, events, actions),
        0 < k < events.len(),
        actions[k] is Block,
    ensures
        actions[k - 1] is ReadAssignment,
        events[k - 1] is AssignmentRead,
        runs[k - 1].at == runs[k].at,
        events[k] matches RecoveryEvent::Blocked { source_id } ==> {
            &&& actions[k + 1] is MarkRow
            &&& runs[k + 1].at == runs[k].at
            &&& k + 1 < events.len() && events[k + 1] is Marked ==> runs[k + 2].at == runs[k].at && (
            actions[k + 2] matches RecoveryAction::PublishBlock { kind, detail } && kind@
                == "assignment_blocked_on_restart"@ && detail@
                == "blocked on orchestrator restart during "@
                + runs[0].rows[runs[k].at as int].phase@ + " phase (source="@ + source_id@ + ")"@)
        },
{
    lemma_shows(runs, events, actions, k - 1);
    lemma_shows(runs, events, actions, k);
    assert(is_step(runs[k - 1], events[k - 1], runs[k], actions[k]));
    assert(is_step(runs[k], events[k], runs[k + 1], actions[k + 1]));
    lemma_shows(runs, events, actions, k + 1);
    if k + 1 < events.len() {
        assert(is_step(runs[k + 1], events[k + 1], runs[k + 2], actions[k + 2]));
    }
}

/// Rows are taken up one after the other, and for each the right thing is asked first:
/// the assignment is read where the row has one, and a row without one is marked.
pub proof fn law_rows_in_order(
    runs: Seq<Recovery>,
    events: Seq<RecoveryEvent>,
    actions: Seq<RecoveryAction>,
    k: int,
)
    requires
        is_run(runs, events, actions),
        0 <= k < events.len(),
    ensures
        runs[k + 1].at == runs[k].at || runs[k + 1].at == runs[k].at + 1,
        runs[k + 1].at == runs[k].at + 1 && runs[k + 1].at < runs[0].rows.len() ==> if runs[0].rows[
        runs[k + 1].at as int].assignment_id is Some {
            actions[k + 1] is ReadAssignment
        } else {
            actions[k + 1] is MarkRow
        },
        runs[0].at == 0,
        runs[0].rows.len() > 0 ==> if runs[0].rows[0].assignment_id is Some {
            actions[0] is ReadAssignment
        } else {
            actions[0] is MarkRow
        },
        actions[k] is MarkRow && events[k] is Marked ==> runs[k + 1].at == runs[k].at + 1
            || actions[k + 1] is PublishBlock,
        actions[k] is PublishBlock && events[k] is Published ==> runs[k + 1].at == runs[k].at + 1,
        actions[k + 1] is ReadPlanRun || actions[k + 1] is Finish ==> runs[k + 1].at
            == runs[0].rows.len(),
{
    lemma_shows(runs, events, actions, k);
    lemma_shows(runs, events, actions, k + 1);
    assert(is_step(runs[k], events[k], runs[k + 1], actions[k + 1]));
    assert(runs[k].well_formed() && runs[k + 1].well_formed());
    lemma_run_position(runs, events, actions, k);
}

proof fn lemma_run_position(
    runs: Seq<Recovery>,
    events: Seq<RecoveryEvent>,
    actions: Seq<RecoveryAction>,
    k: int,
)
    requires
        is_run(runs, events, actions),
        0 <= k < runs.len(),
    ensures
        runs[k].at < runs[k].rows.len() ==> runs[k].run_at == 0,
    decreases k,
{
    if k > 0 {
        lemma_run_position(runs, events, actions, k - 1);
        assert(is_step(runs[k - 1], events[k - 1], runs[k], actions[k]));
        assert(runs[k - 1].well_formed() && runs[k].well_formed());
    }
}

/// A Plan Run is finished exactly where it is `running` and each of its assignments is
/// `merged` or `blocked`; it is finished as `finished`. Any other one is passed over.
pub proof fn law_plan_run_is_finished_when_over(
    runs: Seq<Recovery>,
    events: Seq<RecoveryEvent>,
    actions: Seq<RecoveryAction>,
    k: int,
    state: String,
    statuses: Vec<String>,
)
    requires
        is_run(runs, events, actions),
        0 <= k < events.len(),
        events[k] == (RecoveryEvent::PlanRunRead { state, statuses }),
    ensures
        actions[k + 1] is FinishPlanRun <==> state@ == "running"@ && forall|i: int|
            0 <= i < statuses@.len() ==> (#[trigger] statuses@[i])@ == "merged"@ || statuses@[i]@
                == "blocked"@,
        actions[k + 1] matches RecoveryAction::FinishPlanRun { state: terminal } ==> terminal@
            == "finished"@ && runs[k + 1].run_at == runs[k].run_at,
        !(actions[k + 1] is FinishPlanRun) ==> runs[k + 1].run_at == runs[k].run_at + 1,
{
    assert(is_step(runs[k], events[k], runs[k + 1], actions[k + 1]));
    let all = views(statuses@);
    assert forall|i: int| 0 <= i < statuses@.len() implies all[i] == #[trigger] statuses@[i]@ by {}
    if forall|i: int|
        0 <= i < statuses@.len() ==> (#[trigger] statuses@[i])@ == "merged"@ || statuses@[i]@
            == "blocked"@ {
        assert forall|i: int| 0 <= i < all.len() implies #[trigger] all[i] == "merged"@ || all[i]
            == "blocked"@ by {
            assert(statuses@[i]@ == all[i]);
        }
    }
    if forall|i: int|
        0 <= i < all.len() ==> #[trigger] all[i] == "merged"@ || all[i] == "blocked"@ {
        assert forall|i: int| 0 <= i < statuses@.len() implies (#[trigger] statuses@[i])@
            == "merged"@ || statuses@[i]@ == "blocked"@ by {
            assert(all[i] == statuses@[i]@);
        }
    }
}

/// A finished Plan Run is published before the next one is taken up.
pub proof fn law_finished_plan_run_is_published(
    runs: Seq<Recovery>,
    events: Seq<RecoveryEvent>,
    actions: Seq<RecoveryAction>,
    k: int,
)
    requires
        is_run(runs, events, actions),
        0 <= k < events.len(),
    ensures
        events[k] is PlanRunFinished ==> actions[k] is FinishPlanRun && actions[k + 1]
            is PublishPlanRun && runs[k + 1].run_at == runs[k].run_at,
        actions[k + 1] is PublishPlanRun ==> events[k] is PlanRunFinished,
        actions[k] is PublishPlanRun && events[k] is Published ==> runs[k + 1].run_at
            == runs[k].run_at + 1,
{
    lemma_shows(runs, events, actions, k);
    lemma_shows(runs, events, actions, k + 1);
    assert(is_step(runs[k], events[k], runs[k + 1], actions[k + 1]));
}

proof fn lemma_passed_plan_runs(
    runs: Seq<Recovery>,
    events: Seq<RecoveryEvent>,
    actions: Seq<RecoveryAction>,
    k: int,
    r: int,
) -> (m: int)
    requires
        is_run(runs, events, actions),
        0 <= k < runs.len(),
        0 <= r < runs[k].run_at,
    ensures
        0 <= m < k,
        actions[m] is ReadPlanRun,
        runs[m].run_at == r,
    decreases k,
{
    assert(runs[0].run_at == 0);
    assert(k > 0);
    assert(is_step(runs[k - 1], events[k - 1], runs[k], actions[k]));
    assert(runs[k - 1].well_formed() && runs[k].well_formed());
    lemma_shows(runs, events, actions, k - 1);
    if r < runs[k - 1].run_at {
        lemma_passed_plan_runs(runs, events, actions, k - 1, r)
    } else {
        lemma_plan_run_was_read(runs, events, actions, k - 1)
    }
}

proof fn lemma_plan_run_was_read(
    runs: Seq<Recovery>,
    events: Seq<RecoveryEvent>,
    actions: Seq<RecoveryAction>,
    k: int,
) -> (m: int)
    requires
        is_run(runs, events, actions),
        0 <= k < runs.len(),
        runs[k].stage is ReadingPlanRun || runs[k].stage is FinishingPlanRun || runs[k].stage
            is PublishingPlanRun,
    ensures
        0 <= m <= k,
        actions[m] is ReadPlanRun,
        runs[m].run_at == runs[k].run_at,
    decreases k,
{
    lemma_shows(runs, events, actions, k);
    if runs[k].stage is ReadingPlanRun {
        k
    } else {
        assert(k > 0);
        assert(is_step(runs[k - 1], events[k - 1], runs[k], actions[k]));
        lemma_plan_run_was_read(runs, events, actions, k - 1)
    }
}

/// A recovery that finishes has looked at the Plan Run of each row.
pub proof fn law_each_plan_run_is_read(
    runs: Seq<Recovery>,
    events: Seq<RecoveryEvent>,
    actions: Seq<RecoveryAction>,
    row: int,
)
    requires
        is_run(runs, events, actions),
        actions.last() is Finish,
        0 <= row < runs[0].rows@.len(),
    ensures
        exists|m: int|
            0 <= m < runs.len() && (#[trigger] actions[m]) is ReadPlanRun && runs[m].run_at
                < runs[m].plan_runs@.len() && runs[m].plan_runs@[runs[m].run_at as int]@
                == runs[0].rows@[row].plan_run_id@,
{
    let n = events.len() as int;
    lemma_shows(runs, events, actions, n);
    assert(runs[n].well_formed() && runs[0].well_formed());
    if n > 0 {
        assert(is_step(runs[n - 1], events[n - 1], runs[n], actions[n]));
    }
    let id = runs[0].rows@[row].plan_run_id@;
    let ids = views(runs[0].plan_runs@);
    assert(ids.contains(id));
    let r = choose|r: int| 0 <= r < ids.len() && ids[r] == id;
    let m = lemma_passed_plan_runs(runs, events, actions, n, r);
    lemma_shows(runs, events, actions, m);
    assert(runs[m].plan_runs@[r]@ == id);
    assert(actions[m] is ReadPlanRun);
}

/// What fails ends the recovery with its error; only a Plan Run that is gone is passed
/// over.
pub proof fn law_failure_ends_the_recovery(
    runs: Seq<Recovery>,
    events: Seq<RecoveryEvent>,
    actions: Seq<RecoveryAction>,
    k: int,
    error: PersistenceError,
)
    requires
        is_run(runs, events, actions),
        0 <= k < events.len(),
        events[k] == (RecoveryEvent::Unavailable { error }),
    ensures
        if actions[k] is ReadPlanRun && error.kind == PersistenceErrorKind::NotFound {
            runs[k + 1].run_at == runs[k].run_at + 1 && (actions[k + 1] is ReadPlanRun
                || actions[k + 1] is Finish)
        } else {
            actions[k + 1] == (RecoveryAction::Fail { error })
        },
{
    lemma_shows(runs, events, actions, k);
    assert(is_step(runs[k], events[k], runs[k + 1], actions[k + 1]));
}

// --- The report ---

/// How many of the rows before `at` are of a Planning Phase.
pub open spec fn planning_rows(rows: Seq<InFlightPhaseRowSummary>, at: int) -> int
    decreases at,
{
    if at <= 0 {
        0
    } else {
        planning_rows(rows, at - 1) + if rows[at - 1].assignment_id is None {
            1int
        } else {
            0
        }
    }
}

/// How many of the events before `k` say that a Plan Run was finished.
pub open spec fn finished_runs(events: Seq<RecoveryEvent>, k: int) -> int
    decreases k,
{
    if k <= 0 {
        0
    } else {
        finished_runs(events, k - 1) + if events[k - 1] is PlanRunFinished {
            1int
        } else {
            0
        }
    }
}

/// How many of the events before `k` say that a block was published.
pub open spec fn published_blocks(
    events: Seq<RecoveryEvent>,
    actions: Seq<RecoveryAction>,
    k: int,
) -> int
    decreases k,
{
    if k <= 0 {
        0
    } else {
        published_blocks(events, actions, k - 1) + if actions[k - 1] is PublishBlock && events[k
            - 1] is Published {
            1int
        } else {
            0
        }
    }
}

/// The report counts what was done: the rows of Planning Phases that were passed, the
/// blocks that were published, and the Plan Runs that were finished. The number of rows
/// stays as it was.
pub proof fn law_report_counts(
    runs: Seq<Recovery>,
    events: Seq<RecoveryEvent>,
    actions: Seq<RecoveryAction>,
    k: int,
)
    requires
        is_run(runs, events, actions),
        0 <= k < runs.len(),
    ensures
        runs[k].report.rows_scanned == runs[0].report.rows_scanned,
        runs[k].report.planning_rows_recovered == runs[0].report.planning_rows_recovered
            + planning_rows(runs[0].rows@, runs[k].at as int),
        runs[k].report.assignments_blocked == runs[0].report.assignments_blocked
            + published_blocks(events, actions, k),
        runs[k].report.plan_runs_finished == runs[0].report.plan_runs_finished + finished_runs(
            events,
            k,
        ),
    decreases k,
{
    if k > 0 {
        law_report_counts(runs, events, actions, k - 1);
        lemma_shows(runs, events, actions, k - 1);
        lemma_shows(runs, events, actions, k);
        assert(is_step(runs[k - 1], events[k - 1], runs[k], actions[k]));
        assert(runs[k - 1].well_formed() && runs[k].well_formed());
        assert(runs[0].rows.len() <= usize::MAX);
        assert(runs[0].plan_runs.len() <= usize::MAX);
        if runs[k].at == runs[k - 1].at + 1 {
            assert(planning_rows(runs[0].rows@, runs[k].at as int) == planning_rows(
                runs[0].rows@,
                runs[k].at - 1,
            ) + if runs[0].rows@[runs[k].at - 1].assignment_id is None {
                1int
            } else {
                0
            });
        }
    } else {
        assert(runs[0].at == 0);
    }
}

} // verus!
