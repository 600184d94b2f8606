//! What holds of every sweep over left-over containers, and of every re-enabling of a
//! Source Issue, said of what is asked for and of what is told.

use vstd::prelude::*;

#[allow(unused_imports)]
use crate::boot_container_sweeper::{
    is_run, is_step, listed_container, listed_containers, start, SandboxContainer, Sweep,
    SweepAction, SweepEvent, SweepStage,
};
#[allow(unused_imports)]
use crate::contracts::BlockReason;
#[allow(unused_imports)]
use crate::plan_run::LifecycleStatus;
#[allow(unused_imports)]
use crate::problem::PersistenceErrorKind;
#[allow(unused_imports)]
use crate::re_enable_source_issue as re_enable;
#[allow(unused_imports)]
use crate::re_enable_source_issue::{ReEnableAction, ReEnableEvent, ReEnableStage};
#[allow(unused_imports)]
use crate::sandbox::SandboxPhase;

verus! {

// --- The sweep ---

/// The word for a phase.
pub open spec fn phase_word(phase: SandboxPhase) -> Seq<char> {
    match phase {
        SandboxPhase::Planning => "planning"@,
        SandboxPhase::Implementation => "implementation"@,
        SandboxPhase::Review => "review"@,
        SandboxPhase::Merge => "merge"@,
    }
}

spec fn shows(run: Sweep, action: SweepAction) -> bool {
    match run.stage {
        SweepStage::OwnerAssignment => action is ReadAssignment,
        SweepStage::OwnerPlanRun => action is ReadPlanRun,
        SweepStage::RemovingSettled => action is Remove,
        SweepStage::Killing => action is Kill,
        SweepStage::Removing => action is Remove,
        SweepStage::Rereading => action is ReadAssignment,
        SweepStage::Blocking => action is Block,
        SweepStage::Publishing => action is Publish,
        SweepStage::Finished => action is Finish,
        SweepStage::Failed => action is Fail,
    }
}

proof fn lemma_shows(
    runs: Seq<Sweep>,
    events: Seq<SweepEvent>,
    actions: Seq<SweepAction>,
    k: int,
)
    requires
        is_run(runs, events, actions),
        0 <= k < runs.len(),
    ensures
        shows(runs[k], actions[k]),
        runs[k].containers == runs[0].containers,
    decreases k,
{
    if k > 0 {
        lemma_shows(runs, events, actions, k - 1);
        assert(is_step(runs[k - 1], events[k - 1], runs[k], actions[k]));
    }
}

/// The sweep has just come to the container that it stands at.
pub open spec fn comes_to_container(runs: Seq<Sweep>, k: int) -> bool {
    k == 0 || runs[k - 1].at != runs[k].at
}

/// The owner decides what becomes of a container. One of a merged assignment, of a Plan
/// Run that does not run, or of an owner that is gone, is removed. Any other one is
/// killed.
pub proof fn law_owner_decides(
    runs: Seq<Sweep>,
    events: Seq<SweepEvent>,
    actions: Seq<SweepAction>,
    k: int,
)
    requires
        is_run(runs, events, actions),
        0 <= k < events.len(),
        comes_to_container(runs, k),
        runs[k].at < runs[0].containers@.len(),
    ensures
        actions[k] is ReadAssignment <==> runs[0].containers@[runs[k].at as int].assignment_id
            is Some,
        actions[k] is ReadPlanRun <==> runs[0].containers@[runs[k].at as int].assignment_id
            is None,
        runs[k + 1].at == runs[k].at,
        match events[k] {
            SweepEvent::AssignmentRead { status } => if status@ == "merged"@ {
                actions[k + 1] is Remove
            } else {
                actions[k + 1] is Kill
            },
            SweepEvent::PlanRunRead { state } => if state@ == "running"@ {
                actions[k + 1] is Kill
            } else {
                actions[k + 1] is Remove
            },
            SweepEvent::AssignmentUnread { error } => if error.kind
                == PersistenceErrorKind::NotFound || error.kind
                == PersistenceErrorKind::AssignmentNotFound {
                actions[k + 1] is Remove
            } else {
                actions[k + 1] == (SweepAction::Fail { error })
            },
            SweepEvent::PlanRunUnread { error } => if error.kind == PersistenceErrorKind::NotFound {
                actions[k + 1] is Remove
            } else {
                actions[k + 1] == (SweepAction::Fail { error })
            },
            _ => false,
        },
{
    lemma_shows(runs, events, actions, k);
    assert(is_step(runs[k], events[k], runs[k + 1], actions[k + 1]));
    assert(runs[k].well_formed());
    if k > 0 {
        assert(is_step(runs[k - 1], events[k - 1], runs[k], actions[k]));
    }
}

/// A container that was killed, or could not be, is removed next. Then the assignment that
/// owns it is read again; without one the sweep goes on with the next container.
pub proof fn law_killed_is_removed(
    runs: Seq<Sweep>,
    events: Seq<SweepEvent>,
    actions: Seq<SweepAction>,
    k: int,
)
    requires
        is_run(runs, events, actions),
        0 <= k < events.len(),
    ensures
        events[k] is Killed ==> actions[k] is Kill && actions[k + 1] is Remove && runs[k + 1].at
            == runs[k].at,
        k > 0 && events[k] is Removed && actions[k - 1] is Kill ==> if runs[0].containers@[
        runs[k].at as int].assignment_id is Some {
            actions[k + 1] is ReadAssignment && runs[k + 1].at == runs[k].at
        } else {
            runs[k + 1].at == runs[k].at + 1
        },
        k > 0 && events[k] is Removed && !(actions[k - 1] is Kill) ==> runs[k + 1].at == runs[k].at
            + 1,
        runs[k + 1].at == runs[k].at || runs[k + 1].at == runs[k].at + 1,
        actions[k + 1] is Finish ==> runs[k + 1].at == runs[0].containers@.len(),
{
    lemma_shows(runs, events, actions, k);
    lemma_shows(runs, events, actions, k + 1);
    assert(is_step(runs[k], events[k], runs[k + 1], actions[k + 1]));
    assert(runs[k].well_formed() && runs[k + 1].well_formed());
    if k > 0 {
        lemma_shows(runs, events, actions, k - 1);
        assert(is_step(runs[k - 1], events[k - 1], runs[k], actions[k]));
    }
}

/// An assignment whose container was killed and removed is blocked exactly where its
/// status, read again, is none of `merged`, `blocked` and `merge_staged`. The block names
/// the container and its phase.
pub proof fn law_interrupted_owner_is_blocked(
    runs: Seq<Sweep>,
    events: Seq<SweepEvent>,
    actions: Seq<SweepAction>,
    k: int,
    status: String,
)
    requires
        is_run(runs, events, actions),
        0 < k < events.len(),
        actions[k - 1] is Remove,
        runs[k - 1].at == runs[k].at,
        events[k] == (SweepEvent::AssignmentRead { status }),
    ensures
        actions[k + 1] is Block <==> status@ != "merged"@ && status@ != "blocked"@ && status@
            != "merge_staged"@,
        actions[k + 1] is Block ==> runs[k + 1].at == runs[k].at,
        !(actions[k + 1] is Block) ==> runs[k + 1].at == runs[k].at + 1,
        actions[k + 1] matches SweepAction::Block { reason, detail } ==> ({
            let container = runs[0].containers@[runs[k].at as int];
            &&& reason == BlockReason::OrchestratorRestart
            &&& detail@ == "orchestrator restarted; Codex Sandbox container "@ + container.name@
                + " was killed during "@ + phase_word(container.phase) + " phase"@
        }),
{
    lemma_shows(runs, events, actions, k - 1);
    lemma_shows(runs, events, actions, k);
    assert(is_step(runs[k - 1], events[k - 1], runs[k], actions[k]));
    assert(is_step(runs[k], events[k], runs[k + 1], actions[k + 1]));
    assert(runs[k].well_formed() && runs[k - 1].well_formed());
}

/// A block that was stored is published, with the container and its phase; what cannot be
/// stored ends the sweep with its error.
pub proof fn law_block_is_published(
    runs: Seq<Sweep>,
    events: Seq<SweepEvent>,
    actions: Seq<SweepAction>,
    k: int,
)
    requires
        is_run(runs, events, actions),
        0 <= k < events.len(),
    ensures
        events[k] is Blocked ==> actions[k] is Block && runs[k + 1].at == runs[k].at && (
        actions[k + 1] matches SweepAction::Publish { kind, detail } && kind@
            == "assignment_blocked_on_restart"@ && detail@
            == "blocked on orchestrator restart during "@ + phase_word(
            runs[0].containers@[runs[k].at as int].phase,
        ) + " phase (container="@ + runs[0].containers@[runs[k].at as int].name@ + ")"@),
        events[k] is Published ==> actions[k] is Publish && runs[k + 1].at == runs[k].at + 1,
        events[k] matches SweepEvent::NotBlocked { error } ==> actions[k + 1] == (
        SweepAction::Fail { error }),
        actions[k + 1] is Publish ==> events[k] is Blocked,
{
    lemma_shows(runs, events, actions, k);
    lemma_shows(runs, events, actions, k + 1);
    assert(is_step(runs[k], events[k], runs[k + 1], actions[k + 1]));
    assert(runs[k].well_formed());
}

/// How many of the events before `k` say that a container was killed.
pub open spec fn kills(events: Seq<SweepEvent>, k: int) -> int
    decreases k,
{
    if k <= 0 {
        0
    } else {
        kills(events, k - 1) + if events[k - 1] == (SweepEvent::Killed { done: true }) {
            1int
        } else {
            0
        }
    }
}

/// How many of the events before `k` say that a container was removed.
pub open spec fn removals(events: Seq<SweepEvent>, k: int) -> int
    decreases k,
{
    if k <= 0 {
        0
    } else {
        removals(events, k - 1) + if events[k - 1] == (SweepEvent::Removed { done: true }) {
            1int
        } else {
            0
        }
    }
}

/// How many of the events before `k` say that a block was published.
pub open spec fn blocks(events: Seq<SweepEvent>, k: int) -> int
    decreases k,
{
    if k <= 0 {
        0
    } else {
        blocks(events, k - 1) + if events[k - 1] is Published {
            1int
        } else {
            0
        }
    }
}

/// The report counts what was done: what Docker really killed and removed, and the blocks
/// that were published.
pub proof fn law_sweep_report_counts(
    runs: Seq<Sweep>,
    events: Seq<SweepEvent>,
    actions: Seq<SweepAction>,
    k: int,
)
    requires
        is_run(runs, events, actions),
        0 <= k < runs.len(),
    ensures
        runs[k].report.containers_killed == runs[0].report.containers_killed + kills(events, k),
        runs[k].report.containers_removed == runs[0].report.containers_removed + removals(events, k),
        runs[k].report.assignments_blocked == runs[0].report.assignments_blocked + blocks(
            events,
            k,
        ),
        runs[k].report.containers_inspected == runs[0].report.containers_inspected,
        runs[k].report.docker_unavailable == runs[0].report.docker_unavailable,
    decreases k,
{
    if k > 0 {
        law_sweep_report_counts(runs, events, actions, k - 1);
        assert(is_step(runs[k - 1], events[k - 1], runs[k], actions[k]));
        assert(runs[k - 1].well_formed());
        assert(runs[k - 1].containers.len() <= usize::MAX);
    }
}

/// A sweep begins with a report that says how many containers were listed, and nothing
/// else; where they could not be listed it ends at once and says so.
pub proof fn law_sweep_begins_with_the_listing(
    listed: Result<Vec<SandboxContainer>, String>,
    first: (Sweep, SweepAction),
)
    requires
        call_ensures(start, (listed,), first),
    ensures
        first.0.report.containers_killed == 0,
        first.0.report.containers_removed == 0,
        first.0.report.assignments_blocked == 0,
        first.0.report.docker_unavailable <==> listed is Err,
        listed is Err ==> first.1 is Finish && first.0.report.containers_inspected == 0,
        listed matches Ok(containers) ==> first.0.containers@ == containers@
            && first.0.report.containers_inspected == containers@.len() && (containers@.len() == 0
            <==> first.1 is Finish) && first.0.at == 0,
{
}

proof fn lemma_listed(text_lines: Seq<Seq<char>>, i: int)
    requires
        0 <= i < text_lines.len(),
    ensures
        listed_container(text_lines[i]) matches Some(container) ==> listed_containers(
            text_lines,
        ).contains(container),
        listed_containers(text_lines).len() <= text_lines.len(),
    decreases text_lines.len(),
{
    let front = text_lines.drop_last();
    let all = listed_containers(text_lines);
    if i < text_lines.len() - 1 {
        lemma_listed(front, i);
        if let Some(container) = listed_container(text_lines[i]) {
            assert(front[i] == text_lines[i]);
            let at = choose|at: int|
                0 <= at < listed_containers(front).len() && listed_containers(front)[at]
                    == container;
            assert(all[at] == container);
        }
    } else {
        if front.len() > 0 {
            lemma_listed(front, 0);
        }
        if let Some(container) = listed_container(text_lines[i]) {
            assert(all[all.len() - 1] == container);
        }
    }
}

/// Each line of a listing that describes a container is found, and no line is found
/// twice.
pub proof fn law_listing_misses_nothing(text_lines: Seq<Seq<char>>, i: int)
    requires
        0 <= i < text_lines.len(),
    ensures
        listed_container(text_lines[i]) matches Some(container) ==> listed_containers(
            text_lines,
        ).contains(container),
        listed_containers(text_lines).len() <= text_lines.len(),
{
    lemma_listed(text_lines, i);
}

// --- Re-enabling ---

spec fn re_enable_shows(stage: ReEnableStage, action: ReEnableAction) -> bool {
    match stage {
        ReEnableStage::LookingUp => action is LookUp,
        ReEnableStage::Clearing { assignment_id } => action == (ReEnableAction::Clear {
            assignment_id,
        }),
        ReEnableStage::Mirroring { cleared } => action == (ReEnableAction::Mirror {
            status: LifecycleStatus::Ready,
        }),
        ReEnableStage::WritingBack { cleared } => action == (ReEnableAction::WriteBack {
            status: LifecycleStatus::Ready,
        }),
        ReEnableStage::Recording { cleared, error } => action is RecordActivity,
        ReEnableStage::Publishing { writeback } => action is PublishCleared,
        ReEnableStage::Ended => action is Finish || action is Fail,
    }
}

proof fn lemma_re_enable_shows(
    stages: Seq<ReEnableStage>,
    events: Seq<ReEnableEvent>,
    actions: Seq<ReEnableAction>,
    k: int,
)
    requires
        re_enable::is_run(stages, events, actions),
        0 <= k < stages.len(),
    ensures
        re_enable_shows(stages[k], actions[k]),
{
    if k > 0 {
        assert(re_enable::is_step(stages[k - 1], events[k - 1], stages[k], actions[k]));
    }
}

/// Re-enabling clears the assignment that was found, and no other; then the Planning
/// Snapshot and the Issue Source are told that the issue is ready, whether there was one
/// to clear or not, and whether the snapshot took it or not.
pub proof fn law_re_enabled_issue_is_ready(
    stages: Seq<ReEnableStage>,
    events: Seq<ReEnableEvent>,
    actions: Seq<ReEnableAction>,
    k: int,
)
    requires
        re_enable::is_run(stages, events, actions),
        0 <= k < events.len(),
    ensures
        actions[0] is LookUp,
        events[k] matches ReEnableEvent::Found { assignment_id: Some(id) } ==> actions[k + 1] == (
        ReEnableAction::Clear { assignment_id: id }),
        (events[k] matches ReEnableEvent::Found { assignment_id: None }) || events[k] is Cleared
            ==> actions[k + 1] == (ReEnableAction::Mirror { status: LifecycleStatus::Ready }),
        events[k] is Mirrored ==> actions[k + 1] == (ReEnableAction::WriteBack {
            status: LifecycleStatus::Ready,
        }),
        actions[k + 1] matches ReEnableAction::Clear { assignment_id } ==> events[k] == (
        ReEnableEvent::Found { assignment_id: Some(assignment_id) }),
        actions[k + 1] is Mirror ==> (events[k] matches ReEnableEvent::Found {
            assignment_id: None,
        }) || events[k] is Cleared,
        actions[k + 1] is WriteBack ==> actions[k] is Mirror && events[k] is Mirrored,
        events[k] is Cleared ==> actions[k] is Clear,
{
    lemma_re_enable_shows(stages, events, actions, k);
    lemma_re_enable_shows(stages, events, actions, k + 1);
    assert(re_enable::is_step(stages[k], events[k], stages[k + 1], actions[k + 1]));
}

/// A write-back that fails is noted, for the assignment that was cleared, with its error;
/// then what was cleared is published. A look-up or a clearing that fails ends the whole
/// with the report of its error.
pub proof fn law_re_enable_reports_failures(
    stages: Seq<ReEnableStage>,
    events: Seq<ReEnableEvent>,
    actions: Seq<ReEnableAction>,
    k: int,
)
    requires
        re_enable::is_run(stages, events, actions),
        0 <= k < events.len(),
    ensures
        events[k] matches ReEnableEvent::WrittenBack { result: Err(error) } ==> (
        actions[k + 1] matches ReEnableAction::RecordActivity { assignment_id, kind, detail }
            && kind@ == "lifecycle_writeback_failed"@ && detail@
            == "ready Lifecycle Status write-back after re-enable failed: "@ + error.text() && (
        assignment_id is Some <==> re_enable::cleared_before(events, k)) && (assignment_id matches
            Some(id) ==> exists|m: int|
            0 <= m < k && #[trigger] actions[m] == (ReEnableAction::Clear { assignment_id: id })
                && events[m] is Cleared)),
        (events[k] matches ReEnableEvent::WrittenBack { result: Ok(_) }) || events[k] is Recorded
            ==> if re_enable::cleared_before(events, k) {
            actions[k + 1] is PublishCleared
        } else {
            actions[k + 1] is Finish
        },
        events[k] is Published ==> actions[k] is PublishCleared && actions[k + 1] is Finish,
        events[k] matches ReEnableEvent::Unavailable { error } ==> (actions[k + 1] matches
            ReEnableAction::Fail { error: reported } && reported.status == error.kind.status()
            && reported.problem_type@ == error.kind.problem_type() && reported.detail@
            == error.message@),
        actions[k + 1] is Fail ==> events[k] is Unavailable,
{
    lemma_re_enable_shows(stages, events, actions, k);
    lemma_re_enable_shows(stages, events, actions, k + 1);
    assert(re_enable::is_step(stages[k], events[k], stages[k + 1], actions[k + 1]));
    lemma_cleared(stages, events, actions, k);
}

proof fn lemma_cleared(
    stages: Seq<ReEnableStage>,
    events: Seq<ReEnableEvent>,
    actions: Seq<ReEnableAction>,
    k: int,
)
    requires
        re_enable::is_run(stages, events, actions),
        0 <= k < stages.len(),
    ensures
        match stages[k] {
            ReEnableStage::LookingUp => !re_enable::cleared_before(events, k),
            ReEnableStage::Clearing { .. } => !re_enable::cleared_before(events, k),
            ReEnableStage::Mirroring { cleared } => (cleared is Some <==> re_enable::cleared_before(
                events,
                k,
            )) && was_cleared(events, actions, k, cleared),
            ReEnableStage::WritingBack { cleared } => (cleared is Some
                <==> re_enable::cleared_before(events, k)) && was_cleared(
                events,
                actions,
                k,
                cleared,
            ),
            ReEnableStage::Recording { cleared, .. } => (cleared is Some
                <==> re_enable::cleared_before(events, k)) && was_cleared(
                events,
                actions,
                k,
                cleared,
            ),
            ReEnableStage::Publishing { .. } => re_enable::cleared_before(events, k),
            ReEnableStage::Ended => true,
        },
    decreases k,
{
    if k > 0 {
        lemma_cleared(stages, events, actions, k - 1);
        lemma_re_enable_shows(stages, events, actions, k - 1);
        assert(re_enable::is_step(stages[k - 1], events[k - 1], stages[k], actions[k]));
        if re_enable::cleared_before(events, k - 1) {
            let m = choose|m: int| 0 <= m < k - 1 && (#[trigger] events[m]) is Cleared;
            assert(events[m] is Cleared);
            assert(re_enable::cleared_before(events, k));
        }
        if re_enable::cleared_before(events, k) && !re_enable::cleared_before(events, k - 1) {
            let m = choose|m: int| 0 <= m < k && (#[trigger] events[m]) is Cleared;
            assert(m == k - 1);
        }
        assert forall|cleared: Option<String>| #[trigger]
            was_cleared(events, actions, k - 1, cleared) implies was_cleared(
            events,
            actions,
            k,
            cleared,
        ) by {
            if let Some(id) = cleared {
                let m = choose|m: int|
                    0 <= m < k - 1 && #[trigger] actions[m] == (ReEnableAction::Clear {
                        assignment_id: id,
                    }) && events[m] is Cleared;
                assert(actions[m] == (ReEnableAction::Clear { assignment_id: id }));
            }
        }
    }
}

spec fn was_cleared(
    events: Seq<ReEnableEvent>,
    actions: Seq<ReEnableAction>,
    k: int,
    cleared: Option<String>,
) -> bool {
    cleared matches Some(id) ==> exists|m: int|
        0 <= m < k && #[trigger] actions[m] == (ReEnableAction::Clear { assignment_id: id })
            && events[m] is Cleared
}

} // verus!
