//! When replanning goes on, and what a Plan Run is given to work with.

use vstd::prelude::*;

#[allow(unused_imports)]
use crate::auto_replan::{
    classify_plan_run_for_auto_replan, status_among, AutoReplanCurrent, AutoReplanDecision,
    AutoReplanDriver, CycleOutcome, SyncOutcome,
};
#[allow(unused_imports)]
use crate::contracts::{
    IssueAssignmentResponse, PauseReason, PlanRunResponse, ProjectExecutionConfigResponse,
    ProjectResponse,
};
#[allow(unused_imports)]
use crate::coordinator::{
    claim_order, claim_positions, instruction_file_names, join_task, last_position,
    load_project_instructions, merge_items, outcome_ids, resolve_deps_for_project, source_ids,
    AssignmentBatchOutcome, LifecycleSeam, PhaseSeam, PlanRunDeps, PlanRunInputs, RefresherSeam,
    TaskJoin, WorktreeSeam,
};
#[allow(unused_imports)]
use crate::json::JsonDocument;
#[allow(unused_imports)]
use crate::merge_driver::MergeItem;
#[allow(unused_imports)]
use crate::plan_run::RefreshedBaseline;
#[allow(unused_imports)]
use crate::problem::CoordinatorError;
#[allow(unused_imports)]
use crate::text::views;

verus! {

// --- Replanning ---

/// An armed driver without a Plan Run starts one if and only if the sync succeeded and there
/// is no outcome to weigh; it then stays armed. It pauses if and only if the sync failed or
/// the outcome says so, for the reason that this gives, and a failed sync counts for more.
/// Every other driver leaves all as it is.
pub proof fn law_replanning(
    current: AutoReplanCurrent,
    outcome: Option<CycleOutcome>,
    sync: Option<SyncOutcome>,
    decision: AutoReplanDecision,
)
    requires
        call_ensures(AutoReplanDriver::decide, (current, outcome, sync), decision),
    ensures
        decision.trigger is Some <==> current.state is Armed && !current.has_active_plan_run && sync
            == Some(SyncOutcome::Succeeded) && outcome is None,
        decision.trigger is Some ==> decision.next_state is Armed && decision.pause_reason is None,
        current.state is Armed && !current.has_active_plan_run && sync == Some(SyncOutcome::Failed)
            ==> decision.next_state is Paused && decision.pause_reason == Some(
            PauseReason::SyncFailed,
        ),
        current.state is Armed && !current.has_active_plan_run && sync != Some(SyncOutcome::Failed)
            && (outcome matches Some(CycleOutcome::Pause(_))) ==> decision.next_state is Paused
            && outcome == Some(CycleOutcome::Pause(decision.pause_reason->0))
            && decision.pause_reason is Some,
        sync != Some(SyncOutcome::Failed) && !(outcome matches Some(CycleOutcome::Pause(_)))
            ==> decision.next_state == current.state && decision.pause_reason is None,
        !(current.state is Armed) || current.has_active_plan_run ==> decision.next_state
            == current.state && decision.pause_reason is None && decision.trigger is None,
{
}

/// One of the assignments has the status.
pub open spec fn some_status(plan_run: PlanRunResponse, status: Seq<char>) -> bool {
    exists|i: int|
        0 <= i < plan_run.assignments@.len() && (#[trigger] plan_run.assignments@[i]).status@
            == status
}

/// The planning of the Plan Run had the outcome.
pub open spec fn planning_ended(plan_run: PlanRunResponse, outcome: Seq<char>) -> bool {
    exists|i: int|
        0 <= i < plan_run.phase_outputs@.len() && (#[trigger] plan_run.phase_outputs@[i]).phase@
            == "planning"@ && plan_run.phase_outputs@[i].outcome@ == outcome
}

/// One of the assignments is blocked because the Integration Branch has diverged.
pub open spec fn some_diverged(plan_run: PlanRunResponse) -> bool {
    exists|i: int|
        0 <= i < plan_run.assignments@.len() && (#[trigger] plan_run.assignments@[i]).status@
            == "blocked"@ && (plan_run.assignments@[i].block_reason matches Some(reason)
            && reason.kind is PushNonFastForward)
}

/// Replanning goes on after a Plan Run if and only if it has finished, its planning did not
/// fail, something was merged, and nothing is left blocked or staged.
pub proof fn law_clean_run_goes_on(plan_run: PlanRunResponse, outcome: CycleOutcome)
    requires
        call_ensures(classify_plan_run_for_auto_replan, (&plan_run,), outcome),
    ensures
        outcome is Continue <==> plan_run.state@ == "finished"@ && !planning_ended(
            plan_run,
            "failed"@,
        ) && some_status(plan_run, "merged"@) && !some_status(plan_run, "blocked"@)
            && !some_status(plan_run, "merge_staged"@),
{
    lemma_cycle(plan_run, outcome);
}

proof fn lemma_cycle(plan_run: PlanRunResponse, outcome: CycleOutcome)
    requires
        outcome == crate::auto_replan::cycle_outcome(
            plan_run.state@,
            plan_run.phase_outputs@,
            plan_run.assignments@,
        ),
    ensures
        crate::auto_replan::has_divergence(plan_run.assignments@) <==> some_diverged(plan_run),
        some_diverged(plan_run) ==> some_status(plan_run, "blocked"@),
        outcome is Continue ==> plan_run.assignments@.len() > 0,
{
    let assignments = plan_run.assignments@;
    if some_diverged(plan_run) {
        let i = choose|i: int|
            0 <= i < assignments.len() && (#[trigger] assignments[i]).status@ == "blocked"@ && (
            assignments[i].block_reason matches Some(reason) && reason.kind is PushNonFastForward);
        assert(crate::auto_replan::blocked_by_divergence(assignments[i]));
    }
    if crate::auto_replan::has_divergence(assignments) {
        let i = choose|i: int|
            0 <= i < assignments.len() && #[trigger] crate::auto_replan::blocked_by_divergence(
                assignments[i],
            );
        assert(assignments[i].status@ == "blocked"@);
    }
}

/// Why replanning pauses after a Plan Run. One that has not finished, or whose planning
/// failed, counts as a failed planning; one that planned nothing for want of issues drained
/// the backlog. A divergence counts for more than another block, and a block for more than
/// staged work.
pub proof fn law_pause_after_a_plan_run(plan_run: PlanRunResponse, outcome: CycleOutcome)
    requires
        call_ensures(classify_plan_run_for_auto_replan, (&plan_run,), outcome),
    ensures
        plan_run.state@ != "finished"@ ==> outcome == CycleOutcome::Pause(
            PauseReason::PlanningFailed,
        ),
        planning_ended(plan_run, "failed"@) ==> outcome == CycleOutcome::Pause(
            PauseReason::PlanningFailed,
        ),
        plan_run.state@ == "finished"@ && !planning_ended(plan_run, "failed"@) ==> {
            &&& plan_run.assignments@.len() == 0 && planning_ended(plan_run, "succeeded_empty"@)
                ==> outcome == CycleOutcome::Pause(PauseReason::EmptyBacklog)
            &&& some_diverged(plan_run) ==> outcome == CycleOutcome::Pause(
                PauseReason::PushNonFastForward,
            )
            &&& !some_diverged(plan_run) && some_status(plan_run, "blocked"@) ==> outcome
                == CycleOutcome::Pause(PauseReason::AssignmentBlocked)
            &&& !some_status(plan_run, "blocked"@) && some_status(plan_run, "merge_staged"@)
                ==> outcome == CycleOutcome::Pause(PauseReason::MergeStagedLeft)
        },
        outcome != CycleOutcome::Pause(PauseReason::SyncFailed),
{
    lemma_cycle(plan_run, outcome);
    if some_diverged(plan_run) || some_status(plan_run, "blocked"@) || some_status(
        plan_run,
        "merge_staged"@,
    ) {
        assert(plan_run.assignments@.len() > 0);
    }
    lemma_statuses_differ();
}

proof fn lemma_statuses_differ()
    ensures
        "finished"@ != "running"@,
{
    reveal_strlit("finished");
    reveal_strlit("running");
    assert("finished"@.len() == 8 && "running"@.len() == 7);
}

// --- The seams of a Plan Run ---

/// In production git refreshes, pushes and cleans up, and Worktrunk makes worktrees. The
/// phases and the lifecycle wait for their Project, with the binaries that they need.
pub proof fn law_production_seams(
    worktrunk: String,
    codex: String,
    gh: String,
    deps: PlanRunDeps,
)
    requires
        call_ensures(PlanRunDeps::production, (worktrunk, codex, gh), deps),
    ensures
        deps.refresher is Git,
        deps.pusher is Git,
        deps.cleaner is Git,
        deps.worktree matches WorktreeSeam::Worktrunk(provisioner)
            && provisioner.worktrunk_binary_path == worktrunk,
        deps.production_codex_binary == Some(codex),
        deps.production_gh_binary == Some(gh),
{
}

/// Without a deployment nothing works; for trying things out, every phase succeeds on an empty
/// plan, and nothing outside is touched. Neither waits for a binary.
pub proof fn law_seams_without_a_deployment(
    root: String,
    none: PlanRunDeps,
    canned: PlanRunDeps,
)
    requires
        call_ensures(PlanRunDeps::unimplemented, (), none),
        call_ensures(PlanRunDeps::default_test_deps, (root,), canned),
    ensures
        none.refresher is Unimplemented && none.planner is Unimplemented && none.worktree
            is Unimplemented && none.lifecycle is Unimplemented && none.implementation
            is Unimplemented && none.review is Unimplemented && none.merger is Unimplemented
            && none.pusher is Unimplemented && none.cleaner is Unimplemented,
        none.production_codex_binary is None && none.production_gh_binary is None,
        canned.production_codex_binary is None && canned.production_gh_binary is None,
        canned.worktree == (WorktreeSeam::Fake { root }),
        canned.lifecycle is Fake && canned.pusher is Fake && canned.cleaner is Fake,
        canned.refresher matches RefresherSeam::Static(baseline) && baseline.commit_sha@
            == "test-baseline"@,
        canned.planner matches PhaseSeam::Canned { stdout } && stdout@
            == "<plan>{\"issues\":[],\"summary\":\"none\"}</plan>"@,
        canned.implementation matches PhaseSeam::Canned { stdout } && stdout@
            == "<impl>{\"outcome\":\"ready_for_review\",\"summary\":\"stub\",\"commits\":[],\"verification\":[],\"gaps\":[]}</impl>"@,
        canned.review matches PhaseSeam::Canned { stdout } && stdout@
            == "<review>{\"outcome\":\"approved\",\"findings\":[],\"summary\":\"stub approved\",\"verification\":[],\"gaps\":[]}</review>"@,
        canned.merger matches PhaseSeam::Canned { stdout } && stdout@
            == "<merge>{\"outcome\":\"merged\",\"summary\":\"stub merged\",\"merged_source_ids\":[],\"verification\":[],\"gaps\":[]}</merge>"@,
{
}

/// Resolved for a Project, every phase runs the Codex binary in the path of the Project, and
/// the lifecycle is written by `gh` to the enabled Issue Source of the Project. Where a
/// binary or the Issue Source is missing, what was there stays, and so do the other seams.
pub proof fn law_seams_of_a_project(
    deps: PlanRunDeps,
    project: ProjectResponse,
    resolved: PlanRunDeps,
)
    requires
        call_ensures(resolve_deps_for_project, (&deps, &project), resolved),
    ensures
        deps.production_codex_binary matches Some(codex) ==> {
            let runner = PhaseSeam::Codex { binary: codex, project_path: project.path };
            &&& resolved.planner == runner
            &&& resolved.implementation == runner
            &&& resolved.review == runner
            &&& resolved.merger == runner
        },
        deps.production_codex_binary is None ==> resolved.planner == deps.planner
            && resolved.implementation == deps.implementation && resolved.review == deps.review
            && resolved.merger == deps.merger,
        deps.production_gh_binary is Some && project.enabled_issue_source is Some ==> (
        resolved.lifecycle matches LifecycleSeam::Gh(writer) && writer.gh_binary_path
            == deps.production_gh_binary->0 && writer.project == project && writer.source
            == project.enabled_issue_source->0),
        deps.production_gh_binary is None || project.enabled_issue_source is None
            ==> resolved.lifecycle == deps.lifecycle,
        resolved.refresher == deps.refresher,
        resolved.worktree == deps.worktree,
        resolved.pusher == deps.pusher,
        resolved.cleaner == deps.cleaner,
{
}

/// The instructions of a Project are those of the first of its files that could be read; the
/// files are looked for in their order. There are none where no file could be read.
pub proof fn law_project_instructions(
    agent_file: String,
    names: Vec<String>,
    texts: Vec<Option<String>>,
    text: String,
    i: int,
)
    requires
        call_ensures(instruction_file_names, (agent_file,), names),
        call_ensures(load_project_instructions, (texts,), text),
    ensures
        views(names@) == seq!["AGENTS.md"@, agent_file@, "PROJECT.md"@],
        0 <= i < texts@.len() && texts@[i] is Some && (forall|k: int|
            0 <= k < i ==> (#[trigger] texts@[k]) is None) ==> text@ == texts@[i]->0@,
        (forall|k: int| 0 <= k < texts@.len() ==> (#[trigger] texts@[k]) is None) ==> text@.len()
            == 0,
{
    lemma_first_read(texts@, i);
}

proof fn lemma_first_read(texts: Seq<Option<String>>, i: int)
    ensures
        0 <= i < texts.len() && texts[i] is Some && (forall|k: int|
            0 <= k < i ==> (#[trigger] texts[k]) is None) ==> crate::coordinator::first_read(texts)
            == texts[i]->0@,
        (forall|k: int| 0 <= k < texts.len() ==> (#[trigger] texts[k]) is None)
            ==> crate::coordinator::first_read(texts).len() == 0,
    decreases texts.len(),
{
    reveal_strlit("");
    if texts.len() > 0 {
        let rest = texts.skip(1);
        lemma_first_read(rest, i - 1);
        assert(forall|k: int| 0 <= k < rest.len() ==> #[trigger] rest[k] == texts[k + 1]);
        if texts[0] is None {
            if 0 < i < texts.len() {
                assert(rest[i - 1] == texts[i]);
            }
        }
    }
}

/// A Plan Run works with what it was started with, and with those instructions.
pub proof fn law_inputs_of_a_plan_run(
    project: ProjectResponse,
    plan_run: PlanRunResponse,
    baseline: RefreshedBaseline,
    config: ProjectExecutionConfigResponse,
    texts: Vec<Option<String>>,
    inputs: PlanRunInputs,
    text: String,
)
    requires
        call_ensures(PlanRunInputs::new, (project, plan_run, baseline, config, texts), inputs),
        call_ensures(load_project_instructions, (texts,), text),
    ensures
        inputs.project == project,
        inputs.plan_run == plan_run,
        inputs.baseline == baseline,
        inputs.exec_config == config,
        inputs.project_instructions@ == text@,
{
}

// --- The batch ---

/// A task that panicked is an error of the server that says so; one that ended gives what it
/// gave.
pub proof fn law_joined_task(
    join: TaskJoin,
    result: Result<Option<JsonDocument>, CoordinatorError>,
)
    requires
        call_ensures(join_task, (join,), result),
    ensures
        join matches TaskJoin::Ended(ended) ==> result == ended,
        join matches TaskJoin::Panicked { error } ==> (result matches Err(reported)
            && reported.status == 500 && reported.problem_type@
            == "urn:agentic-afk:assignment-task-panic"@ && reported.detail@
            == "assignment task panicked: "@ + error@),
{
}

proof fn lemma_last_position(ids: Seq<Seq<char>>, id: Seq<char>)
    ensures
        match last_position(ids, id) {
            Some(at) => 0 <= at < ids.len() && ids[at] == id && forall|k: int|
                at < k < ids.len() ==> #[trigger] ids[k] != id,
            None => !ids.contains(id),
        },
    decreases ids.len(),
{
    if ids.len() > 0 {
        let front = ids.drop_last();
        lemma_last_position(front, id);
        if ids.last() != id {
            match last_position(front, id) {
                Some(at) => {
                    assert forall|k: int| at < k < ids.len() implies #[trigger] ids[k] != id by {
                        if k < front.len() {
                            assert(front[k] != id);
                        }
                    }
                },
                None => {
                    if ids.contains(id) {
                        let k = choose|k: int| 0 <= k < ids.len() && ids[k] == id;
                        assert(front[k] == id);
                    }
                },
            }
        }
    }
}

proof fn lemma_positions(claimed: Seq<Seq<char>>, completed: Seq<Seq<char>>)
    ensures
        forall|k: int|
            #![trigger claim_positions(claimed, completed)[k]]
            0 <= k < claim_positions(claimed, completed).len() ==> {
                let at = claim_positions(claimed, completed)[k];
                &&& 0 <= at < completed.len()
                &&& claimed.contains(completed[at])
                &&& last_position(completed, completed[at]) == Some(at)
            },
        forall|i: int|
            0 <= i < claimed.len() && completed.contains(#[trigger] claimed[i]) ==> exists|k: int|
                0 <= k < claim_positions(claimed, completed).len() && completed[
                    #[trigger] claim_positions(claimed, completed)[k]
                ] == claimed[i],
    decreases claimed.len(),
{
    if claimed.len() > 0 {
        let front = claimed.drop_last();
        let before = claim_positions(front, completed);
        let all = claim_positions(claimed, completed);
        lemma_positions(front, completed);
        lemma_last_position(completed, claimed.last());
        assert forall|k: int| #![trigger all[k]] 0 <= k < all.len() implies {
            let at = all[k];
            &&& 0 <= at < completed.len()
            &&& claimed.contains(completed[at])
            &&& last_position(completed, completed[at]) == Some(at)
        } by {
            if k < before.len() {
                assert(all[k] == before[k]);
                let i = choose|i: int| 0 <= i < front.len() && front[i] == completed[before[k]];
                assert(claimed[i] == completed[before[k]]);
            } else {
                assert(claimed[claimed.len() - 1] == completed[all[k]]);
            }
        }
        assert forall|i: int|
            0 <= i < claimed.len() && completed.contains(#[trigger] claimed[i]) implies exists|
            k: int,
        |
            0 <= k < all.len() && completed[#[trigger] all[k]] == claimed[i] by {
            if i < front.len() {
                assert(front[i] == claimed[i]);
                let k = choose|k: int|
                    0 <= k < before.len() && completed[#[trigger] before[k]] == front[i];
                assert(all[k] == before[k]);
            } else if front.contains(claimed.last()) {
                let j = choose|j: int| 0 <= j < front.len() && front[j] == claimed.last();
                let k = choose|k: int|
                    0 <= k < before.len() && completed[#[trigger] before[k]] == front[j];
                assert(all[k] == before[k]);
            } else {
                assert(all[all.len() - 1] == last_position(completed, claimed.last())->0);
            }
        }
    }
}

/// What completed is taken up in the order of the claims, and nothing else is: each place
/// that is given is the last one at which a claimed issue completed, and each claimed issue
/// that completed has such a place.
pub proof fn law_completed_claims_are_taken_up(
    claimed: &Vec<IssueAssignmentResponse>,
    completed: &Vec<AssignmentBatchOutcome>,
    order: Vec<usize>,
    k: int,
    i: int,
)
    requires
        call_ensures(claim_order, (claimed, completed), order),
    ensures
        0 <= k < order@.len() ==> {
            &&& order@[k] < completed@.len()
            &&& exists|j: int|
                0 <= j < claimed@.len() && (#[trigger] claimed@[j]).source_id@
                    == completed@[order@[k] as int].assignment.source_id@
            &&& forall|later: int|
                order@[k] < later < completed@.len() ==> (
                #[trigger] completed@[later]).assignment.source_id@
                    != completed@[order@[k] as int].assignment.source_id@
        },
        0 <= i < claimed@.len() && (exists|j: int|
            0 <= j < completed@.len() && (#[trigger] completed@[j]).assignment.source_id@
                == claimed@[i].source_id@) ==> exists|place: int|
            0 <= place < order@.len() && completed@[(#[trigger] order@[place]) as int].assignment.source_id@
                == claimed@[i].source_id@,
{
    let ids = source_ids(claimed@);
    let done = outcome_ids(completed@);
    let positions = claim_positions(ids, done);
    lemma_positions(ids, done);
    assert(order@.map_values(|at: usize| at as int) == positions);
    assert(positions.len() == order@.len());
    if 0 <= k < order@.len() {
        assert(positions[k] == order@[k] as int);
        let at = positions[k];
        lemma_last_position(done, done[at]);
        let j = choose|j: int| 0 <= j < ids.len() && ids[j] == done[at];
        assert(claimed@[j].source_id@ == ids[j]);
        assert forall|later: int| order@[k] < later < completed@.len() implies (
        #[trigger] completed@[later]).assignment.source_id@ != completed@[order@[
            k
        ] as int].assignment.source_id@ by {
            assert(done[later] != done[at]);
        }
    }
    if 0 <= i < claimed@.len() && exists|j: int|
        0 <= j < completed@.len() && (#[trigger] completed@[j]).assignment.source_id@
            == claimed@[i].source_id@ {
        let j = choose|j: int|
            0 <= j < completed@.len() && (#[trigger] completed@[j]).assignment.source_id@
                == claimed@[i].source_id@;
        assert(done[j] == ids[i]);
        assert(done.contains(ids[i]));
        let place = choose|place: int|
            0 <= place < positions.len() && done[#[trigger] positions[place]] == ids[i];
        assert(positions[place] == order@[place] as int);
    }
}

/// An assignment can be merged if and only if a review approved it, and has something to
/// clean up if and only if it has a worktree.
pub proof fn law_merge_items(batch: &Vec<AssignmentBatchOutcome>, items: Vec<MergeItem>, i: int)
    requires
        call_ensures(merge_items, (batch,), items),
    ensures
        items@.len() == batch@.len(),
        0 <= i < batch@.len() ==> {
            &&& items@[i].has_review <==> batch@[i].review_body is Some
            &&& items@[i].has_worktree <==> batch@[i].assignment.worktree_path@.len() > 0
        },
{
    if 0 <= i < batch@.len() {
        let item = items[i];
    }
}

/// A status is among the assignments if and only if one of them has it.
pub proof fn law_status_among(
    assignments: &Vec<IssueAssignmentResponse>,
    status: &str,
    yes: bool,
)
    requires
        call_ensures(status_among, (assignments, status), yes),
    ensures
        yes <==> exists|i: int|
            0 <= i < assignments@.len() && (#[trigger] assignments@[i]).status@ == status@,
{
}

} // verus!
