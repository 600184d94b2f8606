//! What holds of every run of the planning machine, said of what it asks for and of
//! what it is told.

use vstd::prelude::*;

#[allow(unused_imports)]
use crate::contracts::{ProjectExecutionConfigResponse, SourceIssueSnapshot};
#[allow(unused_imports)]
use crate::json::{array_field, field, text_field, JsonModel};
#[allow(unused_imports)]
use crate::plan_run::{planning_output, LifecycleStatus, PhaseRecord};
#[allow(unused_imports)]
use crate::plan_run_finalize::PlanRunTerminal;
#[allow(unused_imports)]
use crate::planning_driver::{
    claims_from, fails_planning, is_run, is_step, ClaimPlan, PlanningAction, PlanningEvent,
    PlanningStage,
};
#[allow(unused_imports)]
use crate::planning_phase::{
    claim_pairs, is_planner_decision, last_with_id, planner_selection, planner_selections,
    same_issue, selections_of, PlannedClaim, PlanningRejection, SelectionModel,
};
#[allow(unused_imports)]
use crate::problem::PersistenceError;

verus! {

/// The database took the action at `k`.
pub open spec fn stored(events: Seq<PlanningEvent>, k: int) -> bool {
    0 <= k < events.len() && (events[k] matches PlanningEvent::Stored(Ok(_)))
}

/// The action stores that planning failed with the error.
pub open spec fn stores_failure(action: PlanningAction, error: Seq<char>) -> bool {
    &&& action matches PlanningAction::RecordFailure { record }
    &&& record.phase@ == "planning"@
    &&& record.outcome@ == "failed"@
    &&& record.body.value@ == JsonModel::Object(seq![("error"@, JsonModel::Text(error))])
}

// --- The planner's selection ---

proof fn lemma_selections(items: Seq<JsonModel>)
    ensures
        planner_selections(items) matches Ok(selections) ==> selections.len() == items.len()
            && forall|i: int|
            0 <= i < items.len() ==> planner_selection(items[i]) == Ok::<SelectionModel, Seq<char>>(
                #[trigger] selections[i],
            ),
    decreases items.len(),
{
    if items.len() > 0 {
        lemma_selections(items.drop_last());
        if let Ok(selections) = planner_selections(items) {
            let front = planner_selections(items.drop_last())->Ok_0;
            assert forall|i: int| 0 <= i < items.len() implies planner_selection(items[i]) == Ok::<
                SelectionModel,
                Seq<char>,
            >(#[trigger] selections[i]) by {
                if i < items.len() - 1 {
                    assert(front[i] == selections[i]);
                    assert(items.drop_last()[i] == items[i]);
                }
            }
        }
    }
}

/// The last issue with the id is one with it, and none behind it has it; there is none
/// only where no issue has it.
pub proof fn law_last_with_id(issues: Seq<SourceIssueSnapshot>, source_id: Seq<char>)
    ensures
        match last_with_id(issues, source_id) {
            Some(at) => 0 <= at < issues.len() && issues[at].source_id@ == source_id && forall|
                i: int,
            |
                at < i < issues.len() ==> (#[trigger] issues[i]).source_id@ != source_id,
            None => forall|i: int|
                0 <= i < issues.len() ==> (#[trigger] issues[i]).source_id@ != source_id,
        },
    decreases issues.len(),
{
    if issues.len() > 0 && issues.last().source_id@ != source_id {
        law_last_with_id(issues.drop_last(), source_id);
        assert forall|i: int| 0 <= i < issues.len() implies issues[i] == if i < issues.len() - 1 {
            issues.drop_last()[i]
        } else {
            issues.last()
        } by {}
    }
}

/// The claim is for the issue that the entry of the planner's output names, on the
/// branch and under the title that it gives; and that issue is eligible.
pub open spec fn claims_entry(
    claim: PlannedClaim,
    entry: JsonModel,
    eligible: Seq<SourceIssueSnapshot>,
) -> bool {
    &&& text_field(entry, "source_issue_id"@) == Some(claim.selection.source_issue_id@)
    &&& text_field(entry, "branch"@) == Some(claim.selection.branch@)
    &&& text_field(entry, "title"@) == Some(claim.selection.title@)
    &&& claim.selection.selection_summary@ == match field(entry, "selection_summary"@) {
        Some(JsonModel::Text(summary)) => summary,
        _ => seq![],
    }
    &&& claim.eligible_issue.source_id@ == claim.selection.source_issue_id@
    &&& exists|i: int|
        0 <= i < eligible.len() && same_issue(claim.eligible_issue, #[trigger] eligible[i])
}

/// Claims are taken up only for a selection that can be read whole, that is no longer
/// than the Project's Max Parallel Tasks, for a Project with an Issue Source, and whose
/// issues are all eligible; there is one claim for each entry, in the planner's order.
/// Each rejection has its cause.
pub proof fn law_planner_decision(
    decision: Result<Vec<PlannedClaim>, PlanningRejection>,
    issues: Seq<JsonModel>,
    eligible: Seq<SourceIssueSnapshot>,
    max_parallel_tasks: i64,
    has_issue_source: bool,
)
    requires
        is_planner_decision(
            decision,
            planner_selections(issues),
            eligible,
            max_parallel_tasks,
            has_issue_source,
        ),
    ensures
        match decision {
            Ok(claims) => {
                &&& has_issue_source
                &&& claims@.len() == issues.len()
                &&& max_parallel_tasks <= usize::MAX ==> issues.len() <= 1 || issues.len()
                    <= max_parallel_tasks
                &&& forall|i: int|
                    0 <= i < issues.len() ==> claims_entry(
                        #[trigger] claims@[i],
                        issues[i],
                        eligible,
                    )
            },
            Err(PlanningRejection::Unparseable(_)) => exists|i: int|
                0 <= i < issues.len() && planner_selection(#[trigger] issues[i]) is Err,
            Err(PlanningRejection::ExceedsMaxParallel { got, cap }) => {
                &&& got == issues.len()
                &&& max_parallel_tasks <= usize::MAX ==> cap == if max_parallel_tasks < 1 {
                    1
                } else {
                    max_parallel_tasks as int
                }
                &&& got > cap
            },
            Err(PlanningRejection::MissingIssueSource) => !has_issue_source,
            Err(PlanningRejection::IneligibleSelection { source_id }) => {
                &&& has_issue_source
                &&& forall|i: int|
                    0 <= i < eligible.len() ==> (#[trigger] eligible[i]).source_id@ != source_id@
                &&& exists|i: int|
                    0 <= i < issues.len() && text_field(
                        #[trigger] issues[i],
                        "source_issue_id"@,
                    ) == Some(source_id@)
            },
        },
{
    lemma_selections(issues);
    match decision {
        Ok(claims) => {
            let selections = planner_selections(issues)->Ok_0;
            assert forall|i: int| 0 <= i < issues.len() implies claims_entry(
                #[trigger] claims@[i],
                issues[i],
                eligible,
            ) by {
                assert(claim_pairs(claims@[i], selections[i], eligible));
                law_last_with_id(eligible, selections[i].source_issue_id);
                let at = last_with_id(eligible, selections[i].source_issue_id)->0;
                assert(same_issue(claims@[i].eligible_issue, eligible[at]));
                assert(claims@[i].selection@ == selections[i]);
            }
        },
        Err(PlanningRejection::Unparseable(_)) => {
            lemma_unreadable(issues);
        },
        Err(PlanningRejection::IneligibleSelection { source_id }) => {
            let selections = planner_selections(issues)->Ok_0;
            let i = choose|i: int|
                {
                    &&& 0 <= i < selections.len()
                    &&& source_id@ == (#[trigger] selections[i]).source_issue_id
                    &&& last_with_id(eligible, selections[i].source_issue_id) is None
                    &&& forall|k: int|
                        0 <= k < i ==> last_with_id(
                            eligible,
                            (#[trigger] selections[k]).source_issue_id,
                        ) is Some
                };
            law_last_with_id(eligible, source_id@);
            assert(text_field(issues[i], "source_issue_id"@) == Some(source_id@));
        },
        _ => {},
    }
}

proof fn lemma_unreadable(items: Seq<JsonModel>)
    requires
        planner_selections(items) is Err,
    ensures
        exists|i: int| 0 <= i < items.len() && planner_selection(#[trigger] items[i]) is Err,
    decreases items.len(),
{
    if planner_selections(items.drop_last()) is Err {
        lemma_unreadable(items.drop_last());
        let i = choose|i: int|
            0 <= i < items.drop_last().len() && planner_selection(#[trigger] items.drop_last()[i])
                is Err;
        assert(planner_selection(items[i]) is Err);
    } else {
        assert(planner_selection(items[items.len() - 1]) is Err);
    }
}

/// The selection that the planner made is refused for the right reason, and a sound one
/// is not refused.
pub proof fn law_sound_selection_is_claimed(
    decision: Result<Vec<PlannedClaim>, PlanningRejection>,
    issues: Seq<JsonModel>,
    eligible: Seq<SourceIssueSnapshot>,
    max_parallel_tasks: i64,
)
    requires
        is_planner_decision(
            decision,
            planner_selections(issues),
            eligible,
            max_parallel_tasks,
            true,
        ),
        issues.len() <= max_parallel_tasks,
        max_parallel_tasks <= usize::MAX,
        forall|i: int|
            #![trigger issues[i]]
            0 <= i < issues.len() ==> planner_selection(issues[i]) is Ok && exists|j: int|
                0 <= j < eligible.len() && text_field(issues[i], "source_issue_id"@) == Some(
                    (#[trigger] eligible[j]).source_id@,
                ),
    ensures
        decision is Ok,
{
    law_planner_decision(decision, issues, eligible, max_parallel_tasks, true);
    if let Err(PlanningRejection::IneligibleSelection { source_id }) = decision {
        let i = choose|i: int|
            0 <= i < issues.len() && text_field(#[trigger] issues[i], "source_issue_id"@) == Some(
                source_id@,
            );
        let j = choose|j: int|
            0 <= j < eligible.len() && text_field(issues[i], "source_issue_id"@) == Some(
                (#[trigger] eligible[j]).source_id@,
            );
        assert(eligible[j].source_id@ == source_id@);
    }
    if let Err(PlanningRejection::Unparseable(_)) = decision {
        let i = choose|i: int|
            0 <= i < issues.len() && planner_selection(#[trigger] issues[i]) is Err;
        assert(planner_selection(issues[i]) is Ok);
    }
}

// --- The stage shows in the action that it began with ---

spec fn shows(stage: PlanningStage, action: PlanningAction) -> bool {
    match stage {
        PlanningStage::LoadingEligible => action is LoadSnapshot,
        PlanningStage::Planning => action is RunPlanner,
        PlanningStage::RecordingFailure { error } => stores_failure(action, error.detail@),
        PlanningStage::Closing { error } => action == (PlanningAction::CloseFailed {
            terminal: PlanRunTerminal::Failed,
        }),
        PlanningStage::RecordingEmpty => action matches PlanningAction::RecordOutput { record }
            && record.phase@ == "planning"@ && record.outcome@ == "succeeded_empty"@,
        PlanningStage::FinishingEmpty => action == (PlanningAction::FinishPlanRun {
            terminal: PlanRunTerminal::SucceededEmpty,
        }),
        PlanningStage::LoadingSnapshot { parsed } => action is LoadSnapshot,
        PlanningStage::LoadingConfig { .. } => action is LoadConfig,
        PlanningStage::Creating { plan, at } => action == (PlanningAction::CreateAssignment {
            claim: at,
        }),
        PlanningStage::Provisioning { plan, at } => action == (PlanningAction::ProvisionWorktree {
            claim: at,
        }),
        PlanningStage::Placing { plan, at } => action matches PlanningAction::SetWorktree {
            claim,
            path,
        } && claim == at,
        PlanningStage::Claiming { plan, at } => action == (PlanningAction::WriteLifecycle {
            claim: at,
            status: LifecycleStatus::Claimed,
        }),
        PlanningStage::Releasing { error } => action is ReleaseAssignment,
        PlanningStage::RecordingPlan { config } => action matches PlanningAction::RecordOutput {
            record,
        } && record.phase@ == "planning"@ && record.outcome@ == "succeeded"@,
        PlanningStage::RunningTranche => action is RunTranche,
        PlanningStage::Finished => action is Finish || action is Merge,
    }
}

proof fn lemma_outcomes_differ()
    ensures
        "succeeded"@ != "succeeded_empty"@,
{
    reveal_strlit("succeeded");
    reveal_strlit("succeeded_empty");
    assert("succeeded"@.len() == 9 && "succeeded_empty"@.len() == 15);
}

proof fn lemma_validation(
    has_issue_source: bool,
    stages: Seq<PlanningStage>,
    events: Seq<PlanningEvent>,
    actions: Seq<PlanningAction>,
    k: int,
) -> (decision: Result<Vec<PlannedClaim>, PlanningRejection>)
    requires
        is_run(has_issue_source, stages, events, actions),
        0 <= k < events.len(),
        stages[k] is LoadingConfig,
        events[k] matches PlanningEvent::Config(Ok(Some(_))),
    ensures
        stages[k] matches PlanningStage::LoadingConfig { parsed, eligible } && (
        events[k] matches PlanningEvent::Config(Ok(Some(config))) && is_planner_decision(
            decision,
            selections_of(parsed),
            eligible@,
            config.max_parallel_tasks,
            has_issue_source,
        ) && match decision {
            Err(rejection) => fails_planning(
                stages[k + 1],
                actions[k + 1],
                rejection.detail(),
                rejection.problem_type(),
            ),
            Ok(claims) => claims_from(
                ClaimPlan { body: parsed.body, config, claims },
                0,
                stages[k + 1],
                actions[k + 1],
            ),
        }),
{
    assert(is_step(has_issue_source, stages[k], events[k], stages[k + 1], actions[k + 1]));
    let (parsed, eligible) = match stages[k] {
        PlanningStage::LoadingConfig { parsed, eligible } => (parsed, eligible),
        _ => arbitrary(),
    };
    let config = match events[k] {
        PlanningEvent::Config(Ok(Some(config))) => config,
        _ => arbitrary(),
    };
    choose|decision: Result<Vec<PlannedClaim>, PlanningRejection>|
        {
            &&& #[trigger] is_planner_decision(
                decision,
                selections_of(parsed),
                eligible@,
                config.max_parallel_tasks,
                has_issue_source,
            )
            &&& match decision {
                Err(rejection) => fails_planning(
                    stages[k + 1],
                    actions[k + 1],
                    rejection.detail(),
                    rejection.problem_type(),
                ),
                Ok(claims) => claims_from(
                    ClaimPlan { body: parsed.body, config, claims },
                    0,
                    stages[k + 1],
                    actions[k + 1],
                ),
            }
        }
}

proof fn lemma_shows(
    has_issue_source: bool,
    stages: Seq<PlanningStage>,
    events: Seq<PlanningEvent>,
    actions: Seq<PlanningAction>,
    k: int,
)
    requires
        is_run(has_issue_source, stages, events, actions),
        0 <= k < stages.len(),
    ensures
        shows(stages[k], actions[k]),
{
    if k > 0 {
        assert(is_step(has_issue_source, stages[k - 1], events[k - 1], stages[k], actions[k]));
        if stages[k - 1] is LoadingConfig && (events[k - 1] matches PlanningEvent::Config(
            Ok(Some(_)),
        )) {
            let decision = lemma_validation(has_issue_source, stages, events, actions, k - 1);
        }
    }
}

// --- One claim ---

/// A claim keeps its index: its worktree is provisioned when its own assignment was
/// created, the worktree that came of that is stored for the same claim, and then the
/// claim is written back as claimed. Each of these follows the one before it, and
/// nothing else.
pub proof fn law_claim_keeps_its_index(
    has_issue_source: bool,
    stages: Seq<PlanningStage>,
    events: Seq<PlanningEvent>,
    actions: Seq<PlanningAction>,
    k: int,
    claim: usize,
    path: String,
)
    requires
        is_run(has_issue_source, stages, events, actions),
        0 <= k < events.len(),
    ensures
        actions[k + 1] == (PlanningAction::ProvisionWorktree { claim }) <==> actions[k] == (
        PlanningAction::CreateAssignment { claim }) && stored(events, k),
        actions[k + 1] == (PlanningAction::SetWorktree { claim, path }) <==> actions[k] == (
        PlanningAction::ProvisionWorktree { claim }) && events[k] == (PlanningEvent::Provisioned(
            Ok(path),
        )),
        actions[k + 1] == (PlanningAction::WriteLifecycle {
            claim,
            status: LifecycleStatus::Claimed,
        }) <==> (actions[k] matches PlanningAction::SetWorktree { claim: placed, .. } && placed
            == claim) && stored(events, k),
        actions[k + 1] is WriteLifecycle ==> actions[k + 1] == (PlanningAction::WriteLifecycle {
            claim: actions[k + 1]->WriteLifecycle_claim,
            status: LifecycleStatus::Claimed,
        }),
{
    lemma_shows(has_issue_source, stages, events, actions, k);
    lemma_shows(has_issue_source, stages, events, actions, k + 1);
    assert(is_step(has_issue_source, stages[k], events[k], stages[k + 1], actions[k + 1]));
    if stages[k] is LoadingConfig && (events[k] matches PlanningEvent::Config(Ok(Some(_)))) {
        let decision = lemma_validation(has_issue_source, stages, events, actions, k);
    }
}

/// A claim whose worktree cannot be provisioned, or which cannot be written back, is
/// released: that claim, and only then. Its failure is stored next, and the run closed.
pub proof fn law_failed_claim_releases_itself(
    has_issue_source: bool,
    stages: Seq<PlanningStage>,
    events: Seq<PlanningEvent>,
    actions: Seq<PlanningAction>,
    k: int,
    claim: usize,
)
    requires
        is_run(has_issue_source, stages, events, actions),
        0 <= k < events.len(),
    ensures
        actions[k + 1] == (PlanningAction::ReleaseAssignment { claim }) <==> (actions[k] == (
        PlanningAction::ProvisionWorktree { claim }) && (events[k] matches
            PlanningEvent::Provisioned(Err(_)))) || (actions[k] == (
        PlanningAction::WriteLifecycle { claim, status: LifecycleStatus::Claimed }) && (
        events[k] matches PlanningEvent::Written(Err(_)))),
        k > 0 && actions[k] is ReleaseAssignment && events[k] is Noted ==> match events[k - 1] {
            PlanningEvent::Provisioned(Err(error)) => stores_failure(actions[k + 1], error.text()),
            PlanningEvent::Written(Err(error)) => stores_failure(actions[k + 1], error.text()),
            _ => false,
        },
{
    lemma_shows(has_issue_source, stages, events, actions, k);
    lemma_shows(has_issue_source, stages, events, actions, k + 1);
    assert(is_step(has_issue_source, stages[k], events[k], stages[k + 1], actions[k + 1]));
    if stages[k] is LoadingConfig && (events[k] matches PlanningEvent::Config(Ok(Some(_)))) {
        let decision = lemma_validation(has_issue_source, stages, events, actions, k);
    }
    if k > 0 {
        assert(is_step(has_issue_source, stages[k - 1], events[k - 1], stages[k], actions[k]));
        lemma_shows(has_issue_source, stages, events, actions, k - 1);
        if stages[k - 1] is LoadingConfig && (events[k - 1] matches PlanningEvent::Config(
            Ok(Some(_)),
        )) {
            let decision = lemma_validation(has_issue_source, stages, events, actions, k - 1);
        }
    }
}

// --- All claims ---

/// The claims up to `n` have gone through: each was created, provisioned, placed and
/// written back, one after the other and each under its own index.
pub open spec fn went_through(
    events: Seq<PlanningEvent>,
    actions: Seq<PlanningAction>,
    n: int,
) -> bool {
    forall|i: int|
        #![trigger claimed_at(events, actions, i)]
        0 <= i < n ==> claimed_at(events, actions, i)
}

/// Claim `i` was created, provisioned, placed and written back at its place in the run.
pub open spec fn claimed_at(
    events: Seq<PlanningEvent>,
    actions: Seq<PlanningAction>,
    i: int,
) -> bool {
    let at = 4 + 4 * i;
    &&& at + 3 < events.len()
    &&& actions[at] == (PlanningAction::CreateAssignment { claim: i as usize })
    &&& stored(events, at)
    &&& actions[at + 1] == (PlanningAction::ProvisionWorktree { claim: i as usize })
    &&& events[at + 1] matches PlanningEvent::Provisioned(Ok(path)) && actions[at + 2] == (
    PlanningAction::SetWorktree { claim: i as usize, path })
    &&& stored(events, at + 2)
    &&& actions[at + 3] == (PlanningAction::WriteLifecycle {
        claim: i as usize,
        status: LifecycleStatus::Claimed,
    })
    &&& events[at + 3] matches PlanningEvent::Written(Ok(_))
}

/// What the run was told before its first claim: what the planner printed, what is
/// eligible, and the configuration.
pub open spec fn was_told(
    events: Seq<PlanningEvent>,
    text: Seq<char>,
    value: JsonModel,
    eligible: Seq<SourceIssueSnapshot>,
    config: ProjectExecutionConfigResponse,
) -> bool {
    &&& events.len() >= 4
    &&& events[1] matches PlanningEvent::Ran(Ok(stdout)) && planning_output(stdout@) == Ok::<
        _,
        Seq<char>,
    >((text, value))
    &&& events[2] matches PlanningEvent::Snapshot(Ok(issues)) && issues@ == eligible
    &&& events[3] == (PlanningEvent::Config(Ok(Some(config))))
}

spec fn planned_well(
    has_issue_source: bool,
    events: Seq<PlanningEvent>,
    plan: ClaimPlan,
) -> bool {
    &&& events[2] matches PlanningEvent::Snapshot(Ok(issues)) && was_told(
        events,
        plan.body.text@,
        plan.body.value@,
        issues@,
        plan.config,
    ) && (array_field(plan.body.value@, "issues"@) matches Some(items) && is_planner_decision(
        Ok(plan.claims),
        planner_selections(items),
        issues@,
        plan.config.max_parallel_tasks,
        has_issue_source,
    ) && plan.claims@.len() == items.len())
}

spec fn told(
    has_issue_source: bool,
    stage: PlanningStage,
    events: Seq<PlanningEvent>,
    actions: Seq<PlanningAction>,
    k: int,
) -> bool {
    match stage {
        PlanningStage::LoadingEligible => k == 0,
        PlanningStage::Planning => k == 1,
        PlanningStage::LoadingSnapshot { parsed } => k == 2 && (events[1] matches
            PlanningEvent::Ran(Ok(stdout)) && planning_output(stdout@) == Ok::<_, Seq<char>>(
            (parsed.body.text@, parsed.body.value@),
        )),
        PlanningStage::LoadingConfig { parsed, eligible } => k == 3 && (events[1] matches
            PlanningEvent::Ran(Ok(stdout)) && planning_output(stdout@) == Ok::<_, Seq<char>>(
            (parsed.body.text@, parsed.body.value@),
        )) && events[2] == (PlanningEvent::Snapshot(Ok(eligible))),
        PlanningStage::Creating { plan, at } => k == 4 + 4 * at && at < plan.claims@.len()
            && planned_well(has_issue_source, events, plan) && went_through(
            events,
            actions,
            at as int,
        ),
        PlanningStage::Provisioning { plan, at } => k == 5 + 4 * at && at < plan.claims@.len()
            && planned_well(has_issue_source, events, plan) && went_through(
            events,
            actions,
            at as int,
        ) && actions[k - 1] == (PlanningAction::CreateAssignment { claim: at }) && stored(
            events,
            k - 1,
        ),
        PlanningStage::Placing { plan, at } => k == 6 + 4 * at && at < plan.claims@.len()
            && planned_well(has_issue_source, events, plan) && went_through(
            events,
            actions,
            at as int,
        ) && actions[k - 2] == (PlanningAction::CreateAssignment { claim: at }) && stored(
            events,
            k - 2,
        ) && actions[k - 1] == (PlanningAction::ProvisionWorktree { claim: at }) && (
        events[k - 1] matches PlanningEvent::Provisioned(Ok(path)) && actions[k] == (
        PlanningAction::SetWorktree { claim: at, path })),
        PlanningStage::Claiming { plan, at } => k == 7 + 4 * at && at < plan.claims@.len()
            && planned_well(has_issue_source, events, plan) && went_through(
            events,
            actions,
            at as int,
        ) && actions[k - 3] == (PlanningAction::CreateAssignment { claim: at }) && stored(
            events,
            k - 3,
        ) && actions[k - 2] == (PlanningAction::ProvisionWorktree { claim: at }) && (
        events[k - 2] matches PlanningEvent::Provisioned(Ok(path)) && actions[k - 1] == (
        PlanningAction::SetWorktree { claim: at, path })) && stored(events, k - 1),
        PlanningStage::RecordingPlan { config } => k >= 4 && events[3] == (
        PlanningEvent::Config(Ok(Some(config)))) && (actions[k] matches
            PlanningAction::RecordOutput { record } && (events[2] matches PlanningEvent::Snapshot(
            Ok(issues),
        ) && was_told(events, record.body.text@, record.body.value@, issues@, config)) && (
        array_field(record.body.value@, "issues"@) matches Some(items) && k == 4 + 4 * items.len()
            && went_through(events, actions, items.len() as int))),
        PlanningStage::RunningTranche => k >= 5 && (actions[k - 1] matches
            PlanningAction::RecordOutput { record } && record.phase@ == "planning"@
            && record.outcome@ == "succeeded"@ && (array_field(record.body.value@, "issues"@)
            matches Some(items) && k == 5 + 4 * items.len())) && stored(events, k - 1) && (
        actions[k] matches PlanningAction::RunTranche { config } && events[3] == (
        PlanningEvent::Config(Ok(Some(config))))),
        _ => true,
    }
}

#[verifier::rlimit(60)]
#[verifier::spinoff_prover]
proof fn lemma_told(
    has_issue_source: bool,
    stages: Seq<PlanningStage>,
    events: Seq<PlanningEvent>,
    actions: Seq<PlanningAction>,
    k: int,
)
    requires
        is_run(has_issue_source, stages, events, actions),
        0 <= k < stages.len(),
    ensures
        told(has_issue_source, stages[k], events, actions, k),
    decreases k,
{
    if k > 0 {
        lemma_told(has_issue_source, stages, events, actions, k - 1);
        lemma_shows(has_issue_source, stages, events, actions, k - 1);
        lemma_shows(has_issue_source, stages, events, actions, k);
        let before = stages[k - 1];
        assert(is_step(has_issue_source, before, events[k - 1], stages[k], actions[k]));
        if before is LoadingConfig && (events[k - 1] matches PlanningEvent::Config(Ok(Some(_)))) {
            let decision = lemma_validation(has_issue_source, stages, events, actions, k - 1);
            if let PlanningStage::LoadingConfig { parsed, eligible } = before {
                if let Ok(claims) = decision {
                    let items = array_field(parsed.body.value@, "issues"@)->0;
                    lemma_selections(items);
                    assert(claims@.len() == items.len());
                }
            }
        }
        if let PlanningStage::Claiming { plan, at } = before {
            if events[k - 1] matches PlanningEvent::Written(Ok(_)) {
                assert(claimed_at(events, actions, at as int));
                assert(went_through(events, actions, at + 1));
                assert(plan.claims.len() <= usize::MAX);
            }
        }
    }
}

/// The plan is stored, and then the claimed assignments are worked on, only when each
/// entry of the planner's selection has its claim: created, provisioned, placed and
/// written back, in the planner's order. What is stored is what the planner printed.
pub proof fn law_every_selection_is_claimed(
    has_issue_source: bool,
    stages: Seq<PlanningStage>,
    events: Seq<PlanningEvent>,
    actions: Seq<PlanningAction>,
    k: int,
    record: PhaseRecord,
)
    requires
        is_run(has_issue_source, stages, events, actions),
        0 <= k < actions.len(),
        actions[k] == (PlanningAction::RecordOutput { record }),
        record.outcome@ == "succeeded"@,
    ensures
        record.phase@ == "planning"@,
        events[1] matches PlanningEvent::Ran(Ok(stdout)) && planning_output(stdout@) == Ok::<
            _,
            Seq<char>,
        >((record.body.text@, record.body.value@)),
        array_field(record.body.value@, "issues"@) matches Some(items) && k == 4 + 4 * items.len()
            && went_through(events, actions, items.len() as int),
        k < events.len() && stored(events, k) ==> actions[k + 1] is RunTranche,
{
    lemma_outcomes_differ();
    lemma_shows(has_issue_source, stages, events, actions, k);
    lemma_told(has_issue_source, stages, events, actions, k);
    assert(stages[k] is RecordingPlan);
    if k < events.len() {
        assert(is_step(has_issue_source, stages[k], events[k], stages[k + 1], actions[k + 1]));
    }
}

/// The claim at hand is the one for its entry in the planner's selection, and its issue
/// is one that was eligible.
pub proof fn law_claims_are_the_selection(
    has_issue_source: bool,
    stages: Seq<PlanningStage>,
    events: Seq<PlanningEvent>,
    actions: Seq<PlanningAction>,
    k: int,
    plan: ClaimPlan,
    at: usize,
)
    requires
        is_run(has_issue_source, stages, events, actions),
        0 <= k < stages.len(),
        stages[k] == (PlanningStage::Creating { plan, at }) || stages[k] == (
        PlanningStage::Provisioning { plan, at }) || stages[k] == (PlanningStage::Claiming {
            plan,
            at,
        }),
    ensures
        has_issue_source,
        events[1] matches PlanningEvent::Ran(Ok(stdout)) && planning_output(stdout@) == Ok::<
            _,
            Seq<char>,
        >((plan.body.text@, plan.body.value@)),
        events[2] matches PlanningEvent::Snapshot(Ok(eligible)) && (array_field(
            plan.body.value@,
            "issues"@,
        ) matches Some(items) && plan.claims@.len() == items.len() && at < items.len() && forall|
            i: int,
        |
            0 <= i < items.len() ==> claims_entry(
                #[trigger] plan.claims@[i],
                items[i],
                eligible@,
            )),
        actions[k] == (PlanningAction::CreateAssignment { claim: at }) || actions[k] == (
        PlanningAction::ProvisionWorktree { claim: at }) || actions[k] == (
        PlanningAction::WriteLifecycle { claim: at, status: LifecycleStatus::Claimed }),
{
    lemma_shows(has_issue_source, stages, events, actions, k);
    lemma_told(has_issue_source, stages, events, actions, k);
    let items = array_field(plan.body.value@, "issues"@)->0;
    if let PlanningEvent::Snapshot(Ok(eligible)) = events[2] {
        law_planner_decision(
            Ok(plan.claims),
            items,
            eligible@,
            plan.config.max_parallel_tasks,
            has_issue_source,
        );
    }
}

// --- The course of the run ---

/// The run begins with the eligible issues, which the planner is run on; where they
/// cannot be loaded it is run on none.
pub proof fn law_planner_sees_the_eligible(
    has_issue_source: bool,
    stages: Seq<PlanningStage>,
    events: Seq<PlanningEvent>,
    actions: Seq<PlanningAction>,
)
    requires
        is_run(has_issue_source, stages, events, actions),
    ensures
        actions[0] is LoadSnapshot,
        events.len() > 0 ==> match events[0] {
            PlanningEvent::Snapshot(Ok(eligible)) => actions[1] == (PlanningAction::RunPlanner {
                eligible,
            }),
            PlanningEvent::Snapshot(Err(_)) => actions[1] matches PlanningAction::RunPlanner {
                eligible,
            } && eligible@.len() == 0,
            _ => actions[1] is Finish,
        },
        forall|k: int|
            0 <= k < actions.len() && (#[trigger] actions[k]) is RunPlanner ==> k == 1,
{
    if events.len() > 0 {
        assert(is_step(has_issue_source, stages[0], events[0], stages[1], actions[1]));
    }
    assert forall|k: int|
        0 <= k < actions.len() && (#[trigger] actions[k]) is RunPlanner implies k == 1 by {
        lemma_shows(has_issue_source, stages, events, actions, k);
        lemma_told(has_issue_source, stages, events, actions, k);
    }
}

/// What the planner printed decides: an output that cannot be read fails the phase, an
/// empty selection is stored as such and ends the Plan Run as an empty success, and any
/// other goes on to its validation.
pub proof fn law_planner_output_decides(
    has_issue_source: bool,
    stages: Seq<PlanningStage>,
    events: Seq<PlanningEvent>,
    actions: Seq<PlanningAction>,
    k: int,
)
    requires
        is_run(has_issue_source, stages, events, actions),
        0 <= k < events.len(),
    ensures
        actions[k] is RunPlanner ==> match events[k] {
            PlanningEvent::Ran(Err(error)) => stores_failure(actions[k + 1], error.text()),
            PlanningEvent::Ran(Ok(stdout)) => match planning_output(stdout@) {
                Err(message) => stores_failure(actions[k + 1], message),
                Ok((text, value)) => match array_field(value, "issues"@) {
                    Some(issues) => if issues.len() == 0 {
                        actions[k + 1] matches PlanningAction::RecordOutput { record }
                            && record.phase@ == "planning"@ && record.outcome@
                            == "succeeded_empty"@ && record.body.text@ == text
                            && record.body.value@ == value
                    } else {
                        actions[k + 1] is LoadSnapshot
                    },
                    None => true,
                },
            },
            _ => actions[k + 1] is Finish,
        },
        stored(events, k) && (actions[k] matches PlanningAction::RecordOutput { record }
            && record.outcome@ == "succeeded_empty"@) ==> actions[k + 1] == (
        PlanningAction::FinishPlanRun { terminal: PlanRunTerminal::SucceededEmpty }),
        stored(events, k) && actions[k] is FinishPlanRun ==> actions[k + 1] == (
        PlanningAction::Finish { result: Ok(()) }),
        actions[k + 1] is FinishPlanRun ==> actions[k + 1] == (PlanningAction::FinishPlanRun {
            terminal: PlanRunTerminal::SucceededEmpty,
        }) && (actions[k] matches PlanningAction::RecordOutput { record } && record.outcome@
            == "succeeded_empty"@),
{
    lemma_outcomes_differ();
    lemma_shows(has_issue_source, stages, events, actions, k);
    lemma_shows(has_issue_source, stages, events, actions, k + 1);
    assert(is_step(has_issue_source, stages[k], events[k], stages[k + 1], actions[k + 1]));
    if stages[k] is LoadingConfig && (events[k] matches PlanningEvent::Config(Ok(Some(_)))) {
        let decision = lemma_validation(has_issue_source, stages, events, actions, k);
    }
}

/// The snapshot and the configuration for the validation are loaded after the planner
/// has run; where either is missing the phase fails, and a database that fails on the
/// configuration ends the run.
pub proof fn law_validation_needs_its_facts(
    has_issue_source: bool,
    stages: Seq<PlanningStage>,
    events: Seq<PlanningEvent>,
    actions: Seq<PlanningAction>,
    k: int,
)
    requires
        is_run(has_issue_source, stages, events, actions),
        0 < k < events.len(),
    ensures
        actions[k] is LoadSnapshot ==> match events[k] {
            PlanningEvent::Snapshot(Ok(_)) => actions[k + 1] is LoadConfig,
            PlanningEvent::Snapshot(Err(error)) => stores_failure(actions[k + 1], error.message@),
            _ => actions[k + 1] is Finish,
        },
        actions[k] is LoadConfig ==> match events[k] {
            PlanningEvent::Config(Ok(None)) => stores_failure(
                actions[k + 1],
                "Project Execution Config disappeared during Planning Phase"@,
            ),
            PlanningEvent::Config(Err(error)) => actions[k + 1] matches PlanningAction::Finish {
                result: Err(reported),
            } && reported.status == error.kind.status() && reported.problem_type@
                == error.kind.problem_type() && reported.detail@ == error.message@,
            PlanningEvent::Config(Ok(Some(_))) => actions[k + 1] == (
            PlanningAction::CreateAssignment { claim: 0 }) || actions[k + 1] is RecordFailure
                || actions[k + 1] is RecordOutput,
            _ => actions[k + 1] is Finish,
        },
{
    lemma_shows(has_issue_source, stages, events, actions, k);
    lemma_told(has_issue_source, stages, events, actions, k);
    lemma_shows(has_issue_source, stages, events, actions, k + 1);
    assert(is_step(has_issue_source, stages[k], events[k], stages[k + 1], actions[k + 1]));
    if stages[k] is LoadingConfig && (events[k] matches PlanningEvent::Config(Ok(Some(_)))) {
        let decision = lemma_validation(has_issue_source, stages, events, actions, k);
    }
}

/// The claimed assignments are worked on, with the configuration that was loaded, only
/// when the plan was stored; when that has ended the merges follow, and where it failed
/// the Plan Run is closed as failed and ends with that error.
pub proof fn law_work_follows_the_stored_plan(
    has_issue_source: bool,
    stages: Seq<PlanningStage>,
    events: Seq<PlanningEvent>,
    actions: Seq<PlanningAction>,
    k: int,
)
    requires
        is_run(has_issue_source, stages, events, actions),
        0 <= k < events.len(),
    ensures
        actions[k] matches PlanningAction::RunTranche { config } ==> k > 3 && events[3] == (
        PlanningEvent::Config(Ok(Some(config)))) && stored(events, k - 1) && (actions[k - 1]
            matches PlanningAction::RecordOutput { record } && record.outcome@ == "succeeded"@),
        actions[k] is RunTranche ==> match events[k] {
            PlanningEvent::TrancheEnded(Ok(_)) => actions[k + 1] is Merge,
            PlanningEvent::TrancheEnded(Err(error)) => actions[k + 1] == (
            PlanningAction::CloseFailed { terminal: PlanRunTerminal::Failed }) && (k + 1
                < events.len() && events[k + 1] is Noted ==> actions[k + 2] == (
            PlanningAction::Finish { result: Err(error) })),
            _ => actions[k + 1] is Finish,
        },
        actions[k + 1] is Merge ==> actions[k] is RunTranche && (events[k] matches
            PlanningEvent::TrancheEnded(Ok(_))),
{
    lemma_outcomes_differ();
    lemma_shows(has_issue_source, stages, events, actions, k);
    lemma_told(has_issue_source, stages, events, actions, k);
    lemma_shows(has_issue_source, stages, events, actions, k + 1);
    assert(is_step(has_issue_source, stages[k], events[k], stages[k + 1], actions[k + 1]));
    if stages[k] is LoadingConfig && (events[k] matches PlanningEvent::Config(Ok(Some(_)))) {
        let decision = lemma_validation(has_issue_source, stages, events, actions, k);
    }
    if k + 1 < events.len() {
        assert(is_step(
            has_issue_source,
            stages[k + 1],
            events[k + 1],
            stages[k + 2],
            actions[k + 2],
        ));
    }
}

/// A failure that was stored closes the Plan Run as failed, and then the run ends with
/// it: with status 500 and the stored error as its detail. The problem type names the
/// cause.
pub proof fn law_stored_failure_ends_the_run(
    has_issue_source: bool,
    stages: Seq<PlanningStage>,
    events: Seq<PlanningEvent>,
    actions: Seq<PlanningAction>,
    k: int,
    error: Seq<char>,
)
    requires
        is_run(has_issue_source, stages, events, actions),
        1 < k,
        k + 1 < events.len(),
        stores_failure(actions[k], error),
        events[k] is Noted,
        events[k + 1] is Noted,
    ensures
        actions[k + 1] == (PlanningAction::CloseFailed { terminal: PlanRunTerminal::Failed }),
        actions[k + 2] matches PlanningAction::Finish { result: Err(reported) } && reported.status
            == 500 && reported.detail@ == error && match (actions[k - 1], events[k - 1]) {
            (_, PlanningEvent::Ran(Err(_))) => reported.problem_type@
                == "urn:agentic-afk:planning-phase-failed"@,
            (_, PlanningEvent::Ran(Ok(_))) => reported.problem_type@
                == "urn:agentic-afk:planning-output-unparseable"@,
            (_, PlanningEvent::Snapshot(_)) => reported.problem_type@
                == "urn:agentic-afk:planning-snapshot-missing"@,
            (_, PlanningEvent::Config(Ok(None))) => reported.problem_type@
                == "urn:agentic-afk:execution-config-missing"@,
            (PlanningAction::ReleaseAssignment { .. }, _) => match events[k - 2] {
                PlanningEvent::Provisioned(_) => reported.problem_type@
                    == "urn:agentic-afk:assignment-worktree-failed"@,
                _ => reported.problem_type@ == "urn:agentic-afk:issue-source-lifecycle-failed"@,
            },
            _ => true,
        },
{
    lemma_shows(has_issue_source, stages, events, actions, k - 2);
    lemma_shows(has_issue_source, stages, events, actions, k - 1);
    lemma_shows(has_issue_source, stages, events, actions, k);
    lemma_shows(has_issue_source, stages, events, actions, k + 1);
    lemma_shows(has_issue_source, stages, events, actions, k + 2);
    assert(is_step(has_issue_source, stages[k - 2], events[k - 2], stages[k - 1], actions[k - 1]));
    assert(is_step(has_issue_source, stages[k - 1], events[k - 1], stages[k], actions[k]));
    assert(is_step(has_issue_source, stages[k], events[k], stages[k + 1], actions[k + 1]));
    assert(is_step(
        has_issue_source,
        stages[k + 1],
        events[k + 1],
        stages[k + 2],
        actions[k + 2],
    ));
    if stages[k - 1] is LoadingConfig && (events[k - 1] matches PlanningEvent::Config(Ok(Some(_)))) {
        let decision = lemma_validation(has_issue_source, stages, events, actions, k - 1);
    }
    if stages[k - 2] is LoadingConfig && (events[k - 2] matches PlanningEvent::Config(Ok(Some(_)))) {
        let decision = lemma_validation(has_issue_source, stages, events, actions, k - 2);
    }
    if let PlanningStage::RecordingFailure { error: kept } = stages[k] {
        let record = actions[k]->RecordFailure_record;
        let held = record.body.value@->Object_0;
        assert(held[0] == ("error"@, JsonModel::Text(kept.detail@)));
        assert(held[0] == ("error"@, JsonModel::Text(error)));
    }
}

/// A database that fails on a write ends the run at once, with what the failure is
/// reported as.
pub proof fn law_database_failure_ends_the_run(
    has_issue_source: bool,
    stages: Seq<PlanningStage>,
    events: Seq<PlanningEvent>,
    actions: Seq<PlanningAction>,
    k: int,
    error: PersistenceError,
)
    requires
        is_run(has_issue_source, stages, events, actions),
        0 <= k < events.len(),
        events[k] == (PlanningEvent::Stored(Err(error))),
    ensures
        actions[k + 1] matches PlanningAction::Finish { result: Err(reported) } && reported.status
            == error.kind.status() && reported.problem_type@ == error.kind.problem_type()
            && reported.detail@ == error.message@,
{
    assert(is_step(has_issue_source, stages[k], events[k], stages[k + 1], actions[k + 1]));
}

} // verus!
