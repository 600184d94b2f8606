//! What the pages of the dashboard show, and what they ask for.

use vstd::prelude::*;

#[allow(unused_imports)]
use crate::auto_replan::{classify_plan_run_for_auto_replan, CycleOutcome};
#[allow(unused_imports)]
use crate::contracts::{
    AutoReplanState, GitSummary, IssueAssignmentResponse, IssueSource, IssueSourceCandidate,
    PauseReason, PhaseOutputResponse, PlanRunResponse, PlanRunStage, ProjectEvent,
    ProjectExecutionConfigResponse, ProjectId, ProjectResponse, ReEnableSourceIssueResponse,
    SetProjectExecutionConfigRequest, SourceIssueSnapshot,
};
#[allow(unused_imports)]
use crate::dashboard::{
    accept_response, assignment_row, auto_replan_control, auto_replan_pause_copy,
    can_start_plan_run, candidate_name, derive_auto_replan_pill, derive_git_pill,
    derive_plan_run_history_pill, derive_plan_run_stage_pill, derive_sync_pill, derive_trust_pill,
    event_sequence, find_project, git_rows, has_enabled_source, header_outputs, is_success,
    issue_source_label, needs_subscription, outdates_snapshot, paused_banner, planning_issue_texts,
    prd_footer, project_page, re_enable_note, retry_push_note, seed_sandbox, short_project_id,
    shown_history, syncs_after, text_or_else, ApiCall, AssignmentRowView, AutoReplanAction,
    ExecutionConfigForm, HttpMethod, PlanRunOutcome, ProjectPage,
};
#[allow(unused_imports)]
use crate::numerals::{decimal, decimal_int, is_digit, lemma_decimal_is_numeral, read_i64, read_u64};
#[allow(unused_imports)]
use crate::project_store::{
    ApplyOutcome, MutationFailure, MutationKey, MutationState, ProjectStore, ToastKind,
};
#[allow(unused_imports)]
use crate::text::views;
#[allow(unused_imports)]
use crate::text_order::precedes;
#[allow(unused_imports)]
use crate::text_parts::join;
#[allow(unused_imports)]
use crate::ui::{
    button_view, derive_button_render_state, skeleton_style, toast_marks, value_class,
    ButtonRenderState, ButtonVariant, ButtonView, EmptyStateAccent, PillTone,
};

verus! {

// --- Pills ---

/// A Plan Run under way is named by its stage. Only while it plans it counts as pending.
pub proof fn law_stage_pill(stage: Option<PlanRunStage>, pill: (PillTone, &'static str))
    requires
        call_ensures(derive_plan_run_stage_pill, (stage,), pill),
    ensures
        pill.0 is Pending <==> stage == Some(PlanRunStage::Planning),
        pill.0 is Running <==> stage != Some(PlanRunStage::Planning),
        stage == Some(PlanRunStage::Planning) ==> pill.1@ == "Planning"@,
        stage == Some(PlanRunStage::Implementing) ==> pill.1@ == "Implementing"@,
        stage == Some(PlanRunStage::Reviewing) ==> pill.1@ == "Reviewing"@,
        stage == Some(PlanRunStage::Merging) ==> pill.1@ == "Merging"@,
        stage == Some(PlanRunStage::Pushing) ==> pill.1@ == "Pushing"@,
        stage is None ==> pill.1@ == "Running"@,
{
}

/// What a Plan Run has come to is what it means for replanning: work was merged if and only if
/// replanning goes on, and otherwise the reason of the pause is the outcome. While it runs it
/// has come to nothing.
pub proof fn law_outcome_of_a_plan_run(
    plan_run: PlanRunResponse,
    cycle: CycleOutcome,
    outcome: Option<PlanRunOutcome>,
)
    requires
        call_ensures(classify_plan_run_for_auto_replan, (&plan_run,), cycle),
        call_ensures(PlanRunResponse::classify_outcome, (&plan_run,), outcome),
    ensures
        plan_run.state@ == "running"@ ==> outcome is None,
        plan_run.state@ != "running"@ ==> {
            &&& outcome == Some(PlanRunOutcome::MergedWork) <==> cycle is Continue
            &&& outcome == Some(PlanRunOutcome::EmptyBacklog) <==> cycle == CycleOutcome::Pause(
                PauseReason::EmptyBacklog,
            )
            &&& outcome == Some(PlanRunOutcome::PlanningFailed) <==> cycle == CycleOutcome::Pause(
                PauseReason::PlanningFailed,
            )
            &&& outcome == Some(PlanRunOutcome::AssignmentBlocked) <==> cycle
                == CycleOutcome::Pause(PauseReason::AssignmentBlocked)
            &&& outcome == Some(PlanRunOutcome::PushNonFastForward) <==> cycle
                == CycleOutcome::Pause(PauseReason::PushNonFastForward)
            &&& outcome == Some(PlanRunOutcome::MergeStagedLeft) <==> cycle == CycleOutcome::Pause(
                PauseReason::MergeStagedLeft,
            )
        },
{
}

/// In the history a Plan Run that runs is pending. A finished one shows as failed unless it
/// merged its work or found nothing to plan, which is said.
pub proof fn law_history_pill(
    plan_run: PlanRunResponse,
    outcome: Option<PlanRunOutcome>,
    pill: (PillTone, &'static str),
)
    requires
        call_ensures(PlanRunResponse::classify_outcome, (&plan_run,), outcome),
        call_ensures(derive_plan_run_history_pill, (&plan_run,), pill),
    ensures
        plan_run.state@ == "running"@ ==> pill.0 is Pending && pill.1@ == "Running"@,
        plan_run.state@ != "running"@ ==> {
            &&& pill.0 is Verified <==> (outcome is None || outcome == Some(
                PlanRunOutcome::MergedWork,
            ) || outcome == Some(PlanRunOutcome::EmptyBacklog))
            &&& pill.0 is Failed <==> !(pill.0 is Verified)
            &&& outcome == Some(PlanRunOutcome::EmptyBacklog) ==> pill.1@ == "Succeeded (empty)"@
            &&& outcome != Some(PlanRunOutcome::EmptyBacklog) ==> pill.1@ == "Finished"@
        },
{
}

/// The pills of trust, of replanning and of a sync. A sync under way counts for more than one
/// that failed, and that for more than one that succeeded before.
pub proof fn law_state_pills(
    trusted: bool,
    trust: (PillTone, &'static str),
    state: AutoReplanState,
    replan: (PillTone, &'static str),
    in_progress: bool,
    failed: bool,
    synced: bool,
    sync: (PillTone, &'static str),
)
    requires
        call_ensures(derive_trust_pill, (trusted,), trust),
        call_ensures(derive_auto_replan_pill, (state,), replan),
        call_ensures(derive_sync_pill, (in_progress, failed, synced), sync),
    ensures
        trusted ==> trust.0 is Verified && trust.1@ == "Trusted"@,
        !trusted ==> trust.0 is Stale && trust.1@ == "Untrusted"@,
        state is Off ==> replan.0 is Idle && replan.1@ == "Off"@,
        state is Armed ==> replan.0 is Verified && replan.1@ == "Armed"@,
        state is Paused ==> replan.0 is Failed && replan.1@ == "Paused"@,
        sync.0 is Running <==> in_progress,
        sync.0 is Failed <==> !in_progress && failed,
        sync.0 is Verified <==> !in_progress && !failed && synced,
        sync.0 is Idle <==> !in_progress && !failed && !synced,
        sync.0 is Running ==> sync.1@ == "Syncing"@,
        sync.0 is Failed ==> sync.1@ == "Failed"@,
        sync.0 is Verified ==> sync.1@ == "Synced"@,
        sync.0 is Idle ==> sync.1@ == "Never synced"@,
{
}

/// A repository shows its branch, and as stale if and only if something has changed.
pub proof fn law_git_pill(
    summary: GitSummary,
    pill: (PillTone, String),
    none: (PillTone, String),
    rows: (String, String, &'static str),
)
    requires
        call_ensures(derive_git_pill, (Some(&summary),), pill),
        call_ensures(derive_git_pill, (None,), none),
        call_ensures(git_rows, (&summary,), rows),
    ensures
        none.0 is Idle && none.1@ == "No Git"@,
        pill.0 is Stale <==> summary.dirty,
        pill.0 is Verified <==> !summary.dirty,
        summary.branch matches Some(branch) ==> pill.1@ == branch@ && rows.0@ == branch@,
        summary.branch is None ==> pill.1@ == rows.2@ && rows.0@ == "detached"@,
        summary.dirty ==> rows.2@ == "dirty"@,
        !summary.dirty ==> rows.2@ == "clean"@,
        summary.head is None ==> rows.1@ == "unknown"@,
        summary.head matches Some(head) ==> is_head(head@, rows.1@, 12),
{
    if let Some(head) = summary.head {
        assert(head@.take(head@.len() as int) =~= head@);
    }
}

/// The text is the first characters of the whole, as many as there are up to the count.
pub open spec fn is_head(whole: Seq<char>, text: Seq<char>, count: int) -> bool {
    &&& text.len() <= whole.len()
    &&& text == whole.take(text.len() as int)
    &&& whole.len() <= count ==> text.len() == whole.len()
    &&& whole.len() > count ==> text.len() == count
}

/// An identifier is shown by its first eight characters.
pub proof fn law_short_identifier(id: &str, short: String)
    requires
        call_ensures(short_project_id, (id,), short),
    ensures
        is_head(id@, short@, 8),
{
    assert(id@.take(id@.len() as int) =~= id@);
}

// --- Texts ---

/// What is said of an Issue Source, of the button that enables one, and of an issue.
pub proof fn law_texts_of_issues(
    source: Option<IssueSource>,
    label: String,
    candidate: IssueSourceCandidate,
    name: String,
    issue: SourceIssueSnapshot,
    texts: (String, String, String),
)
    requires
        call_ensures(issue_source_label, (&source,), label),
        call_ensures(candidate_name, (&candidate,), name),
        call_ensures(planning_issue_texts, (&issue,), texts),
    ensures
        source is None ==> label@ == "Not enabled"@,
        source matches Some(source) ==> label@ == source.kind@ + " "@ + source.locator@,
        name@ == "enable-issue-source-"@ + candidate.kind@ + "-"@ + candidate.locator@,
        issue.issue_dependencies@.len() == 0 ==> texts.0@ == "No dependencies"@,
        issue.issue_dependencies@.len() == 1 ==> texts.0@ == issue.issue_dependencies@[0]@,
        issue.issue_dependencies@.len() == 2 ==> texts.0@ == issue.issue_dependencies@[0]@ + ", "@
            + issue.issue_dependencies@[1]@,
        issue.parent_issue is None ==> texts.1@ == "Parent "@ + "No parent"@,
        issue.parent_issue matches Some(parent) ==> texts.1@ == "Parent "@ + parent@,
        texts.2@ == "#"@ + decimal_int(issue.source_order as int),
{
    let ids = views(issue.issue_dependencies@);
    if ids.len() == 2 {
        assert(ids.drop_last() =~= seq![ids[0]]);
        assert(join(ids.drop_last(), ", "@) == ids[0]);
    }
}

/// Hidden issues are counted, and can be shown or hidden; where there are none nothing is said.
pub proof fn law_hidden_issues(count: usize, shown: Option<String>, hidden: Option<String>)
    requires
        call_ensures(prd_footer, (count, true), shown),
        call_ensures(prd_footer, (count, false), hidden),
    ensures
        shown is Some <==> count > 0,
        hidden is Some <==> count > 0,
        count > 0 ==> shown->0@ == decimal(count as nat) + " PRDs hidden · "@ + "Hide"@,
        count > 0 ==> hidden->0@ == decimal(count as nat) + " PRDs hidden · "@ + "Show"@,
{
}

/// An Issue Source is enabled where the Project says so or a candidate does.
pub proof fn law_enabled_source(
    project_has_source: bool,
    candidates: &Vec<IssueSourceCandidate>,
    yes: bool,
)
    requires
        call_ensures(has_enabled_source, (project_has_source, candidates), yes),
    ensures
        project_has_source ==> yes,
        !project_has_source ==> (yes <==> exists|i: int|
            0 <= i < candidates@.len() && (#[trigger] candidates@[i]).enabled),
{
}

/// A Project is found if and only if one has the identifier, and then it has it; otherwise the
/// identifier is named.
pub proof fn law_project_is_found(
    projects: &Vec<ProjectResponse>,
    id: &str,
    at: Result<usize, String>,
)
    requires
        call_ensures(find_project, (projects, id), at),
    ensures
        at is Ok <==> exists|i: int|
            0 <= i < projects@.len() && (#[trigger] projects@[i]).id.0@ == id@,
        at matches Ok(found) ==> found < projects@.len() && projects@[found as int].id.0@ == id@,
        at matches Err(text) ==> text@ == "Project "@ + id@ + " not found"@,
{
    if let Ok(found) = at {
        assert(projects@[found as int].id.0@ == id@);
    }
}

// --- Replanning ---

/// There is a banner if and only if replanning is paused. It tells why, and a pause without a
/// reason reads as a failed planning.
pub proof fn law_banner_of_a_pause(
    state: AutoReplanState,
    reason: PauseReason,
    text: &'static str,
    banner: Option<&'static str>,
    unexplained: Option<&'static str>,
    planning_failed: &'static str,
)
    requires
        call_ensures(auto_replan_pause_copy, (reason,), text),
        call_ensures(auto_replan_pause_copy, (PauseReason::PlanningFailed,), planning_failed),
        call_ensures(paused_banner, (state, Some(reason)), banner),
        call_ensures(paused_banner, (state, None), unexplained),
    ensures
        banner is Some <==> state is Paused,
        unexplained is Some <==> state is Paused,
        banner matches Some(shown) ==> shown@ == text@,
        unexplained matches Some(shown) ==> shown@ == planning_failed@,
        reason is EmptyBacklog ==> text@ == "Backlog drained. No Ready Issues left to plan."@,
        reason is AssignmentBlocked ==> text@
            == "Plan Run finished with blocked Issue Assignment(s). Resolve via Re-Enable."@,
        reason is PushNonFastForward ==> text@
            == "Integration Branch push diverged. Retry Push or Abandon Staged on the affected Issue Assignment."@,
        reason is MergeStagedLeft ==> text@
            == "Plan Run finished with merge_staged work. Decide Retry Push or Abandon Staged."@,
        reason is PlanningFailed ==> text@
            == "Planning Phase failed. See latest Plan Run for diagnostics."@,
        reason is SyncFailed ==> text@ == "Issue Source sync failed. Check GitHub auth or network."@,
{
}

/// What is off can be armed, what is armed can be disarmed, and what is paused can be resumed;
/// only disarming is marked as something that breaks off. The request is about this Project.
pub proof fn law_control_of_replanning(
    project_id: &ProjectId,
    state: AutoReplanState,
    action: AutoReplanAction,
)
    requires
        call_ensures(auto_replan_control, (project_id, state), action),
    ensures
        state is Off ==> action.key == MutationKey::ArmAutoReplan(*project_id)
            && action.endpoint@ == "arm"@ && action.label@ == "Arm"@,
        state is Armed ==> action.key == MutationKey::DisarmAutoReplan(*project_id)
            && action.endpoint@ == "disarm"@ && action.label@ == "Disarm"@,
        state is Paused ==> action.key == MutationKey::ResumeAutoReplan(*project_id)
            && action.endpoint@ == "resume"@ && action.label@ == "Resume"@,
        action.variant is Destructive <==> state is Armed,
        action.variant is Primary <==> !(state is Armed),
{
}

// --- The execution config ---

proof fn lemma_read_decimal_int(n: i64)
    ensures
        read_i64(decimal_int(n as int)) == Some(n),
{
    let text = decimal_int(n as int);
    if n < 0 {
        let digits = decimal((-n) as nat);
        lemma_decimal_is_numeral((-n) as nat);
        assert(text.skip(1) =~= digits);
    } else {
        lemma_decimal_is_numeral(n as nat);
        assert(is_digit(text[0]));
    }
}

/// A config that is shown and saved as it is stays what it was.
pub proof fn law_config_survives_the_form(
    config: ProjectExecutionConfigResponse,
    detected: Option<String>,
    form: ExecutionConfigForm,
    request: SetProjectExecutionConfigRequest,
)
    requires
        call_ensures(ExecutionConfigForm::initial, (Some(&config), &detected), form),
        call_ensures(ExecutionConfigForm::request, (&form,), request),
    ensures
        request.integration_branch@ == config.integration_branch@,
        request.max_parallel_tasks == config.max_parallel_tasks,
        request.review_retry_limit == config.review_retry_limit,
{
    lemma_read_decimal_int(config.max_parallel_tasks);
    lemma_read_decimal_int(config.review_retry_limit);
}

/// Without a config the form offers the branch that was detected, or `main`, one task and three
/// retries. What is no number is saved as zero.
pub proof fn law_form_without_a_config(
    detected: Option<String>,
    form: ExecutionConfigForm,
    filled: ExecutionConfigForm,
    request: SetProjectExecutionConfigRequest,
)
    requires
        call_ensures(ExecutionConfigForm::initial, (None, &detected), form),
        call_ensures(ExecutionConfigForm::request, (&filled,), request),
    ensures
        detected matches Some(branch) ==> form.integration_branch@ == branch@,
        detected is None ==> form.integration_branch@ == "main"@,
        form.max_parallel_tasks@ == "1"@,
        form.review_retry_limit@ == "3"@,
        request.integration_branch@ == filled.integration_branch@,
        read_i64(filled.max_parallel_tasks@) is None ==> request.max_parallel_tasks == 0,
        read_i64(filled.review_retry_limit@) is None ==> request.review_retry_limit == 0,
        read_i64(filled.max_parallel_tasks@) matches Some(number) ==> request.max_parallel_tasks
            == number,
        read_i64(filled.review_retry_limit@) matches Some(number) ==> request.review_retry_limit
            == number,
{
}

// --- Plan Runs ---

/// A Plan Run can be started only in a trusted Project with a config, and never beside another
/// one. At most five finished ones are shown, and all where there are fewer.
pub proof fn law_plan_runs_on_the_page(
    trusted: bool,
    has_config: bool,
    has_active: bool,
    yes: bool,
    count: usize,
    shown: usize,
)
    requires
        call_ensures(can_start_plan_run, (trusted, has_config, has_active), yes),
        call_ensures(shown_history, (count,), shown),
    ensures
        yes ==> trusted && has_config && !has_active,
        trusted && has_config && !has_active ==> yes,
        shown <= count && shown <= 5,
        shown == count || shown == 5,
{
}

/// The outputs of a Plan Run itself are shown by their times, the earlier first, and those of
/// one time in the order in which they stand; those of an assignment are not among them, and
/// none of the others is left out.
pub proof fn law_outputs_by_time(
    outputs: &Vec<PhaseOutputResponse>,
    order: Vec<usize>,
    a: int,
    b: int,
)
    requires
        call_ensures(header_outputs, (outputs,), order),
    ensures
        0 <= a < b < order@.len() ==> {
            let first = outputs@[order@[a] as int].recorded_at@;
            let second = outputs@[order@[b] as int].recorded_at@;
            precedes(first, second) || (first == second && order@[a] < order@[b])
        },
        0 <= a < order@.len() ==> order@[a] < outputs@.len() && outputs@[order@[
            a
        ] as int].assignment_id is None,
        0 <= b < outputs@.len() && outputs@[b].assignment_id is None ==> order@.contains(
            b as usize,
        ),
{
    if 0 <= a < b < order@.len() {
        assert(crate::dashboard::shown_before(outputs@, order@[a] as int, order@[b] as int));
    }
}

/// The row of an assignment says which issue it is about and why it was selected, how often its
/// review rejected it, and why it is blocked. A blocked one can be made ready again; the push
/// of a staged one can be decided.
pub proof fn law_row_of_an_assignment(assignment: IssueAssignmentResponse, row: AssignmentRowView)
    requires
        call_ensures(assignment_row, (&assignment,), row),
    ensures
        row.title@ == assignment.source_id@ + ": "@ + assignment.source_title@,
        assignment.selection_summary matches Some(summary) ==> row.summary@ == summary@,
        assignment.selection_summary is None ==> row.summary@ == "(no selection summary)"@,
        row.rejections is Some <==> assignment.review_rejection_count > 0,
        row.rejections matches Some(text) ==> text@ == "Review rejections: "@ + decimal_int(
            assignment.review_rejection_count as int,
        ),
        row.blocked is Some <==> assignment.block_reason is Some,
        row.blocked matches Some(blocked) ==> blocked.0@ == "Blocked: "@
            + assignment.block_reason->0.kind.wire() && blocked.1
            == assignment.block_reason->0.detail,
        row.offers_re_enable <==> assignment.status@ == "blocked"@,
        row.offers_push <==> assignment.status@ == "merge_staged"@,
        row.status_name is Some <==> assignment.status@ == "merge_staged"@,
        row.status_name matches Some(name) ==> name@ == "assignment-status-merge-staged"@,
        assignment.status@ == "merged"@ || assignment.status@ == "reviewed"@ ==> row.tone
            is Verified,
        assignment.status@ == "rejected"@ || assignment.status@ == "blocked"@ ==> row.tone is Failed,
        assignment.status@ == "implemented"@ || assignment.status@ == "claimed"@
            || assignment.status@ == "implementing"@ || assignment.status@ == "merging"@
            ==> row.tone is Running,
        assignment.status@ == "merge_staged"@ ==> row.tone is Pending,
{
    lemma_status_words();
}

proof fn lemma_status_words()
    ensures
        "merged"@.len() == 6,
        "reviewed"@.len() == 8,
        "reviewed"@[2] == 'v',
        "implemented"@.len() == 11,
        "claimed"@.len() == 7,
        "claimed"@[0] == 'c',
        "implementing"@.len() == 12,
        "implementing"@[0] == 'i',
        "merging"@.len() == 7,
        "merging"@[0] == 'm',
        "rejected"@.len() == 8,
        "rejected"@[2] == 'j',
        "blocked"@.len() == 7,
        "blocked"@[0] == 'b',
        "merge_staged"@.len() == 12,
        "merge_staged"@[0] == 'm',
{
    reveal_strlit("merged");
    reveal_strlit("reviewed");
    reveal_strlit("implemented");
    reveal_strlit("claimed");
    reveal_strlit("implementing");
    reveal_strlit("merging");
    reveal_strlit("rejected");
    reveal_strlit("blocked");
    reveal_strlit("merge_staged");
}

/// After a push was tried again the operator reads what became of it, and after an issue was
/// made ready again, whether its source was told.
pub proof fn law_notes_of_decisions(
    status: &str,
    note: (&'static str, &'static str),
    outcome: ReEnableSourceIssueResponse,
    ready: (&'static str, String),
)
    requires
        call_ensures(retry_push_note, (status,), note),
        call_ensures(re_enable_note, (&outcome,), ready),
    ensures
        note.0@ == "Retry Push succeeded"@ <==> status@ == "merged"@,
        status@ == "merged"@ ==> note.1@
            == "Assignment merged; Plan Run history preserves the original failure"@,
        status@ == "blocked"@ ==> note.0@ == "Retry Push rejected as non-fast-forward"@ && note.1@
            == "Integration Branch has diverged; recovery belongs in a new Plan Run"@,
        status@ != "merged"@ && status@ != "blocked"@ ==> note.0@ == "Retry Push failed"@ && note.1@
            == "Assignment remains staged; you may retry or abandon"@,
        outcome.writeback.ok ==> ready.0@ == "Source Issue re-enabled"@ && ready.1@
            == "A later Plan Run may pick this Source Issue again"@,
        !outcome.writeback.ok ==> ready.0@ == "Source Issue re-enabled (upstream write-back failed)"@,
        !outcome.writeback.ok ==> (outcome.writeback.error matches Some(error) ==> ready.1@ == error@),
        !outcome.writeback.ok && outcome.writeback.error is None ==> ready.1@
            == "Issue Source write-back failed"@,
{
    lemma_status_words();
    reveal_strlit("Retry Push succeeded");
    reveal_strlit("Retry Push rejected as non-fast-forward");
    reveal_strlit("Retry Push failed");
    assert("Retry Push succeeded"@.len() == 20);
    assert("Retry Push rejected as non-fast-forward"@.len() == 39);
    assert("Retry Push failed"@.len() == 17);
}

// --- The server ---

/// Reading gets, setting puts, unmarking deletes, and everything else posts.
pub proof fn law_request_methods(call: ApiCall, method: HttpMethod)
    requires
        call_ensures(ApiCall::method, (&call,), method),
    ensures
        method is Get <==> (call is AppInfo || call is Projects || call is Snapshot || call
            is Events),
        method is Put <==> (call is EnableIssueSource || call is TrustProject || call
            is SetExecutionConfig),
        method is Delete <==> call is UnmarkPrd,
        method is Post <==> (call is AutoReplan || call is MarkPrd || call is ReEnableSourceIssue
            || call is RetryPush || call is AbandonStaged || call is StartPlanRun || call
            is SyncIssueSource),
{
}

/// Where the requests go: what is asked of a Project is below its path, what is asked of an
/// issue or an assignment below that of the issue or the assignment.
pub proof fn law_request_paths(call: ApiCall, path: String)
    requires
        call_ensures(ApiCall::path, (&call,), path),
    ensures
        match call {
            ApiCall::AppInfo => path@ == "/api/app-info"@,
            ApiCall::Projects => path@ == "/api/projects"@,
            ApiCall::Snapshot { project } => path@ == "/api/projects/"@ + project@ + "/snapshot"@,
            ApiCall::EnableIssueSource { project } => path@ == "/api/projects/"@ + project@
                + "/issue-source"@,
            ApiCall::TrustProject { project } => path@ == "/api/projects/"@ + project@ + "/trust"@,
            ApiCall::AutoReplan { project, endpoint } => path@ == "/api/projects/"@ + project@ + (
            "/auto-replan/"@ + endpoint@),
            ApiCall::SetExecutionConfig { project } => path@ == "/api/projects/"@ + project@
                + "/execution-config"@,
            ApiCall::MarkPrd { project, source } => path@ == "/api/projects/"@ + project@ + (
            "/source-issues/"@ + source@ + "/prd"@),
            ApiCall::UnmarkPrd { project, source } => path@ == "/api/projects/"@ + project@ + (
            "/source-issues/"@ + source@ + "/prd"@),
            ApiCall::ReEnableSourceIssue { project, source } => path@ == "/api/projects/"@
                + project@ + ("/source-issues/"@ + source@ + "/re-enable"@),
            ApiCall::RetryPush { project, assignment } => path@ == "/api/projects/"@ + project@ + (
            "/assignments/"@ + assignment@ + "/retry-push"@),
            ApiCall::AbandonStaged { project, assignment } => path@ == "/api/projects/"@ + project@
                + ("/assignments/"@ + assignment@ + "/abandon-staged"@),
            ApiCall::StartPlanRun { project } => path@ == "/api/projects/"@ + project@
                + "/plan-runs"@,
            ApiCall::SyncIssueSource { project } => path@ == "/api/projects/"@ + project@
                + "/issue-source/sync"@,
            ApiCall::Events { project, last_event_id } => path@ == "/api/projects/"@ + project@ + (
            "/events?last_event_id="@ + decimal(last_event_id as nat)),
        },
{
}

/// A response is a success if and only if its status is one of the 200s; any other one is a
/// failure with its status and its body.
pub proof fn law_response_is_accepted(
    status: u16,
    body: String,
    success: bool,
    accepted: Result<String, MutationFailure>,
)
    requires
        call_ensures(is_success, (status,), success),
        call_ensures(accept_response, (status, body), accepted),
    ensures
        success <==> 200 <= status <= 299,
        accepted is Ok <==> success,
        accepted matches Ok(text) ==> text == body,
        accepted matches Err(failure) ==> failure.status == Some(status) && failure.body == body,
{
}

/// The number of an event is the one that it carries, and zero where it carries none.
pub proof fn law_event_number(last_event_id: &str, n: u64, sequence: u64)
    requires
        call_ensures(event_sequence, (last_event_id,), sequence),
    ensures
        last_event_id@ == decimal(n as nat) ==> sequence == n,
        read_u64(last_event_id@) is None ==> sequence == 0,
{
    crate::numerals::law_read_decimal(n);
}

/// Events are subscribed to anew for another Project, and where the state is to be fetched
/// again; else the subscription stays.
pub proof fn law_subscription(
    shown: Option<String>,
    project: &str,
    needs_rehydrate: bool,
    yes: bool,
)
    requires
        call_ensures(needs_subscription, (&shown, project, needs_rehydrate), yes),
    ensures
        needs_rehydrate ==> yes,
        shown is None ==> yes,
        !needs_rehydrate && shown is Some ==> (yes <==> shown->0@ != project@),
{
}

/// A snapshot is out of date after each event that was merged, but for activity and the start
/// of a sync. A sync goes on from the event that starts it to the one that ends it, however it
/// ends.
pub proof fn law_events_on_the_page(
    event: ProjectEvent,
    outcome: ApplyOutcome,
    outdated: bool,
    syncing: bool,
    syncs: bool,
)
    requires
        call_ensures(outdates_snapshot, (&event, outcome), outdated),
        call_ensures(syncs_after, (&event, syncing), syncs),
    ensures
        !(outcome is Merged) ==> !outdated,
        event is Activity || event is IssueSourceSyncStarted || event is Resync ==> !outdated,
        outcome is Merged && !(event is Activity) && !(event is IssueSourceSyncStarted) && !(event
            is Resync) ==> outdated,
        event is IssueSourceSyncStarted ==> syncs,
        event is IssueSourceSyncCompleted || event is IssueSourceSyncFailed ==> !syncs,
        !(event is IssueSourceSyncStarted) && !(event is IssueSourceSyncCompleted) && !(event
            is IssueSourceSyncFailed) ==> syncs == syncing,
{
}

/// A page that failed is unavailable; one that was loaded before is shown.
pub proof fn law_page_of_a_project(failed: bool, loaded_before: bool, page: ProjectPage)
    requires
        call_ensures(project_page, (failed, loaded_before), page),
    ensures
        page is Unavailable <==> failed,
        page is Shown <==> !failed && loaded_before,
        page is Loading <==> !failed && !loaded_before,
{
}

// --- The primitives ---

/// A button shows of its mutation whether it is under way and why it failed, and nothing else.
/// It can be pressed unless its mutation is under way, or it is disabled and shows no error.
pub proof fn law_button(
    state: Option<MutationState>,
    render: ButtonRenderState,
    variant: ButtonVariant,
    disabled: bool,
    view: ButtonView,
)
    requires
        call_ensures(derive_button_render_state, (state,), render),
        call_ensures(button_view, (render, variant, disabled), view),
    ensures
        view.pending <==> state == Some(MutationState::Pending),
        view.error is Some <==> (state matches Some(MutationState::Error { .. })),
        state matches Some(MutationState::Error { category, title, detail }) ==> view.error == Some(
            (title, detail),
        ),
        view.pressable <==> !view.pending && (!disabled || view.error is Some),
        view.pending ==> view.class@ == crate::ui::PENDING_BTN@,
        !view.pressable && !view.pending ==> view.class@ == crate::ui::DISABLED_BTN@,
        view.pressable && variant is Destructive ==> view.class@ == crate::ui::BASE_BTN@ + " "@
            + crate::ui::DESTRUCTIVE_VARIANT@,
        view.pressable && variant is Primary ==> view.class@ == crate::ui::BASE_BTN@ + " "@
            + crate::ui::PRIMARY_VARIANT@,
        view.pressable && variant is Default ==> view.class@ == crate::ui::BASE_BTN@ + " "@
            + crate::ui::DEFAULT_VARIANT@,
{
}

/// The colours of the tones, that only what runs pulses, and that only what is idle casts no
/// light.
pub proof fn law_tones(
    tone: PillTone,
    color: &'static str,
    extras: &'static str,
    shadow: &'static str,
)
    requires
        call_ensures(PillTone::color_class, (tone,), color),
        call_ensures(PillTone::dot_extras, (tone,), extras),
        call_ensures(PillTone::dot_shadow, (tone,), shadow),
    ensures
        tone is Idle ==> color@ == "text-ink-dim"@,
        tone is Pending || tone is Stale ==> color@ == "text-amber"@,
        tone is Running ==> color@ == "text-cyan"@,
        tone is Verified ==> color@ == "text-mint"@,
        tone is Failed ==> color@ == "text-coral"@,
        tone is Running ==> extras@ == "hud-pulse-dot"@,
        !(tone is Running) ==> extras@.len() == 0,
        tone is Idle ==> shadow@ == "shadow-none"@,
        !(tone is Idle) ==> shadow@ == "shadow-[0_0_8px_currentColor]"@,
{
    reveal_strlit("");
}

/// The marks of the other primitives.
pub proof fn law_marks(
    accent: EmptyStateAccent,
    glyph: &'static str,
    kind: ToastKind,
    marks: (&'static str, &'static str),
    mono: bool,
    class: &'static str,
    percent: u16,
    style: String,
)
    requires
        call_ensures(EmptyStateAccent::glyph_class, (accent,), glyph),
        call_ensures(toast_marks, (kind,), marks),
        call_ensures(value_class, (mono,), class),
        call_ensures(skeleton_style, (percent,), style),
    ensures
        accent is Cyan ==> glyph@
            == "border-cyan shadow-[0_0_24px_rgba(91,233,255,0.35),inset_0_0_16px_rgba(91,233,255,0.18)]"@,
        accent is Magenta ==> glyph@
            == "border-magenta shadow-[0_0_24px_rgba(199,146,255,0.35),inset_0_0_16px_rgba(199,146,255,0.18)]"@,
        kind is Success ==> marks.0@ == "text-mint"@ && marks.1@ == "success"@,
        kind is Error ==> marks.0@ == "text-coral"@ && marks.1@ == "error"@,
        mono ==> class@ == "min-w-0 break-words font-mono text-[13px] text-ink"@,
        !mono ==> class@ == "min-w-0 break-words font-body text-[13px] text-ink"@,
        style@ == "width: "@ + decimal(percent as nat) + "%;"@,
{
}

/// The page of the primitives shows one request under way and one that was refused, and nothing
/// else of the store is touched.
pub proof fn law_page_of_the_primitives(
    store: &mut ProjectStore,
    text: Option<String>,
    fallback: &str,
    shown: String,
    sync: MutationKey,
    run: MutationKey,
)
    requires
        old(store).well_formed(),
        call_ensures(seed_sandbox, (store,), ()),
        call_ensures(text_or_else, (&text, fallback), shown),
        sync matches MutationKey::SyncIssueSource(id) && id.0@ == "demo"@,
        run matches MutationKey::StartPlanRun(id) && id.0@ == "demo"@,
    ensures
        final(store).mutations@.dom().contains(sync@),
        final(store).mutations@[sync@] is Pending,
        final(store).mutations@.dom().contains(run@),
        final(store).mutations@[run@] matches MutationState::Error { category, title, detail }
            && category is Validation && title@ == "project trust required"@,
        final(store).toasts == old(store).toasts,
        final(store).reload_counter == old(store).reload_counter,
        final(store).state == old(store).state,
        text matches Some(said) ==> shown@ == said@,
        text is None ==> shown@ == fallback@,
{
    let (a, b, error) = choose|a: MutationKey, b: MutationKey, error: MutationState|
        final(store).mutations@ == #[trigger] old(store).mutations@.insert(
            a@,
            MutationState::Pending,
        ).insert(b@, error) && (a matches MutationKey::SyncIssueSource(id) && id.0@ == "demo"@) && (
        b matches MutationKey::StartPlanRun(id) && id.0@ == "demo"@) && (
        error matches MutationState::Error { category, title, detail } && category is Validation
            && title@ == "project trust required"@);
    assert(a@ == sync@);
    assert(b@ == run@);
    assert(a@ != b@);
}

} // verus!
