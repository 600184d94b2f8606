//! What the pages of the dashboard show, and what they ask the server for.

use vstd::prelude::*;

use crate::auto_replan::{classify_plan_run_for_auto_replan, CycleOutcome};
#[allow(unused_imports)]
use crate::auto_replan::cycle_outcome;
use crate::contracts::{
    AutoReplanState, GitSummary, IssueAssignmentResponse, IssueSource, IssueSourceCandidate,
    PauseReason, PhaseOutputResponse, PlanRunResponse, PlanRunStage, ProjectEvent,
    ProjectExecutionConfigResponse, ProjectId, ProjectResponse, ReEnableSourceIssueResponse,
    SetProjectExecutionConfigRequest, SourceIssueSnapshot,
};
use crate::numerals::{decimal_i64, decimal_u64, parse_i64, parse_u64};
#[allow(unused_imports)]
use crate::numerals::{decimal, decimal_int, read_i64, read_u64};
use crate::project_store::{
    ApplyOutcome, MutationCategory, MutationFailure, MutationKey, MutationState, ProjectStore,
};
#[allow(unused_imports)]
use crate::project_store::same_toasts;
use crate::text::{concat, same_text};
#[allow(unused_imports)]
use crate::text::{opt_view, views};
use crate::text_order::comes_before;
#[allow(unused_imports)]
use crate::text_order::{lemma_order_is_total, lemma_order_is_transitive, precedes};
use crate::text_parts::{join_strings, take_chars};
#[allow(unused_imports)]
use crate::text_parts::{first_chars, join};
use crate::ui::{ButtonVariant, PillTone};

verus! {

// --- Pills ---

/// The pill of a Plan Run that is under way.
pub fn derive_plan_run_stage_pill(stage: Option<PlanRunStage>) -> (pill: (PillTone, &'static str))
    ensures
        pill.0 == (if stage == Some(PlanRunStage::Planning) {
            PillTone::Pending
        } else {
            PillTone::Running
        }),
        pill.1@ == (match stage {
            Some(PlanRunStage::Planning) => "Planning"@,
            Some(PlanRunStage::Implementing) => "Implementing"@,
            Some(PlanRunStage::Reviewing) => "Reviewing"@,
            Some(PlanRunStage::Merging) => "Merging"@,
            Some(PlanRunStage::Pushing) => "Pushing"@,
            None => "Running"@,
        }),
{
    match stage {
        Some(PlanRunStage::Planning) => (PillTone::Pending, "Planning"),
        Some(PlanRunStage::Implementing) => (PillTone::Running, "Implementing"),
        Some(PlanRunStage::Reviewing) => (PillTone::Running, "Reviewing"),
        Some(PlanRunStage::Merging) => (PillTone::Running, "Merging"),
        Some(PlanRunStage::Pushing) => (PillTone::Running, "Pushing"),
        None => (PillTone::Running, "Running"),
    }
}

/// What a Plan Run has come to.
#[derive(Clone, Copy, Debug, Eq, PartialEq, Structural)]
pub enum PlanRunOutcome {
    EmptyBacklog,
    MergedWork,
    PlanningFailed,
    AssignmentBlocked,
    PushNonFastForward,
    MergeStagedLeft,
}

/// What a Plan Run that means this for replanning has come to. A failed sync is no
/// outcome of a Plan Run.
pub open spec fn outcome_for(cycle: CycleOutcome) -> Option<PlanRunOutcome> {
    match cycle {
        CycleOutcome::Continue => Some(PlanRunOutcome::MergedWork),
        CycleOutcome::Pause(PauseReason::EmptyBacklog) => Some(PlanRunOutcome::EmptyBacklog),
        CycleOutcome::Pause(PauseReason::AssignmentBlocked) => Some(
            PlanRunOutcome::AssignmentBlocked,
        ),
        CycleOutcome::Pause(PauseReason::PushNonFastForward) => Some(
            PlanRunOutcome::PushNonFastForward,
        ),
        CycleOutcome::Pause(PauseReason::MergeStagedLeft) => Some(PlanRunOutcome::MergeStagedLeft),
        CycleOutcome::Pause(PauseReason::PlanningFailed) => Some(PlanRunOutcome::PlanningFailed),
        CycleOutcome::Pause(PauseReason::SyncFailed) => None,
    }
}

/// What a Plan Run has come to; nothing while it runs.
pub open spec fn plan_run_outcome(plan_run: PlanRunResponse) -> Option<PlanRunOutcome> {
    if plan_run.state@ == "running"@ {
        None
    } else {
        outcome_for(
            cycle_outcome(plan_run.state@, plan_run.phase_outputs@, plan_run.assignments@),
        )
    }
}

impl PlanRunResponse {
    /// What the Plan Run has come to.
    pub fn classify_outcome(plan_run: &PlanRunResponse) -> (outcome: Option<PlanRunOutcome>)
        ensures
            outcome == plan_run_outcome(*plan_run),
    {
        if same_text(plan_run.state.as_str(), "running") {
            return None;
        }
        match classify_plan_run_for_auto_replan(plan_run) {
            CycleOutcome::Continue => Some(PlanRunOutcome::MergedWork),
            CycleOutcome::Pause(PauseReason::EmptyBacklog) => Some(PlanRunOutcome::EmptyBacklog),
            CycleOutcome::Pause(PauseReason::AssignmentBlocked) => {
                Some(PlanRunOutcome::AssignmentBlocked)
            },
            CycleOutcome::Pause(PauseReason::PushNonFastForward) => {
                Some(PlanRunOutcome::PushNonFastForward)
            },
            CycleOutcome::Pause(PauseReason::MergeStagedLeft) => {
                Some(PlanRunOutcome::MergeStagedLeft)
            },
            CycleOutcome::Pause(PauseReason::PlanningFailed) => {
                Some(PlanRunOutcome::PlanningFailed)
            },
            CycleOutcome::Pause(PauseReason::SyncFailed) => None,
        }
    }
}

/// The pill of a Plan Run in the history.
pub open spec fn history_pill(running: bool, outcome: Option<PlanRunOutcome>) -> (
    PillTone,
    Seq<char>,
) {
    if running {
        (PillTone::Pending, "Running"@)
    } else {
        match outcome {
            Some(PlanRunOutcome::EmptyBacklog) => (PillTone::Verified, "Succeeded (empty)"@),
            Some(PlanRunOutcome::MergedWork) => (PillTone::Verified, "Finished"@),
            Some(_) => (PillTone::Failed, "Finished"@),
            None => (PillTone::Verified, "Finished"@),
        }
    }
}

/// The pill of a Plan Run in the history.
pub fn derive_plan_run_history_pill(plan_run: &PlanRunResponse) -> (pill: (PillTone, &'static str))
    ensures
        (pill.0, pill.1@) == history_pill(
            plan_run.state@ == "running"@,
            plan_run_outcome(*plan_run),
        ),
{
    if same_text(plan_run.state.as_str(), "running") {
        return (PillTone::Pending, "Running");
    }
    match PlanRunResponse::classify_outcome(plan_run) {
        Some(PlanRunOutcome::EmptyBacklog) => (PillTone::Verified, "Succeeded (empty)"),
        Some(PlanRunOutcome::MergedWork) => (PillTone::Verified, "Finished"),
        Some(_) => (PillTone::Failed, "Finished"),
        None => (PillTone::Verified, "Finished"),
    }
}

/// The pill of a Project that may, or may not, run agents.
pub fn derive_trust_pill(trusted: bool) -> (pill: (PillTone, &'static str))
    ensures
        pill.0 == (if trusted {
            PillTone::Verified
        } else {
            PillTone::Stale
        }),
        pill.1@ == (if trusted {
            "Trusted"@
        } else {
            "Untrusted"@
        }),
{
    if trusted {
        (PillTone::Verified, "Trusted")
    } else {
        (PillTone::Stale, "Untrusted")
    }
}

/// The pill of replanning.
pub fn derive_auto_replan_pill(state: AutoReplanState) -> (pill: (PillTone, &'static str))
    ensures
        pill.0 == (match state {
            AutoReplanState::Off => PillTone::Idle,
            AutoReplanState::Armed => PillTone::Verified,
            AutoReplanState::Paused => PillTone::Failed,
        }),
        pill.1@ == (match state {
            AutoReplanState::Off => "Off"@,
            AutoReplanState::Armed => "Armed"@,
            AutoReplanState::Paused => "Paused"@,
        }),
{
    match state {
        AutoReplanState::Off => (PillTone::Idle, "Off"),
        AutoReplanState::Armed => (PillTone::Verified, "Armed"),
        AutoReplanState::Paused => (PillTone::Failed, "Paused"),
    }
}

/// The pill of a repository. Without a branch it says how the repository is.
pub fn derive_git_pill(summary: Option<&GitSummary>) -> (pill: (PillTone, String))
    ensures
        match summary {
            None => pill.0 == PillTone::Idle && pill.1@ == "No Git"@,
            Some(summary) => {
                &&& pill.0 == (if summary.dirty {
                    PillTone::Stale
                } else {
                    PillTone::Verified
                })
                &&& pill.1@ == (match summary.branch {
                    Some(branch) => branch@,
                    None => if summary.dirty {
                        "dirty"@
                    } else {
                        "clean"@
                    },
                })
            },
        },
{
    match summary {
        None => (PillTone::Idle, "No Git".to_owned()),
        Some(summary) => {
            let label = match &summary.branch {
                Some(branch) => branch.clone(),
                None => (if summary.dirty { "dirty" } else { "clean" }).to_owned(),
            };
            (if summary.dirty { PillTone::Stale } else { PillTone::Verified }, label)
        },
    }
}

/// The pill of the sync of an Issue Source.
pub fn derive_sync_pill(in_progress: bool, failed: bool, synced: bool) -> (pill: (
    PillTone,
    &'static str,
))
    ensures
        (pill.0, pill.1@) == (if in_progress {
            (PillTone::Running, "Syncing"@)
        } else if failed {
            (PillTone::Failed, "Failed"@)
        } else if synced {
            (PillTone::Verified, "Synced"@)
        } else {
            (PillTone::Idle, "Never synced"@)
        }),
{
    if in_progress {
        (PillTone::Running, "Syncing")
    } else if failed {
        (PillTone::Failed, "Failed")
    } else if synced {
        (PillTone::Verified, "Synced")
    } else {
        (PillTone::Idle, "Never synced")
    }
}

// --- Texts ---

/// A short form of an identifier: its first eight characters.
pub fn short_project_id(id: &str) -> (short: String)
    ensures
        short@ == first_chars(id@, 8),
{
    take_chars(id, 8)
}

/// The text, or what stands for it.
pub open spec fn or_else(text: Option<String>, fallback: Seq<char>) -> Seq<char> {
    match text {
        Some(text) => text@,
        None => fallback,
    }
}

/// The text, or what stands for it.
pub fn text_or_else(text: &Option<String>, fallback: &str) -> (shown: String)
    ensures
        shown@ == or_else(*text, fallback@),
{
    match text {
        Some(text) => text.clone(),
        None => fallback.to_owned(),
    }
}

/// What is said of a repository: its branch, the first twelve characters of its
/// commit, and how it is.
pub fn git_rows(summary: &GitSummary) -> (rows: (String, String, &'static str))
    ensures
        rows.0@ == or_else(summary.branch, "detached"@),
        rows.1@ == (match summary.head {
            Some(head) => first_chars(head@, 12),
            None => "unknown"@,
        }),
        rows.2@ == (if summary.dirty {
            "dirty"@
        } else {
            "clean"@
        }),
{
    let branch = text_or_else(&summary.branch, "detached");
    let head = match &summary.head {
        Some(head) => take_chars(head.as_str(), 12),
        None => "unknown".to_owned(),
    };
    (branch, head, if summary.dirty { "dirty" } else { "clean" })
}

/// The Issue Source of a Project.
pub fn issue_source_label(source: &Option<IssueSource>) -> (label: String)
    ensures
        label@ == (match source {
            Some(source) => source.kind@ + " "@ + source.locator@,
            None => "Not enabled"@,
        }),
{
    match source {
        Some(source) => {
            let mut label = concat(source.kind.as_str(), " ");
            label.append(source.locator.as_str());
            label
        },
        None => "Not enabled".to_owned(),
    }
}

/// The name of the button that enables a candidate.
pub fn candidate_name(candidate: &IssueSourceCandidate) -> (name: String)
    ensures
        name@ == "enable-issue-source-"@ + candidate.kind@ + "-"@ + candidate.locator@,
{
    let mut name = concat("enable-issue-source-", candidate.kind.as_str());
    name.append("-");
    name.append(candidate.locator.as_str());
    name
}

/// What is said of a Source Issue: its dependencies, its parent, and its place.
pub fn planning_issue_texts(issue: &SourceIssueSnapshot) -> (texts: (String, String, String))
    ensures
        texts.0@ == (if issue.issue_dependencies@.len() == 0 {
            "No dependencies"@
        } else {
            join(views(issue.issue_dependencies@), ", "@)
        }),
        texts.1@ == "Parent "@ + or_else(issue.parent_issue, "No parent"@),
        texts.2@ == "#"@ + decimal_int(issue.source_order as int),
{
    let dependencies = if issue.issue_dependencies.len() == 0 {
        "No dependencies".to_owned()
    } else {
        join_strings(&issue.issue_dependencies, ", ")
    };
    let parent = text_or_else(&issue.parent_issue, "No parent");
    (
        dependencies,
        concat("Parent ", parent.as_str()),
        concat("#", decimal_i64(issue.source_order).as_str()),
    )
}

/// What is said of the Source Issues that are hidden; nothing where there are
/// none.
pub fn prd_footer(count: usize, expanded: bool) -> (text: Option<String>)
    ensures
        opt_view(text) == (if count == 0 {
            None
        } else {
            Some(
                decimal(count as nat) + " PRDs hidden · "@ + (if expanded {
                    "Hide"@
                } else {
                    "Show"@
                }),
            )
        }),
{
    if count == 0 {
        return None;
    }
    let mut text = concat(decimal_u64(count as u64).as_str(), " PRDs hidden · ");
    text.append(if expanded { "Hide" } else { "Show" });
    Some(text)
}

/// One of the candidates is enabled.
pub open spec fn any_enabled(candidates: Seq<IssueSourceCandidate>) -> bool {
    exists|i: int| 0 <= i < candidates.len() && (#[trigger] candidates[i]).enabled
}

/// Whether an Issue Source is enabled, by what is known of the Project or of the
/// candidates.
pub fn has_enabled_source(project_has_source: bool, candidates: &Vec<IssueSourceCandidate>) -> (yes:
    bool)
    ensures
        yes == (project_has_source || exists|i: int|
            0 <= i < candidates.len() && (#[trigger] candidates@[i]).enabled),
        yes == (project_has_source || any_enabled(candidates@)),
{
    if project_has_source {
        return true;
    }
    let mut i: usize = 0;
    while i < candidates.len()
        invariant
            i <= candidates.len(),
            forall|k: int| 0 <= k < i ==> !(#[trigger] candidates@[k]).enabled,
        decreases candidates.len() - i,
    {
        if candidates[i].enabled {
            return true;
        }
        i += 1;
    }
    false
}

/// The Project with the identifier.
pub fn find_project(projects: &Vec<ProjectResponse>, id: &str) -> (at: Result<usize, String>)
    ensures
        match at {
            Ok(at) => {
                &&& at < projects.len()
                &&& projects@[at as int].id.0@ == id@
                &&& forall|k: int| 0 <= k < at ==> (#[trigger] projects@[k]).id.0@ != id@
            },
            Err(text) => {
                &&& text@ == "Project "@ + id@ + " not found"@
                &&& forall|k: int|
                    0 <= k < projects.len() ==> (#[trigger] projects@[k]).id.0@ != id@
            },
        },
{
    let mut i: usize = 0;
    while i < projects.len()
        invariant
            i <= projects.len(),
            forall|k: int| 0 <= k < i ==> (#[trigger] projects@[k]).id.0@ != id@,
        decreases projects.len() - i,
    {
        if same_text(projects[i].id.0.as_str(), id) {
            return Ok(i);
        }
        i += 1;
    }
    let mut text = concat("Project ", id);
    text.append(" not found");
    Err(text)
}

// --- Replanning ---

/// What the operator reads when replanning has paused.
pub open spec fn pause_copy(reason: PauseReason) -> Seq<char> {
    match reason {
        PauseReason::EmptyBacklog => "Backlog drained. No Ready Issues left to plan."@,
        PauseReason::AssignmentBlocked =>
            "Plan Run finished with blocked Issue Assignment(s). Resolve via Re-Enable."@,
        PauseReason::PushNonFastForward =>
            "Integration Branch push diverged. Retry Push or Abandon Staged on the affected Issue Assignment."@,
        PauseReason::MergeStagedLeft =>
            "Plan Run finished with merge_staged work. Decide Retry Push or Abandon Staged."@,
        PauseReason::PlanningFailed =>
            "Planning Phase failed. See latest Plan Run for diagnostics."@,
        PauseReason::SyncFailed => "Issue Source sync failed. Check GitHub auth or network."@,
    }
}

/// What the operator reads when replanning has paused.
pub fn auto_replan_pause_copy(reason: PauseReason) -> (text: &'static str)
    ensures
        text@ == pause_copy(reason),
{
    match reason {
        PauseReason::EmptyBacklog => "Backlog drained. No Ready Issues left to plan.",
        PauseReason::AssignmentBlocked => {
            "Plan Run finished with blocked Issue Assignment(s). Resolve via Re-Enable."
        },
        PauseReason::PushNonFastForward => {
            "Integration Branch push diverged. Retry Push or Abandon Staged on the affected Issue Assignment."
        },
        PauseReason::MergeStagedLeft => {
            "Plan Run finished with merge_staged work. Decide Retry Push or Abandon Staged."
        },
        PauseReason::PlanningFailed => {
            "Planning Phase failed. See latest Plan Run for diagnostics."
        },
        PauseReason::SyncFailed => "Issue Source sync failed. Check GitHub auth or network.",
    }
}

/// The text of the banner; there is one only while replanning is paused. A pause
/// without a reason is taken for a failed planning.
pub fn paused_banner(state: AutoReplanState, reason: Option<PauseReason>) -> (text: Option<
    &'static str,
>)
    ensures
        match text {
            Some(text) => state == AutoReplanState::Paused && text@ == pause_copy(
                match reason {
                    Some(reason) => reason,
                    None => PauseReason::PlanningFailed,
                },
            ),
            None => state != AutoReplanState::Paused,
        },
{
    match state {
        AutoReplanState::Paused => Some(
            auto_replan_pause_copy(
                match reason {
                    Some(reason) => reason,
                    None => PauseReason::PlanningFailed,
                },
            ),
        ),
        _ => None,
    }
}

/// What the operator can do about replanning.
#[derive(Clone, Debug, Eq, PartialEq)]
pub struct AutoReplanAction {
    pub key: MutationKey,
    pub label: &'static str,
    pub variant: ButtonVariant,
    pub endpoint: &'static str,
}

/// What the operator can do about replanning: arm it, disarm it, or resume it.
pub fn auto_replan_control(project_id: &ProjectId, state: AutoReplanState) -> (action:
    AutoReplanAction)
    ensures
        match state {
            AutoReplanState::Off => {
                &&& action.key == MutationKey::ArmAutoReplan(*project_id)
                &&& action.label@ == "Arm"@
                &&& action.variant == ButtonVariant::Primary
                &&& action.endpoint@ == "arm"@
            },
            AutoReplanState::Armed => {
                &&& action.key == MutationKey::DisarmAutoReplan(*project_id)
                &&& action.label@ == "Disarm"@
                &&& action.variant == ButtonVariant::Destructive
                &&& action.endpoint@ == "disarm"@
            },
            AutoReplanState::Paused => {
                &&& action.key == MutationKey::ResumeAutoReplan(*project_id)
                &&& action.label@ == "Resume"@
                &&& action.variant == ButtonVariant::Primary
                &&& action.endpoint@ == "resume"@
            },
        },
{
    let id = ProjectId(project_id.0.clone());
    match state {
        AutoReplanState::Off => AutoReplanAction {
            key: MutationKey::ArmAutoReplan(id),
            label: "Arm",
            variant: ButtonVariant::Primary,
            endpoint: "arm",
        },
        AutoReplanState::Armed => AutoReplanAction {
            key: MutationKey::DisarmAutoReplan(id),
            label: "Disarm",
            variant: ButtonVariant::Destructive,
            endpoint: "disarm",
        },
        AutoReplanState::Paused => AutoReplanAction {
            key: MutationKey::ResumeAutoReplan(id),
            label: "Resume",
            variant: ButtonVariant::Primary,
            endpoint: "resume",
        },
    }
}

// --- The execution config ---

/// The form of the execution config, as the operator has filled it in.
#[derive(Clone, Debug, Eq, PartialEq)]
pub struct ExecutionConfigForm {
    pub integration_branch: String,
    pub max_parallel_tasks: String,
    pub review_retry_limit: String,
}

impl ExecutionConfigForm {
    /// The form as it is first shown: the stored config, or else the branch that
    /// was detected, one task and three retries.
    pub fn initial(
        config: Option<&ProjectExecutionConfigResponse>,
        detected_default_branch: &Option<String>,
    ) -> (form: ExecutionConfigForm)
        ensures
            match config {
                Some(config) => {
                    &&& form.integration_branch@ == config.integration_branch@
                    &&& form.max_parallel_tasks@ == decimal_int(config.max_parallel_tasks as int)
                    &&& form.review_retry_limit@ == decimal_int(config.review_retry_limit as int)
                },
                None => {
                    &&& form.integration_branch@ == or_else(*detected_default_branch, "main"@)
                    &&& form.max_parallel_tasks@ == "1"@
                    &&& form.review_retry_limit@ == "3"@
                },
            },
    {
        match config {
            Some(config) => ExecutionConfigForm {
                integration_branch: config.integration_branch.clone(),
                max_parallel_tasks: decimal_i64(config.max_parallel_tasks),
                review_retry_limit: decimal_i64(config.review_retry_limit),
            },
            None => ExecutionConfigForm {
                integration_branch: text_or_else(detected_default_branch, "main"),
                max_parallel_tasks: "1".to_owned(),
                review_retry_limit: "3".to_owned(),
            },
        }
    }

    /// What is sent when the form is saved. What is no number is sent as zero.
    pub fn request(&self) -> (request: SetProjectExecutionConfigRequest)
        ensures
            request.integration_branch@ == self.integration_branch@,
            request.max_parallel_tasks == (match read_i64(self.max_parallel_tasks@) {
                Some(number) => number,
                None => 0i64,
            }),
            request.review_retry_limit == (match read_i64(self.review_retry_limit@) {
                Some(number) => number,
                None => 0i64,
            }),
    {
        let max_parallel_tasks: i64 = match parse_i64(self.max_parallel_tasks.as_str()) {
            Some(number) => number,
            None => 0,
        };
        let review_retry_limit: i64 = match parse_i64(self.review_retry_limit.as_str()) {
            Some(number) => number,
            None => 0,
        };
        SetProjectExecutionConfigRequest {
            integration_branch: self.integration_branch.clone(),
            max_parallel_tasks,
            review_retry_limit,
        }
    }
}

// --- Plan Runs ---

/// Whether a Plan Run can be started: the Project is trusted and has a config, and
/// no Plan Run is under way.
pub fn can_start_plan_run(trusted: bool, has_config: bool, has_active: bool) -> (yes: bool)
    ensures
        yes == (trusted && has_config && !has_active),
{
    trusted && has_config && !has_active
}

/// How many finished Plan Runs are shown: five at most.
pub fn shown_history(count: usize) -> (shown: usize)
    ensures
        shown == (if count < 5 {
            count
        } else {
            5
        }),
{
    if count < 5 {
        count
    } else {
        5
    }
}

/// The output at `i` is shown before that at `j`: it was recorded earlier, or at
/// the same time and stands before it.
pub open spec fn shown_before(outputs: Seq<PhaseOutputResponse>, i: int, j: int) -> bool {
    precedes(outputs[i].recorded_at@, outputs[j].recorded_at@) || (outputs[i].recorded_at@
        == outputs[j].recorded_at@ && i < j)
}

/// Each position is shown before those behind it.
pub open spec fn in_shown_order(outputs: Seq<PhaseOutputResponse>, order: Seq<usize>) -> bool {
    forall|a: int, b: int|
        0 <= a < b < order.len() ==> shown_before(
            outputs,
            #[trigger] order[a] as int,
            #[trigger] order[b] as int,
        )
}

/// The order is that of the times of the outputs that belong to no assignment,
/// each once.
pub open spec fn is_header_order(outputs: Seq<PhaseOutputResponse>, order: Seq<usize>) -> bool {
    &&& forall|k: int|
        0 <= k < order.len() ==> (#[trigger] order[k]) < outputs.len()
            && outputs[order[k] as int].assignment_id is None
    &&& forall|i: int|
        0 <= i < outputs.len() && (#[trigger] outputs[i]).assignment_id is None
            ==> order.contains(i as usize)
    &&& in_shown_order(outputs, order)
}

/// The outputs of a Plan Run itself, by position and in the order of their times.
pub fn header_outputs(outputs: &Vec<PhaseOutputResponse>) -> (order: Vec<usize>)
    ensures
        is_header_order(outputs@, order@),
{
    let ghost all = outputs@;
    let mut order: Vec<usize> = Vec::new();
    let mut i: usize = 0;
    while i < outputs.len()
        invariant
            i <= outputs.len(),
            all == outputs@,
            forall|k: int|
                0 <= k < order@.len() ==> (#[trigger] order@[k]) < i && all[order@[k] as int].assignment_id is None,
            forall|m: int|
                0 <= m < i && (#[trigger] all[m]).assignment_id is None ==> order@.contains(
                    m as usize,
                ),
            forall|a: int, b: int|
                0 <= a < b < order@.len() ==> shown_before(
                    all,
                    #[trigger] order@[a] as int,
                    #[trigger] order@[b] as int,
                ),
        decreases outputs.len() - i,
    {
        if outputs[i].assignment_id.is_none() {
            let ghost before = order@;
            let mut at: usize = order.len();
            while at > 0 && comes_before(
                outputs[i].recorded_at.as_str(),
                outputs[order[at - 1]].recorded_at.as_str(),
            )
                invariant
                    at <= order.len(),
                    i < outputs.len(),
                    all == outputs@,
                    order@ == before,
                    forall|k: int| 0 <= k < order@.len() ==> (#[trigger] order@[k]) < i,
                    forall|k: int|
                        at <= k < order@.len() ==> precedes(
                            all[i as int].recorded_at@,
                            all[(#[trigger] order@[k]) as int].recorded_at@,
                        ),
                decreases at,
            {
                at -= 1;
            }
            order.insert(at, i);
            proof {
                lemma_inserted(all, before, order@, at as int, i);
            }
        } else {
            assert forall|m: int| 0 <= m < i + 1 && (#[trigger] all[m]).assignment_id is None implies
                order@.contains(m as usize) by {
                assert(m < i);
            }
        }
        i += 1;
    }
    order
}

proof fn lemma_inserted(
    all: Seq<PhaseOutputResponse>,
    before: Seq<usize>,
    after: Seq<usize>,
    at: int,
    i: usize,
)
    requires
        0 <= at <= before.len(),
        i < all.len(),
        all[i as int].assignment_id is None,
        after == before.insert(at, i),
        forall|k: int|
            0 <= k < before.len() ==> (#[trigger] before[k]) < i && all[before[k] as int].assignment_id is None,
        forall|m: int|
            0 <= m < i && (#[trigger] all[m]).assignment_id is None ==> before.contains(
                m as usize,
            ),
        forall|a: int, b: int|
            0 <= a < b < before.len() ==> shown_before(
                all,
                #[trigger] before[a] as int,
                #[trigger] before[b] as int,
            ),
        forall|k: int|
            at <= k < before.len() ==> precedes(
                all[i as int].recorded_at@,
                all[(#[trigger] before[k]) as int].recorded_at@,
            ),
        at > 0 ==> !precedes(
            all[i as int].recorded_at@,
            all[before[at - 1] as int].recorded_at@,
        ),
    ensures
        forall|k: int|
            0 <= k < after.len() ==> (#[trigger] after[k]) < i + 1 && all[after[k] as int].assignment_id is None,
        forall|m: int|
            0 <= m < i + 1 && (#[trigger] all[m]).assignment_id is None ==> after.contains(
                m as usize,
            ),
        forall|a: int, b: int|
            0 <= a < b < after.len() ==> shown_before(
                all,
                #[trigger] after[a] as int,
                #[trigger] after[b] as int,
            ),
{
    assert forall|k: int| 0 <= k < after.len() implies (#[trigger] after[k]) < i + 1
        && all[after[k] as int].assignment_id is None by {
        if k < at {
            assert(after[k] == before[k]);
        } else if k > at {
            assert(after[k] == before[k - 1]);
        }
    }
    assert forall|m: int| 0 <= m < i + 1 && (#[trigger] all[m]).assignment_id is None implies
        after.contains(m as usize) by {
        if m == i {
            assert(after[at] == i);
        } else {
            assert(before.contains(m as usize));
            let k = choose|k: int| 0 <= k < before.len() && before[k] == m as usize;
            if k < at {
                assert(after[k] == m as usize);
            } else {
                assert(after[k + 1] == m as usize);
            }
        }
    }
    let time = all[i as int].recorded_at@;
    assert forall|k: int| 0 <= k < at implies shown_before(
        all,
        (#[trigger] before[k]) as int,
        i as int,
    ) by {
        let last = all[before[at - 1] as int].recorded_at@;
        lemma_order_is_total(last, time);
        if k < at - 1 {
            assert(shown_before(all, before[k] as int, before[at - 1] as int));
            if precedes(all[before[k] as int].recorded_at@, last) && precedes(last, time) {
                lemma_order_is_transitive(all[before[k] as int].recorded_at@, last, time);
            }
        }
    }
    assert forall|a: int, b: int| 0 <= a < b < after.len() implies shown_before(
        all,
        #[trigger] after[a] as int,
        #[trigger] after[b] as int,
    ) by {
        if b < at {
            assert(shown_before(all, before[a] as int, before[b] as int));
        } else if b == at {
            assert(shown_before(all, before[a] as int, i as int));
        } else if a < at {
            assert(shown_before(all, before[a] as int, before[b - 1] as int));
        } else if a == at {
            assert(precedes(time, all[before[b - 1] as int].recorded_at@));
        } else {
            assert(shown_before(all, before[a - 1] as int, before[b - 1] as int));
        }
    }
}

/// The tone of an assignment.
pub open spec fn status_tone(status: Seq<char>) -> PillTone {
    if status == "merged"@ || status == "reviewed"@ {
        PillTone::Verified
    } else if status == "implemented"@ || status == "claimed"@ || status == "implementing"@
        || status == "merging"@ {
        PillTone::Running
    } else if status == "rejected"@ || status == "blocked"@ {
        PillTone::Failed
    } else {
        PillTone::Pending
    }
}

/// The row of an assignment.
#[derive(Clone, Debug, Eq, PartialEq)]
pub struct AssignmentRowView {
    pub tone: PillTone,
    /// The name of the status, where it has one.
    pub status_name: Option<&'static str>,
    pub title: String,
    pub summary: String,
    /// What is said of rejected reviews.
    pub rejections: Option<String>,
    /// What is said of the block, and its detail.
    pub blocked: Option<(String, Option<String>)>,
    /// The Source Issue can be made ready again.
    pub offers_re_enable: bool,
    /// The push can be tried again, or given up.
    pub offers_push: bool,
}

/// The row of an assignment.
pub fn assignment_row(assignment: &IssueAssignmentResponse) -> (row: AssignmentRowView)
    ensures
        row.tone == status_tone(assignment.status@),
        match row.status_name {
            Some(name) => assignment.status@ == "merge_staged"@ && name@
                == "assignment-status-merge-staged"@,
            None => assignment.status@ != "merge_staged"@,
        },
        row.title@ == assignment.source_id@ + ": "@ + assignment.source_title@,
        row.summary@ == or_else(assignment.selection_summary, "(no selection summary)"@),
        opt_view(row.rejections) == (if assignment.review_rejection_count > 0 {
            Some(
                "Review rejections: "@ + decimal_int(assignment.review_rejection_count as int),
            )
        } else {
            None
        }),
        match (row.blocked, assignment.block_reason) {
            (Some((text, detail)), Some(reason)) => text@ == "Blocked: "@ + reason.kind.wire()
                && detail == reason.detail,
            (None, None) => true,
            _ => false,
        },
        row.offers_re_enable == (assignment.status@ == "blocked"@),
        row.offers_push == (assignment.status@ == "merge_staged"@),
{
    let status = assignment.status.as_str();
    let tone = if same_text(status, "merged") || same_text(status, "reviewed") {
        PillTone::Verified
    } else if same_text(status, "implemented") || same_text(status, "claimed") || same_text(
        status,
        "implementing",
    ) || same_text(status, "merging") {
        PillTone::Running
    } else if same_text(status, "rejected") || same_text(status, "blocked") {
        PillTone::Failed
    } else {
        PillTone::Pending
    };
    let staged = same_text(status, "merge_staged");
    let status_name = if staged { Some("assignment-status-merge-staged") } else { None };
    let mut title = concat(assignment.source_id.as_str(), ": ");
    title.append(assignment.source_title.as_str());
    let rejections = if assignment.review_rejection_count > 0 {
        Some(
            concat(
                "Review rejections: ",
                decimal_i64(assignment.review_rejection_count).as_str(),
            ),
        )
    } else {
        None
    };
    let blocked = match &assignment.block_reason {
        Some(reason) => Some(
            (
                concat("Blocked: ", reason.kind.as_wire()),
                crate::text::clone_option(&reason.detail),
            ),
        ),
        None => None,
    };
    AssignmentRowView {
        tone,
        status_name,
        title,
        summary: text_or_else(&assignment.selection_summary, "(no selection summary)"),
        rejections,
        blocked,
        offers_re_enable: same_text(status, "blocked"),
        offers_push: staged,
    }
}

/// What the operator reads after a push was tried again: the title and the
/// detail.
pub fn retry_push_note(status: &str) -> (note: (&'static str, &'static str))
    ensures
        (note.0@, note.1@) == (if status@ == "merged"@ {
            (
                "Retry Push succeeded"@,
                "Assignment merged; Plan Run history preserves the original failure"@,
            )
        } else if status@ == "blocked"@ {
            (
                "Retry Push rejected as non-fast-forward"@,
                "Integration Branch has diverged; recovery belongs in a new Plan Run"@,
            )
        } else {
            (
                "Retry Push failed"@,
                "Assignment remains staged; you may retry or abandon"@,
            )
        }),
{
    if same_text(status, "merged") {
        (
            "Retry Push succeeded",
            "Assignment merged; Plan Run history preserves the original failure",
        )
    } else if same_text(status, "blocked") {
        (
            "Retry Push rejected as non-fast-forward",
            "Integration Branch has diverged; recovery belongs in a new Plan Run",
        )
    } else {
        ("Retry Push failed", "Assignment remains staged; you may retry or abandon")
    }
}

/// What the operator reads after a Source Issue was made ready again: the title
/// and the detail. That the Issue Source was not told is said beside it.
pub fn re_enable_note(outcome: &ReEnableSourceIssueResponse) -> (note: (&'static str, String))
    ensures
        (note.0@, note.1@) == (if outcome.writeback.ok {
            (
                "Source Issue re-enabled"@,
                "A later Plan Run may pick this Source Issue again"@,
            )
        } else {
            (
                "Source Issue re-enabled (upstream write-back failed)"@,
                or_else(outcome.writeback.error, "Issue Source write-back failed"@),
            )
        }),
{
    if outcome.writeback.ok {
        (
            "Source Issue re-enabled",
            "A later Plan Run may pick this Source Issue again".to_owned(),
        )
    } else {
        (
            "Source Issue re-enabled (upstream write-back failed)",
            text_or_else(&outcome.writeback.error, "Issue Source write-back failed"),
        )
    }
}

// --- The server ---

/// What a request does.
#[derive(Clone, Copy, Debug, Eq, PartialEq, Structural)]
pub enum HttpMethod {
    Get,
    Put,
    Post,
    Delete,
}

/// A request to the server.
#[derive(Clone, Debug, Eq, PartialEq)]
pub enum ApiCall {
    AppInfo,
    Projects,
    Snapshot { project: String },
    EnableIssueSource { project: String },
    TrustProject { project: String },
    AutoReplan { project: String, endpoint: String },
    SetExecutionConfig { project: String },
    MarkPrd { project: String, source: String },
    UnmarkPrd { project: String, source: String },
    ReEnableSourceIssue { project: String, source: String },
    RetryPush { project: String, assignment: String },
    AbandonStaged { project: String, assignment: String },
    StartPlanRun { project: String },
    SyncIssueSource { project: String },
    /// The events behind the one with the number.
    Events { project: String, last_event_id: u64 },
}

/// A path below that of a Project.
pub open spec fn below_project(project: Seq<char>, rest: Seq<char>) -> Seq<char> {
    "/api/projects/"@ + project + rest
}

fn under_project(project: &str, rest: &str) -> (path: String)
    ensures
        path@ == below_project(project@, rest@),
{
    let mut path = concat("/api/projects/", project);
    path.append(rest);
    path
}

impl ApiCall {
    /// What the request does.
    pub open spec fn verb(&self) -> HttpMethod {
        match self {
            ApiCall::AppInfo => HttpMethod::Get,
            ApiCall::Projects => HttpMethod::Get,
            ApiCall::Snapshot { project } => HttpMethod::Get,
            ApiCall::Events { project, last_event_id } => HttpMethod::Get,
            ApiCall::EnableIssueSource { project } => HttpMethod::Put,
            ApiCall::TrustProject { project } => HttpMethod::Put,
            ApiCall::SetExecutionConfig { project } => HttpMethod::Put,
            ApiCall::UnmarkPrd { project, source } => HttpMethod::Delete,
            _ => HttpMethod::Post,
        }
    }

    /// What the request does.
    pub fn method(&self) -> (method: HttpMethod)
        ensures
            method == self.verb(),
    {
        match self {
            ApiCall::AppInfo | ApiCall::Projects => HttpMethod::Get,
            ApiCall::Snapshot { .. } | ApiCall::Events { .. } => HttpMethod::Get,
            ApiCall::EnableIssueSource { .. } => HttpMethod::Put,
            ApiCall::TrustProject { .. } | ApiCall::SetExecutionConfig { .. } => HttpMethod::Put,
            ApiCall::UnmarkPrd { .. } => HttpMethod::Delete,
            _ => HttpMethod::Post,
        }
    }

    /// The path of the request.
    pub open spec fn location(&self) -> Seq<char> {
        match self {
            ApiCall::AppInfo => "/api/app-info"@,
            ApiCall::Projects => "/api/projects"@,
            ApiCall::Snapshot { project } => below_project(project@, "/snapshot"@),
            ApiCall::EnableIssueSource { project } => below_project(project@, "/issue-source"@),
            ApiCall::TrustProject { project } => below_project(project@, "/trust"@),
            ApiCall::AutoReplan { project, endpoint } => below_project(
                project@,
                "/auto-replan/"@ + endpoint@,
            ),
            ApiCall::SetExecutionConfig { project } => below_project(
                project@,
                "/execution-config"@,
            ),
            ApiCall::MarkPrd { project, source } => below_project(
                project@,
                "/source-issues/"@ + source@ + "/prd"@,
            ),
            ApiCall::UnmarkPrd { project, source } => below_project(
                project@,
                "/source-issues/"@ + source@ + "/prd"@,
            ),
            ApiCall::ReEnableSourceIssue { project, source } => below_project(
                project@,
                "/source-issues/"@ + source@ + "/re-enable"@,
            ),
            ApiCall::RetryPush { project, assignment } => below_project(
                project@,
                "/assignments/"@ + assignment@ + "/retry-push"@,
            ),
            ApiCall::AbandonStaged { project, assignment } => below_project(
                project@,
                "/assignments/"@ + assignment@ + "/abandon-staged"@,
            ),
            ApiCall::StartPlanRun { project } => below_project(project@, "/plan-runs"@),
            ApiCall::SyncIssueSource { project } => below_project(project@, "/issue-source/sync"@),
            ApiCall::Events { project, last_event_id } => below_project(
                project@,
                "/events?last_event_id="@ + decimal(*last_event_id as nat),
            ),
        }
    }

    /// The path of the request.
    pub fn path(&self) -> (path: String)
        ensures
            path@ == self.location(),
    {
        match self {
            ApiCall::AppInfo => "/api/app-info".to_owned(),
            ApiCall::Projects => "/api/projects".to_owned(),
            ApiCall::Snapshot { project } => under_project(project.as_str(), "/snapshot"),
            ApiCall::EnableIssueSource { project } => {
                under_project(project.as_str(), "/issue-source")
            },
            ApiCall::TrustProject { project } => under_project(project.as_str(), "/trust"),
            ApiCall::AutoReplan { project, endpoint } => under_project(
                project.as_str(),
                concat("/auto-replan/", endpoint.as_str()).as_str(),
            ),
            ApiCall::SetExecutionConfig { project } => {
                under_project(project.as_str(), "/execution-config")
            },
            ApiCall::MarkPrd { project, source } | ApiCall::UnmarkPrd { project, source } => {
                let mut rest = concat("/source-issues/", source.as_str());
                rest.append("/prd");
                under_project(project.as_str(), rest.as_str())
            },
            ApiCall::ReEnableSourceIssue { project, source } => {
                let mut rest = concat("/source-issues/", source.as_str());
                rest.append("/re-enable");
                under_project(project.as_str(), rest.as_str())
            },
            ApiCall::RetryPush { project, assignment } => {
                let mut rest = concat("/assignments/", assignment.as_str());
                rest.append("/retry-push");
                under_project(project.as_str(), rest.as_str())
            },
            ApiCall::AbandonStaged { project, assignment } => {
                let mut rest = concat("/assignments/", assignment.as_str());
                rest.append("/abandon-staged");
                under_project(project.as_str(), rest.as_str())
            },
            ApiCall::StartPlanRun { project } => under_project(project.as_str(), "/plan-runs"),
            ApiCall::SyncIssueSource { project } => {
                under_project(project.as_str(), "/issue-source/sync")
            },
            ApiCall::Events { project, last_event_id } => under_project(
                project.as_str(),
                concat("/events?last_event_id=", decimal_u64(*last_event_id).as_str()).as_str(),
            ),
        }
    }
}

/// Whether a response has the status of a success.
pub fn is_success(status: u16) -> (yes: bool)
    ensures
        yes == (200 <= status < 300),
{
    200 <= status && status < 300
}

/// What a response gives: a failure with its body, unless it has the status of a
/// success.
pub fn accept_response(status: u16, body: String) -> (accepted: Result<String, MutationFailure>)
    ensures
        accepted == (if 200 <= status < 300 {
            Ok::<String, MutationFailure>(body)
        } else {
            Err(MutationFailure { status: Some(status), body })
        }),
{
    if is_success(status) {
        Ok(body)
    } else {
        Err(MutationFailure::http(status, body))
    }
}

/// The number of an event. One that is no number counts as zero, and its event as
/// one that was seen.
pub fn event_sequence(last_event_id: &str) -> (sequence: u64)
    ensures
        sequence == (match read_u64(last_event_id@) {
            Some(number) => number,
            None => 0u64,
        }),
{
    match parse_u64(last_event_id) {
        Some(number) => number,
        None => 0,
    }
}

/// Whether the events are to be subscribed to anew: another Project is shown, or
/// the state must be fetched again.
pub fn needs_subscription(shown: &Option<String>, project: &str, needs_rehydrate: bool) -> (yes:
    bool)
    ensures
        yes == (needs_rehydrate || opt_view(*shown) != Some(project@)),
{
    match shown {
        Some(shown) => needs_rehydrate || !same_text(shown.as_str(), project),
        None => true,
    }
}

/// Whether the snapshot is out of date after an event: the event was merged, and
/// tells of more than activity or the start of a sync.
pub fn outdates_snapshot(event: &ProjectEvent, outcome: ApplyOutcome) -> (yes: bool)
    ensures
        yes == (outcome is Merged && event !is Activity && event !is IssueSourceSyncStarted && event
            !is Resync),
{
    match outcome {
        ApplyOutcome::Merged => match event {
            ProjectEvent::Activity(_)
            | ProjectEvent::IssueSourceSyncStarted
            | ProjectEvent::Resync => false,
            _ => true,
        },
        _ => false,
    }
}

/// Whether the Issue Source syncs after an event.
pub fn syncs_after(event: &ProjectEvent, syncing: bool) -> (yes: bool)
    ensures
        yes == (event is IssueSourceSyncStarted || syncing && event !is IssueSourceSyncCompleted
            && event !is IssueSourceSyncFailed),
{
    match event {
        ProjectEvent::IssueSourceSyncStarted => true,
        ProjectEvent::IssueSourceSyncCompleted(_) => false,
        ProjectEvent::IssueSourceSyncFailed { .. } => false,
        _ => syncing,
    }
}

/// What the page of a Project shows.
#[derive(Clone, Copy, Debug, Eq, PartialEq, Structural)]
pub enum ProjectPage {
    Unavailable,
    Shown,
    Loading,
}

/// What the page of a Project shows. The latest error counts for more than what
/// was loaded before, and what was loaded before is kept while it is loaded again.
pub fn project_page(failed: bool, loaded_before: bool) -> (page: ProjectPage)
    ensures
        page == (if failed {
            ProjectPage::Unavailable
        } else if loaded_before {
            ProjectPage::Shown
        } else {
            ProjectPage::Loading
        }),
{
    if failed {
        ProjectPage::Unavailable
    } else if loaded_before {
        ProjectPage::Shown
    } else {
        ProjectPage::Loading
    }
}

/// Fill the store with the states that the page of the primitives shows: one
/// mutation that is under way, and one that was refused.
pub fn seed_sandbox(store: &mut ProjectStore)
    requires
        old(store).well_formed(),
    ensures
        final(store).well_formed(),
        exists|sync: MutationKey, run: MutationKey, error: MutationState|
            final(store).mutations@ == #[trigger] old(store).mutations@.insert(
                sync@,
                MutationState::Pending,
            ).insert(run@, error) && (sync matches MutationKey::SyncIssueSource(id) && id.0@
                == "demo"@) && (run matches MutationKey::StartPlanRun(id) && id.0@ == "demo"@)
                && (error matches MutationState::Error { category, title, detail } && category
                == MutationCategory::Validation && title@ == "project trust required"@ && detail@
                == "trust the project from settings before starting a Plan Run"@),
        same_toasts(*old(store), *final(store)),
        final(store).reload_counter == old(store).reload_counter,
        final(store).state == old(store).state,
{
    let sync = MutationKey::SyncIssueSource(ProjectId("demo".to_owned()));
    let run = MutationKey::StartPlanRun(ProjectId("demo".to_owned()));
    let error = MutationState::Error {
        category: MutationCategory::Validation,
        title: "project trust required".to_owned(),
        detail: "trust the project from settings before starting a Plan Run".to_owned(),
    };
    store.force_state(sync, MutationState::Pending);
    store.force_state(run, error);
}

// --- Laws ---

proof fn lemma_shown_order_is_determined(
    outputs: Seq<PhaseOutputResponse>,
    a: Seq<usize>,
    b: Seq<usize>,
)
    requires
        in_shown_order(outputs, a),
        in_shown_order(outputs, b),
        forall|i: usize| a.contains(i) <==> b.contains(i),
    ensures
        a == b,
    decreases a.len(),
{
    if a.len() == 0 {
        if b.len() > 0 {
            assert(b.contains(b[0]));
            assert(a.contains(b[0]));
        }
        assert(a =~= b);
    } else {
        let (last_a, last_b) = (a.last(), b.last());
        assert(a[a.len() - 1] == last_a);
        assert(a.contains(last_a));
        assert(b.contains(last_a));
        let at_b = choose|k: int| 0 <= k < b.len() && b[k] == last_a;
        assert(b[b.len() - 1] == last_b);
        assert(b.contains(last_b));
        assert(a.contains(last_b));
        let at_a = choose|k: int| 0 <= k < a.len() && a[k] == last_b;
        if last_a != last_b {
            assert(shown_before(outputs, b[at_b] as int, last_b as int));
            assert(shown_before(outputs, a[at_a] as int, last_a as int));
            lemma_order_is_total(
                outputs[last_a as int].recorded_at@,
                outputs[last_b as int].recorded_at@,
            );
        }
        let (front_a, front_b) = (a.drop_last(), b.drop_last());
        assert forall|i: usize| front_a.contains(i) <==> front_b.contains(i) by {
            if front_a.contains(i) {
                let k = choose|k: int| 0 <= k < front_a.len() && front_a[k] == i;
                assert(a[k] == i && shown_before(outputs, i as int, last_a as int));
                lemma_order_is_total(
                    outputs[i as int].recorded_at@,
                    outputs[last_a as int].recorded_at@,
                );
                assert(a.contains(i));
                assert(b.contains(i));
                let m = choose|m: int| 0 <= m < b.len() && b[m] == i;
                assert(m < b.len() - 1);
                assert(front_b[m] == i);
            }
            if front_b.contains(i) {
                let k = choose|k: int| 0 <= k < front_b.len() && front_b[k] == i;
                assert(b[k] == i && shown_before(outputs, i as int, last_b as int));
                lemma_order_is_total(
                    outputs[i as int].recorded_at@,
                    outputs[last_b as int].recorded_at@,
                );
                assert(b.contains(i));
                assert(a.contains(i));
                let m = choose|m: int| 0 <= m < a.len() && a[m] == i;
                assert(m < a.len() - 1);
                assert(front_a[m] == i);
            }
        }
        assert(in_shown_order(outputs, front_a)) by {
            assert forall|x: int, y: int| 0 <= x < y < front_a.len() implies shown_before(
                outputs,
                #[trigger] front_a[x] as int,
                #[trigger] front_a[y] as int,
            ) by {
                assert(shown_before(outputs, a[x] as int, a[y] as int));
            }
        }
        assert(in_shown_order(outputs, front_b)) by {
            assert forall|x: int, y: int| 0 <= x < y < front_b.len() implies shown_before(
                outputs,
                #[trigger] front_b[x] as int,
                #[trigger] front_b[y] as int,
            ) by {
                assert(shown_before(outputs, b[x] as int, b[y] as int));
            }
        }
        lemma_shown_order_is_determined(outputs, front_a, front_b);
        assert(a =~= front_a.push(last_a));
        assert(b =~= front_b.push(last_b));
    }
}

/// The order of the outputs is determined by them: there is only one.
pub proof fn law_header_order_is_determined(
    outputs: Seq<PhaseOutputResponse>,
    a: Seq<usize>,
    b: Seq<usize>,
)
    requires
        is_header_order(outputs, a),
        is_header_order(outputs, b),
    ensures
        a == b,
{
    assert forall|i: usize| a.contains(i) <==> b.contains(i) by {
        if a.contains(i) {
            let k = choose|k: int| 0 <= k < a.len() && a[k] == i;
            assert(outputs[a[k] as int].assignment_id is None);
        }
        if b.contains(i) {
            let k = choose|k: int| 0 <= k < b.len() && b[k] == i;
            assert(outputs[b[k] as int].assignment_id is None);
        }
    }
    lemma_shown_order_is_determined(outputs, a, b);
}

/// No assignment is offered both: one that is blocked can be made ready again and
/// shows as failed, one whose push waits can have it decided and shows as pending.
pub proof fn law_offers_are_exclusive(status: Seq<char>)
    ensures
        !(status == "blocked"@ && status == "merge_staged"@),
        status == "blocked"@ ==> status_tone(status) == PillTone::Failed,
        status == "merge_staged"@ ==> status_tone(status) == PillTone::Pending,
{
    reveal_strlit("blocked");
    reveal_strlit("merge_staged");
    reveal_strlit("merged");
    reveal_strlit("reviewed");
    reveal_strlit("implemented");
    reveal_strlit("claimed");
    reveal_strlit("implementing");
    reveal_strlit("merging");
    reveal_strlit("rejected");
    assert("blocked"@.len() == 7 && "blocked"@[0] == 'b');
    assert("merge_staged"@.len() == 12 && "merge_staged"@[0] == 'm');
    assert("merged"@.len() == 6 && "reviewed"@.len() == 8 && "implemented"@.len() == 11);
    assert("claimed"@.len() == 7 && "claimed"@[0] == 'c');
    assert("implementing"@.len() == 12 && "implementing"@[0] == 'i');
    assert("merging"@.len() == 7 && "merging"@[0] == 'm');
    assert("rejected"@.len() == 8);
}

} // verus!
