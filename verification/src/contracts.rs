//! The data that the control plane, the orchestrator and the dashboard
//! exchange.

use vstd::prelude::*;

use crate::json::JsonDocument;
use crate::text::{clone_option, same_text};

verus! {

#[derive(Clone, Debug, Eq, PartialEq)]
pub struct HealthResponse {
    pub status: String,
}

#[derive(Clone, Debug, Eq, PartialEq)]
pub struct AppInfoResponse {
    pub app_name: String,
    pub version: String,
    pub api_status: String,
    pub config: EffectiveConfig,
}

#[derive(Clone, Debug, Eq, PartialEq)]
pub struct EffectiveConfig {
    pub bind_address: String,
    pub dashboard_asset_dir: String,
    pub database_url: String,
}

/// Stable identifier for a Project, independent of filesystem path.
#[derive(Clone, Debug, Eq, Hash, PartialEq)]
pub struct ProjectId(pub String);

/// Request body for creating a new Project.
#[derive(Clone, Debug, Eq, PartialEq)]
pub struct CreateProjectRequest {
    pub path: String,
}

/// Response body representing a Project.
#[derive(Clone, Debug, Eq, PartialEq)]
pub struct ProjectResponse {
    pub id: ProjectId,
    pub path: String,
    pub trusted: bool,
    pub git_summary: Option<GitSummary>,
    pub enabled_issue_source: Option<IssueSource>,
}

/// Read-only Git metadata derived from a Project path.
#[derive(Clone, Debug, Eq, PartialEq)]
pub struct GitSummary {
    pub branch: Option<String>,
    pub head: Option<String>,
    pub dirty: bool,
    /// The default branch of `origin`, where it is configured.
    pub default_branch: Option<String>,
}

/// Persisted Issue Source selected for a Project.
#[derive(Clone, Debug, Eq, PartialEq)]
pub struct IssueSource {
    pub kind: String,
    pub locator: String,
}

/// Request body for deliberately enabling or switching a Project Issue Source.
#[derive(Clone, Debug, Eq, PartialEq)]
pub struct EnableIssueSourceRequest {
    pub kind: String,
    pub locator: String,
}

/// Advisory Issue Source candidate discovered from Project evidence.
#[derive(Clone, Debug, Eq, PartialEq)]
pub struct IssueSourceCandidate {
    pub kind: String,
    pub locator: String,
    pub enabled: bool,
}

/// Manual sync result for the enabled Issue Source.
#[derive(Clone, Debug, Eq, PartialEq)]
pub struct IssueSourceSyncResponse {
    pub source: IssueSource,
    pub last_successful_sync_at: Option<String>,
    pub last_failure: Option<String>,
}

/// Current sync status for the enabled Issue Source.
#[derive(Clone, Debug, Eq, PartialEq)]
pub struct IssueSourceSyncStatusResponse {
    pub source: IssueSource,
    pub last_successful_sync_at: Option<String>,
    pub last_failure: Option<String>,
}

/// Persisted cache of normalized Source Issues from an Issue Source.
#[derive(Clone, Debug, Eq, PartialEq)]
pub struct PlanningSnapshotResponse {
    pub source: IssueSource,
    pub last_successful_sync_at: Option<String>,
    pub last_failure: Option<String>,
    pub non_ready: Vec<SourceIssueSnapshot>,
    pub dependency_blocked: Vec<SourceIssueSnapshot>,
    pub active: Vec<SourceIssueSnapshot>,
    pub completed: Vec<SourceIssueSnapshot>,
    pub eligible: Vec<SourceIssueSnapshot>,
    /// Source Issues that an operator has marked as parent issues. They stand
    /// in none of the lists above.
    pub prd_overrides: Vec<SourceIssueSnapshot>,
}

/// Normalized scheduling metadata plus preserved raw Source Issue text.
#[derive(Clone, Debug, Eq, PartialEq)]
pub struct SourceIssueSnapshot {
    pub source_id: String,
    pub title: String,
    pub readiness: String,
    pub lifecycle_status: String,
    pub parent_issue: Option<String>,
    pub issue_dependencies: Vec<String>,
    pub source_order: i64,
    pub raw_text: String,
}

/// Fine-grained execution state of one Issue Assignment inside its Plan Run.
/// `MergeStaged` stands between `Merging` and `Merged`: the work is integrated
/// locally and verified, and the Integration Branch is not pushed yet.
#[derive(Clone, Copy, Debug, Eq, Hash, PartialEq, Structural)]
pub enum AssignmentStatusKind {
    Implementing,
    Implemented,
    Reviewed,
    Merging,
    MergeStaged,
    Merged,
    Blocked,
}

impl AssignmentStatusKind {
    /// The stored form of the status.
    pub open spec fn wire(self) -> Seq<char> {
        match self {
            AssignmentStatusKind::Implementing => "implementing"@,
            AssignmentStatusKind::Implemented => "implemented"@,
            AssignmentStatusKind::Reviewed => "reviewed"@,
            AssignmentStatusKind::Merging => "merging"@,
            AssignmentStatusKind::MergeStaged => "merge_staged"@,
            AssignmentStatusKind::Merged => "merged"@,
            AssignmentStatusKind::Blocked => "blocked"@,
        }
    }

    /// The stored form of the status.
    pub fn as_wire(self) -> (text: &'static str)
        ensures
            text@ == self.wire(),
    {
        match self {
            AssignmentStatusKind::Implementing => "implementing",
            AssignmentStatusKind::Implemented => "implemented",
            AssignmentStatusKind::Reviewed => "reviewed",
            AssignmentStatusKind::Merging => "merging",
            AssignmentStatusKind::MergeStaged => "merge_staged",
            AssignmentStatusKind::Merged => "merged",
            AssignmentStatusKind::Blocked => "blocked",
        }
    }
}

/// Two statuses with the same stored form are the same status.
pub proof fn law_assignment_status_wire_is_injective(
    a: AssignmentStatusKind,
    b: AssignmentStatusKind,
)
    requires
        a.wire() == b.wire(),
    ensures
        a == b,
{
    reveal_strlit("implementing");
    reveal_strlit("implemented");
    reveal_strlit("reviewed");
    reveal_strlit("merging");
    reveal_strlit("merge_staged");
    reveal_strlit("merged");
    reveal_strlit("blocked");
    assert("implementing"@[9] != "implemented"@[9]);
    assert("implementing"@[0] != "merge_staged"@[0]);
    assert("implementing"@.len() == 12 && "implemented"@.len() == 11 && "reviewed"@.len() == 8);
    assert("merging"@.len() == 7 && "merge_staged"@.len() == 12 && "merged"@.len() == 6);
    assert("blocked"@.len() == 7 && "blocked"@[0] != "merging"@[0]);
}

/// Durable view of one Issue Assignment.
#[derive(Clone, Debug, Eq, PartialEq)]
pub struct IssueAssignmentResponse {
    pub id: String,
    pub project_id: ProjectId,
    pub source_id: String,
    pub source_title: String,
    pub branch: String,
    pub worktree_path: String,
    pub status: String,
    pub status_detail: Option<String>,
    pub latest_attempt: Option<AssignmentAttemptResponse>,
    /// The Plan Run that owns the assignment.
    pub plan_run_id: Option<String>,
    /// Why the planner selected the Source Issue.
    pub selection_summary: Option<String>,
    /// The implementation and review outputs of the assignment, oldest first.
    pub phase_outputs: Vec<PhaseOutputResponse>,
    /// How many reviews rejected the assignment.
    pub review_rejection_count: i64,
    /// Why the assignment is blocked.
    pub block_reason: Option<BlockReasonResponse>,
}

/// Typed cause of a blocked Issue Assignment.
#[derive(Clone, Copy, Debug, Eq, Hash, PartialEq, Structural)]
pub enum BlockReason {
    /// The Review Loop reached the Project's Review Retry Limit.
    ReviewRetryLimitExhausted,
    /// The Merge Phase could not reach a successful merge.
    MergePhaseFailed,
    /// A push of staged work was rejected because the Integration Branch has
    /// diverged.
    PushNonFastForward,
    /// The operator abandoned staged work.
    AbandonedStaged,
    /// The orchestrator restarted while a phase of the assignment was running.
    OrchestratorRestart,
}

impl BlockReason {
    /// The stored form of the reason.
    pub open spec fn wire(self) -> Seq<char> {
        match self {
            BlockReason::ReviewRetryLimitExhausted => "review_retry_limit_exhausted"@,
            BlockReason::MergePhaseFailed => "merge_phase_failed"@,
            BlockReason::PushNonFastForward => "push_non_fast_forward"@,
            BlockReason::AbandonedStaged => "abandoned_staged"@,
            BlockReason::OrchestratorRestart => "orchestrator_restart"@,
        }
    }

    /// The stored form of the reason.
    pub fn as_wire(self) -> (text: &'static str)
        ensures
            text@ == self.wire(),
    {
        match self {
            BlockReason::ReviewRetryLimitExhausted => "review_retry_limit_exhausted",
            BlockReason::MergePhaseFailed => "merge_phase_failed",
            BlockReason::PushNonFastForward => "push_non_fast_forward",
            BlockReason::AbandonedStaged => "abandoned_staged",
            BlockReason::OrchestratorRestart => "orchestrator_restart",
        }
    }

    /// The reason with the stored form `value`, where there is one.
    pub fn from_wire(value: &str) -> (reason: Option<BlockReason>)
        ensures
            match reason {
                Some(reason) => reason.wire() == value@,
                None => forall|reason: BlockReason| #[trigger] reason.wire() != value@,
            },
    {
        if same_text(value, "review_retry_limit_exhausted") {
            Some(BlockReason::ReviewRetryLimitExhausted)
        } else if same_text(value, "merge_phase_failed") {
            Some(BlockReason::MergePhaseFailed)
        } else if same_text(value, "push_non_fast_forward") {
            Some(BlockReason::PushNonFastForward)
        } else if same_text(value, "abandoned_staged") {
            Some(BlockReason::AbandonedStaged)
        } else if same_text(value, "orchestrator_restart") {
            Some(BlockReason::OrchestratorRestart)
        } else {
            None
        }
    }
}

/// Two reasons with the same stored form are the same reason: reading a stored
/// reason gives back the one that was written.
pub proof fn law_block_reason_wire_is_injective(a: BlockReason, b: BlockReason)
    requires
        a.wire() == b.wire(),
    ensures
        a == b,
{
    reveal_strlit("review_retry_limit_exhausted");
    reveal_strlit("merge_phase_failed");
    reveal_strlit("push_non_fast_forward");
    reveal_strlit("abandoned_staged");
    reveal_strlit("orchestrator_restart");
    assert("review_retry_limit_exhausted"@.len() == 28);
    assert("merge_phase_failed"@.len() == 18);
    assert("push_non_fast_forward"@.len() == 21);
    assert("abandoned_staged"@.len() == 16);
    assert("orchestrator_restart"@.len() == 20);
}

/// Structured Block Reason of an Issue Assignment.
#[derive(Clone, Debug, Eq, PartialEq)]
pub struct BlockReasonResponse {
    pub kind: BlockReason,
    pub detail: Option<String>,
}

/// Result of a retried push. `block_reason` is present exactly when `status`
/// is `blocked`.
#[derive(Clone, Debug, Eq, PartialEq)]
pub struct RetryPushResponse {
    pub status: String,
    pub block_reason: Option<BlockReasonResponse>,
}

/// Request to abandon staged work, with an optional note.
#[derive(Clone, Debug, Eq, PartialEq)]
pub struct AbandonStagedRequest {
    pub note: Option<String>,
}

impl Default for AbandonStagedRequest {
    fn default() -> (request: AbandonStagedRequest)
        ensures
            request.note is None,
    {
        AbandonStagedRequest { note: None }
    }
}

/// Result of abandoning staged work.
#[derive(Clone, Debug, Eq, PartialEq)]
pub struct AbandonStagedResponse {
    pub status: String,
    pub block_reason: Option<BlockReasonResponse>,
}

/// Whether the Issue Source acknowledged a write-back.
#[derive(Clone, Debug, Eq, PartialEq)]
pub struct WritebackOutcomeResponse {
    pub ok: bool,
    pub error: Option<String>,
}

/// Both halves of re-enabling a Source Issue.
#[derive(Clone, Debug, Eq, PartialEq)]
pub struct ReEnableSourceIssueResponse {
    pub local_cleared: bool,
    pub writeback: WritebackOutcomeResponse,
}

/// Per-Project execution configuration consumed by Plan Runs.
#[derive(Clone, Debug, Eq, PartialEq)]
pub struct ProjectExecutionConfigResponse {
    pub integration_branch: String,
    pub max_parallel_tasks: i64,
    pub review_retry_limit: i64,
}

/// Request body for setting the Project Execution Config.
#[derive(Clone, Debug, Eq, PartialEq)]
pub struct SetProjectExecutionConfigRequest {
    pub integration_branch: String,
    pub max_parallel_tasks: i64,
    pub review_retry_limit: i64,
}

/// The two lifecycle states of a Plan Run row.
#[derive(Clone, Copy, Debug, Eq, Hash, PartialEq, Structural)]
pub enum PlanRunState {
    Running,
    Finished,
}

impl PlanRunState {
    /// The stored form of the state.
    pub open spec fn wire(self) -> Seq<char> {
        match self {
            PlanRunState::Running => "running"@,
            PlanRunState::Finished => "finished"@,
        }
    }

    /// The stored form of the state.
    pub fn as_wire(self) -> (text: &'static str)
        ensures
            text@ == self.wire(),
    {
        match self {
            PlanRunState::Running => "running",
            PlanRunState::Finished => "finished",
        }
    }
}

/// What an active Plan Run is doing.
#[derive(Clone, Copy, Debug, Eq, PartialEq, Structural)]
pub enum PlanRunStage {
    Planning,
    Implementing,
    Reviewing,
    Merging,
    Pushing,
}

/// One Plan Run: a Planning Phase and the parallel issue work that it selects.
#[derive(Clone, Debug, Eq, PartialEq)]
pub struct PlanRunResponse {
    pub id: String,
    pub project_id: ProjectId,
    pub integration_branch: String,
    pub baseline_commit: String,
    pub state: String,
    pub started_at: String,
    pub finished_at: Option<String>,
    pub phase_outputs: Vec<PhaseOutputResponse>,
    /// The Issue Assignments that the Planning Phase selected.
    pub assignments: Vec<IssueAssignmentResponse>,
}

/// Whether replanning starts by itself.
#[derive(Clone, Copy, Debug, Eq, PartialEq, Structural)]
pub enum AutoReplanState {
    Off,
    Armed,
    Paused,
}

/// Why replanning is paused.
#[derive(Clone, Copy, Debug, Eq, PartialEq, Structural)]
pub enum PauseReason {
    EmptyBacklog,
    AssignmentBlocked,
    PushNonFastForward,
    MergeStagedLeft,
    PlanningFailed,
    SyncFailed,
}

/// Typed Phase Output body of a Plan Run or Issue Assignment.
#[derive(Clone, Debug, Eq, PartialEq)]
pub enum PhaseOutputBody {
    /// One selection per Planned Claim, the planner's rationale, and what the
    /// planner considered and declined.
    Planning {
        selections: Vec<PlanningSelection>,
        summary: String,
        rejected_candidates: Vec<RejectedPlanningCandidate>,
    },
    /// The commits, the verification transcript, the open items and a one-line
    /// summary of an implementation pass.
    Implementation {
        commits: Vec<String>,
        verification: Vec<String>,
        gaps: Vec<String>,
        summary: String,
    },
    /// The findings of a review pass, with its transcript, gaps and summary.
    Review {
        findings: Vec<ReviewFinding>,
        verification: Vec<String>,
        gaps: Vec<String>,
        summary: String,
    },
    /// The Source Issues that a merge pass integrated. `block_reason` is set
    /// only where the merge could not finish safely.
    Merge {
        merged_source_ids: Vec<String>,
        verification: Vec<String>,
        gaps: Vec<String>,
        summary: String,
        block_reason: Option<String>,
    },
    /// One push of the Integration Branch; `attempt` counts from one.
    Push { stderr: String, fast_forward: bool, attempt: u32 },
    /// A failure of any phase.
    Failed { error: String, problem_type: Option<String> },
}

/// One Planned Claim inside a [`PhaseOutputBody::Planning`].
#[derive(Clone, Debug, Eq, PartialEq)]
pub struct PlanningSelection {
    pub source_issue_id: String,
    pub title: String,
    pub branch: String,
    pub selection_summary: String,
}

/// One Source Issue that the planner considered and declined.
#[derive(Clone, Debug, Eq, PartialEq)]
pub struct RejectedPlanningCandidate {
    pub source_issue_id: String,
    pub reason: String,
}

/// One finding inside a [`PhaseOutputBody::Review`].
#[derive(Clone, Debug, Eq, PartialEq)]
pub struct ReviewFinding {
    pub location: Option<String>,
    pub message: String,
}

impl PhaseOutputBody {
    /// The name of the variant in a stored body.
    pub open spec fn tag(&self) -> Seq<char> {
        match self {
            PhaseOutputBody::Planning { .. } => "planning"@,
            PhaseOutputBody::Implementation { .. } => "implementation"@,
            PhaseOutputBody::Review { .. } => "review"@,
            PhaseOutputBody::Merge { .. } => "merge"@,
            PhaseOutputBody::Push { .. } => "push"@,
            PhaseOutputBody::Failed { .. } => "failed"@,
        }
    }

    /// The name of the variant in a stored body.
    pub fn phase_tag(&self) -> (text: &'static str)
        ensures
            text@ == self.tag(),
    {
        match self {
            PhaseOutputBody::Planning { .. } => "planning",
            PhaseOutputBody::Implementation { .. } => "implementation",
            PhaseOutputBody::Review { .. } => "review",
            PhaseOutputBody::Merge { .. } => "merge",
            PhaseOutputBody::Push { .. } => "push",
            PhaseOutputBody::Failed { .. } => "failed",
        }
    }
}

/// One durable phase result of a Plan Run or Issue Assignment.
#[derive(Clone, Debug, Eq, PartialEq)]
pub struct PhaseOutputResponse {
    pub phase: String,
    pub outcome: String,
    pub body_json: JsonDocument,
    pub recorded_at: String,
    /// The Issue Assignment of an implementation, review or merge pass.
    pub assignment_id: Option<String>,
}

/// One agent execution pass within an Issue Assignment.
#[derive(Clone, Debug, Eq, PartialEq)]
pub struct AssignmentAttemptResponse {
    pub id: String,
    pub kind: String,
    pub process_id: Option<u32>,
    pub process_identity: Option<String>,
    pub terminal_outcome: Option<AssignmentTerminalOutcome>,
}

/// Structured terminal outcome reported by the agent.
#[derive(Clone, Debug, Eq, PartialEq)]
pub struct AssignmentTerminalOutcome {
    pub outcome: String,
    pub summary: String,
}

/// A required check that failed on a Change Proposal.
#[derive(Clone, Debug, Eq, PartialEq)]
pub struct FailedCheckFact {
    pub name: String,
    pub url: Option<String>,
    pub summary: Option<String>,
}

/// One Project Activity entry.
#[derive(Clone, Debug, Eq, PartialEq)]
pub struct ProjectActivityEntryResponse {
    pub id: String,
    pub project_id: String,
    pub assignment_id: Option<String>,
    pub kind: String,
    pub detail: Option<String>,
    pub recorded_at: String,
}

/// The Project state with which the dashboard starts.
#[derive(Clone, Debug, Eq, PartialEq)]
pub struct ProjectSnapshot {
    pub project: ProjectResponse,
    pub planning_snapshot: Option<PlanningSnapshotResponse>,
    pub activity: Vec<ProjectActivityEntryResponse>,
    pub issue_source_candidates: Vec<IssueSourceCandidate>,
    pub execution_config: Option<ProjectExecutionConfigResponse>,
    /// The Project's Plan Run in progress.
    pub active_plan_run: Option<PlanRunResponse>,
    /// Finished Plan Runs, newest first.
    pub recent_plan_runs: Vec<PlanRunResponse>,
}

/// A snapshot with the sequence number of the last event that it reflects.
#[derive(Clone, Debug, Eq, PartialEq)]
pub struct ProjectSnapshotResponse {
    pub snapshot: ProjectSnapshot,
    pub sequence: u64,
}

/// Typed delta pushed to the dashboard.
#[derive(Clone, Debug, Eq, PartialEq)]
pub enum ProjectEvent {
    Activity(ProjectActivityEntryResponse),
    AssignmentCreated(IssueAssignmentResponse),
    AssignmentStatusChanged(IssueAssignmentResponse),
    AssignmentAttemptAdded { assignment_id: String, attempt: AssignmentAttemptResponse },
    PlanRunStarted(PlanRunResponse),
    PlanRunPhaseCompleted { plan_run_id: String, phase_output: PhaseOutputResponse },
    PlanRunCompleted(PlanRunResponse),
    ProjectExecutionConfigChanged(ProjectExecutionConfigResponse),
    PlanningSnapshotChanged { snapshot: Option<PlanningSnapshotResponse> },
    IssueSourceSyncStarted,
    IssueSourceSyncCompleted(IssueSourceSyncResponse),
    IssueSourceSyncFailed { error: String },
    IssueSourceCandidatesChanged { candidates: Vec<IssueSourceCandidate> },
    ProjectChanged(ProjectResponse),
    /// The client has missed events and must fetch a snapshot.
    Resync,
}

/// RFC 7807 error response.
#[derive(Clone, Debug, Eq, PartialEq)]
pub struct ProblemDetail {
    pub problem_type: String,
    pub title: String,
    pub status: u16,
    pub detail: String,
}

/// A copy of an Issue Source.
pub fn copy_issue_source(source: &IssueSource) -> (copy: IssueSource)
    ensures
        copy == *source,
{
    IssueSource { kind: source.kind.clone(), locator: source.locator.clone() }
}

/// A copy of a Git summary.
pub fn copy_git_summary(summary: &GitSummary) -> (copy: GitSummary)
    ensures
        copy == *summary,
{
    GitSummary {
        branch: clone_option(&summary.branch),
        head: clone_option(&summary.head),
        dirty: summary.dirty,
        default_branch: clone_option(&summary.default_branch),
    }
}

} // verus!
