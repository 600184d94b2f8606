use agentic_afk::assignment_loop as review_cycle;
use agentic_afk::assignment_loop::{LoopAction, LoopConfig, LoopEvent};
use agentic_afk::contracts::{
    BlockReason, IssueAssignmentResponse, IssueSource, PlanRunResponse,
    ProjectExecutionConfigResponse, ProjectId, ProjectResponse, SourceIssueSnapshot,
};
use agentic_afk::coordinator::{
    claim_order, instruction_file_names, join_task, load_project_instructions, merge_items,
    resolve_deps_for_project, AssignmentBatchOutcome, EventPublisher, GitSeam, LifecycleSeam,
    NoopEventPublisher, PhaseSeam, PlanRunDeps, PlanRunInputs, RefresherSeam, TaskJoin,
};
use agentic_afk::json::{Json, JsonDocument};
use agentic_afk::lifecycle::LifecycleWrite;
use agentic_afk::merge_driver as merging;
use agentic_afk::merge_driver::{MergeAction, MergeEvent, MergeItem};
use agentic_afk::merge_phase::AssignmentMergeOutcome;
use agentic_afk::plan_run::{
    failure_body, LifecycleStatus, PhaseRecord, PlanRunPhaseError, RefreshedBaseline,
};
use agentic_afk::plan_run_finalize::PlanRunTerminal;
use agentic_afk::plan_run_status::AssignmentStatus;
use agentic_afk::planning_driver as planning;
use agentic_afk::planning_driver::{PlanningAction, PlanningEvent};
use agentic_afk::problem::{CoordinatorError, PersistenceError, PersistenceErrorKind};

// --- The seams ---

fn test_project() -> ProjectResponse {
    ProjectResponse {
        id: ProjectId("p".to_string()),
        path: "/tmp/p".to_string(),
        trusted: true,
        git_summary: None,
        enabled_issue_source: Some(IssueSource {
            kind: "github".to_string(),
            locator: "owner/repo".to_string(),
        }),
    }
}

#[test]
fn resolve_deps_passes_through_when_production_binaries_unset() {
    let deps = PlanRunDeps::default_test_deps("/tmp/worktrees".to_string());
    let resolved = resolve_deps_for_project(&deps, &test_project());
    match &resolved.planner {
        PhaseSeam::Canned { stdout } => assert!(stdout.contains("<plan>")),
        other => panic!("expected the fake planner, got {other:?}"),
    }
    assert_eq!(resolved.lifecycle, LifecycleSeam::Fake);
    assert_eq!(resolved, deps);
}

#[test]
fn resolve_deps_swaps_in_production_codex_and_lifecycle_when_binaries_set() {
    let mut deps = PlanRunDeps::default_test_deps("/tmp/worktrees".to_string());
    deps.production_codex_binary = Some("/bin/true".to_string());
    deps.production_gh_binary = Some("gh".to_string());
    let resolved = resolve_deps_for_project(&deps, &test_project());
    match &resolved.lifecycle {
        LifecycleSeam::Gh(writer) => {
            assert_eq!(writer.gh_binary_path, "gh");
            let write = writer.plan_write("42", LifecycleStatus::Claimed);
            assert!(matches!(write, Ok(LifecycleWrite::Github { .. })));
            let result = writer.result(Err("No such file or directory".to_string()));
            assert!(
                result.is_err(),
                "production lifecycle writer should surface gh failure, got {result:?}",
            );
        }
        other => panic!("expected the production writer, got {other:?}"),
    }
    assert_eq!(
        resolved.planner,
        PhaseSeam::Codex { binary: "/bin/true".to_string(), project_path: "/tmp/p".to_string() }
    );
    assert_eq!(resolve_deps_for_project(&resolved, &test_project()), resolved);
}

#[test]
fn production_seams_wait_for_their_project() {
    let deps = PlanRunDeps::production("wt".to_string(), "codex".to_string(), "gh".to_string());
    assert_eq!(deps.planner, PhaseSeam::Unimplemented);
    assert_eq!(deps.refresher, RefresherSeam::Git);
    assert_eq!(deps.pusher, GitSeam::Git);
    let mut project = test_project();
    project.enabled_issue_source = None;
    let resolved = resolve_deps_for_project(&deps, &project);
    assert_eq!(resolved.lifecycle, LifecycleSeam::Unimplemented);
    assert_eq!(PlanRunDeps::unimplemented().production_gh_binary, None);
}

#[test]
fn first_readable_instructions_are_taken() {
    assert_eq!(
        instruction_file_names("OWN.md".to_string()),
        ["AGENTS.md", "OWN.md", "PROJECT.md"]
    );
    let files = |first: Option<&str>, second: Option<&str>, third: Option<&str>| {
        load_project_instructions(
            [first, second, third].into_iter().map(|text| text.map(str::to_string)).collect(),
        )
    };
    assert_eq!(files(Some("a"), Some("c"), Some("p")), "a");
    assert_eq!(files(None, Some("c"), Some("p")), "c");
    assert_eq!(files(None, None, Some("p")), "p");
    assert_eq!(files(None, None, None), "");
}

#[test]
fn inputs_know_their_project() {
    let inputs = PlanRunInputs::new(
        test_project(),
        plan_run(),
        RefreshedBaseline { commit_sha: "abc".to_string() },
        config(),
        vec![None, Some("be kind".to_string()), None],
    );
    assert_eq!(inputs.project_id(), "p");
    assert_eq!(inputs.project_instructions, "be kind");
    let publisher = NoopEventPublisher;
    publisher.plan_run_started("p", plan_run());
    publisher.record_activity("p", None, "kind", None);
}

fn config() -> ProjectExecutionConfigResponse {
    ProjectExecutionConfigResponse {
        integration_branch: "main".to_string(),
        max_parallel_tasks: 2,
        review_retry_limit: 2,
    }
}

fn plan_run() -> PlanRunResponse {
    PlanRunResponse {
        id: "pr".to_string(),
        project_id: ProjectId("p".to_string()),
        integration_branch: "main".to_string(),
        baseline_commit: "abc".to_string(),
        state: "running".to_string(),
        started_at: "unix:1".to_string(),
        finished_at: None,
        phase_outputs: vec![],
        assignments: vec![],
    }
}

// --- The batch ---

fn assignment(id: &str) -> IssueAssignmentResponse {
    IssueAssignmentResponse {
        id: id.to_string(),
        project_id: ProjectId("p".to_string()),
        source_id: id.to_string(),
        source_title: "t".to_string(),
        branch: "b".to_string(),
        worktree_path: if id == "a" { String::new() } else { "/w".to_string() },
        status: "reviewed".to_string(),
        status_detail: None,
        latest_attempt: None,
        plan_run_id: None,
        selection_summary: None,
        phase_outputs: vec![],
        review_rejection_count: 0,
        block_reason: None,
    }
}

fn document(text: &str) -> JsonDocument {
    JsonDocument::parse(text).unwrap()
}

#[test]
fn batch_comes_back_in_the_order_of_its_claims() {
    let claimed = vec![assignment("a"), assignment("b"), assignment("c")];
    let done = |id: &str, reviewed: bool| AssignmentBatchOutcome {
        assignment: assignment(id),
        review_body: if reviewed { Some(document("{}")) } else { None },
    };
    let completed = vec![done("c", true), done("a", false), done("b", true)];
    let order = claim_order(&claimed, &completed);
    assert_eq!(order, [1, 2, 0]);
    let items = merge_items(&completed);
    assert_eq!(
        items,
        [
            MergeItem { has_review: true, has_worktree: true },
            MergeItem { has_review: false, has_worktree: false },
            MergeItem { has_review: true, has_worktree: true },
        ]
    );
}

#[test]
fn a_task_that_panicked_is_an_error() {
    let error = join_task(TaskJoin::Panicked { error: "task 7 panicked".to_string() });
    assert!(error.unwrap_err().detail.contains("task 7 panicked"));
    assert_eq!(join_task(TaskJoin::Ended(Ok(None))), Ok(None));
}

// --- Implementation and review ---

/// Run the loop with canned phase outputs; the transitions, and the result.
fn run_loop(
    limit: i64,
    implementations: &[&str],
    reviews: &[&str],
) -> (Vec<AssignmentStatus>, Vec<LifecycleStatus>, Result<Option<JsonDocument>, CoordinatorError>) {
    let config = || LoopConfig { review_retry_limit: limit, has_issue_source: true };
    let mut implementations = implementations.iter();
    let mut reviews = reviews.iter();
    let mut rejections: i64 = 0;
    let mut statuses = Vec::new();
    let mut written = Vec::new();
    let (mut stage, mut action) = review_cycle::start();
    loop {
        let event = match action {
            LoopAction::LoadSourceText => LoopEvent::Stored(Ok(())),
            LoopAction::Transition { status } => {
                statuses.push(status);
                LoopEvent::Stored(Ok(()))
            }
            LoopAction::RunImplementation { .. } => {
                LoopEvent::Ran(Ok(implementations.next().unwrap().to_string()))
            }
            LoopAction::RunReview { .. } => {
                LoopEvent::Ran(Ok(reviews.next().unwrap().to_string()))
            }
            LoopAction::RecordOutput { .. } => LoopEvent::Stored(Ok(())),
            LoopAction::IncrementRejection => {
                rejections += 1;
                LoopEvent::Counted(Ok(rejections))
            }
            LoopAction::WriteLifecycle { status } => {
                written.push(status);
                LoopEvent::Written(Err(PlanRunPhaseError::LifecycleWrite("down".to_string())))
            }
            LoopAction::RecordActivity { kind, detail } => {
                assert_eq!(kind, "lifecycle_writeback_failed");
                assert!(detail.contains("down"));
                LoopEvent::Noted
            }
            LoopAction::RecordFailure { .. } | LoopAction::MarkBlocked { .. } => LoopEvent::Noted,
            LoopAction::Finish { result } => return (statuses, written, result),
        };
        assert!(review_cycle::is_awaited(&stage, &event));
        let next = review_cycle::step(config(), stage, event);
        stage = next.0;
        action = next.1;
    }
}

const READY: &str = "<impl>{\"outcome\":\"ready_for_review\"}</impl>";
const APPROVED: &str = "<review>{\"outcome\":\"approved\"}</review>";
const REJECTED: &str = "<review>{\"outcome\":\"rejected\",\"findings\":[\"fix\"]}</review>";

#[test]
fn approved_work_is_reviewed() {
    let (statuses, _, result) = run_loop(2, &[READY, READY], &[REJECTED, APPROVED]);
    assert_eq!(
        statuses,
        [
            AssignmentStatus::Implementing,
            AssignmentStatus::Implemented,
            AssignmentStatus::Implementing,
            AssignmentStatus::Implemented,
            AssignmentStatus::Reviewed,
        ]
    );
    assert_eq!(result.unwrap().unwrap(), document("{\"outcome\":\"approved\"}"));
}

#[test]
fn work_that_stays_rejected_is_blocked() {
    let (statuses, written, result) = run_loop(2, &[READY, READY], &[REJECTED, REJECTED]);
    assert!(matches!(
        statuses.last(),
        Some(AssignmentStatus::Blocked { kind: BlockReason::ReviewRetryLimitExhausted, .. })
    ));
    assert_eq!(written, [LifecycleStatus::Blocked]);
    assert_eq!(result, Ok(None));
}

#[test]
fn no_more_passes_than_the_limit_allows() {
    for limit in [-1, 0, 1, 2, 4] {
        let (statuses, _, result) = run_loop(limit, &[READY; 8], &[REJECTED; 8]);
        let passes =
            statuses.iter().filter(|status| **status == AssignmentStatus::Implementing).count();
        assert_eq!(passes as i64, limit.max(1));
        assert_eq!(result, Ok(None));
    }
}

#[test]
fn unreadable_implementation_fails() {
    let (_, _, result) = run_loop(2, &["no tags"], &[]);
    assert_eq!(
        result.unwrap_err().problem_type,
        "urn:agentic-afk:implementation-output-unparseable"
    );
}

// --- Merging ---

#[derive(Default)]
struct Merged {
    statuses: Vec<(usize, AssignmentStatus)>,
    completed: Vec<usize>,
    cleaned: Vec<usize>,
    pushes: usize,
    terminal: Option<PlanRunTerminal>,
    outcomes: Vec<AssignmentMergeOutcome>,
    failures: Vec<(usize, PhaseRecord)>,
}

fn run_merges(
    items: Vec<MergeItem>,
    outputs: &[Result<&str, PlanRunPhaseError>],
    push: Result<(), PlanRunPhaseError>,
) -> (Merged, Result<(), CoordinatorError>) {
    let mut merged = Merged::default();
    let mut outputs = outputs.iter();
    let (mut run, mut action) = merging::start(items, true);
    loop {
        let event = match action {
            MergeAction::Transition { item, status } => {
                merged.statuses.push((item, status));
                MergeEvent::Stored(Ok(()))
            }
            MergeAction::RunMerge { .. } => {
                MergeEvent::Ran(outputs.next().unwrap().clone().map(str::to_string))
            }
            MergeAction::RecordOutput { record, .. } => {
                assert_eq!(record.phase, "merge");
                MergeEvent::Stored(Ok(()))
            }
            MergeAction::RecordFailure { item, record } => {
                merged.failures.push((item, record));
                MergeEvent::Noted
            }
            MergeAction::RecordActivity { .. } => MergeEvent::Noted,
            MergeAction::WriteLifecycle { item, status } => {
                if status == LifecycleStatus::Completed {
                    merged.completed.push(item);
                }
                MergeEvent::Written(Ok(()))
            }
            MergeAction::Push => {
                merged.pushes += 1;
                MergeEvent::Pushed(push.clone())
            }
            MergeAction::Cleanup { item } => {
                merged.cleaned.push(item);
                MergeEvent::Noted
            }
            MergeAction::FinishPlanRun { terminal } => {
                merged.terminal = Some(terminal);
                MergeEvent::Stored(Ok(()))
            }
            MergeAction::ReloadPlanRun => MergeEvent::Stored(Ok(())),
            MergeAction::Finish { result } => {
                merged.outcomes = run.outcomes;
                return (merged, result);
            }
        };
        assert!(merging::is_awaited(&run.stage, &event));
        let next = merging::step(run, event);
        run = next.0;
        action = next.1;
    }
}

const MERGED: &str = "<merge>{\"outcome\":\"merged\"}</merge>";
const CONFLICT: &str = "<merge>{\"outcome\":\"blocked\",\"block_reason\":\"conflict\"}</merge>";

fn item(has_review: bool) -> MergeItem {
    MergeItem { has_review, has_worktree: true }
}

#[test]
fn merged_work_is_pushed_once_and_completed() {
    let (merged, result) = run_merges(
        vec![item(true), item(false), item(true), item(true)],
        &[Ok(MERGED), Ok(CONFLICT), Ok(MERGED)],
        Ok(()),
    );
    assert_eq!(result, Ok(()));
    assert_eq!(merged.pushes, 1);
    assert_eq!(merged.completed, [0, 3]);
    assert_eq!(merged.terminal, Some(PlanRunTerminal::Succeeded));
    assert_eq!(merged.outcomes[1], AssignmentMergeOutcome::NotAttempted);
    assert_eq!(
        merged.outcomes[2],
        AssignmentMergeOutcome::Blocked { reason: "conflict".to_string() }
    );
    let promoted: Vec<usize> = merged
        .statuses
        .iter()
        .filter(|(_, status)| *status == AssignmentStatus::Merged)
        .map(|(item, _)| *item)
        .collect();
    assert_eq!(promoted, [0, 3]);
}

#[test]
fn failed_push_leaves_the_work_staged() {
    let (merged, result) = run_merges(
        vec![item(true)],
        &[Ok(MERGED)],
        Err(PlanRunPhaseError::IntegrationPush("timeout".to_string())),
    );
    assert_eq!(result, Ok(()));
    assert_eq!(merged.terminal, Some(PlanRunTerminal::Failed));
    assert!(merged.completed.is_empty());
    assert!(merged.cleaned.is_empty());
    assert_eq!(merged.statuses.last().unwrap().1, AssignmentStatus::MergeStaged);
}

#[test]
fn nothing_merged_is_not_pushed() {
    let (merged, result) = run_merges(
        vec![item(true)],
        &[Err(PlanRunPhaseError::Merge("crashed".to_string()))],
        Ok(()),
    );
    assert_eq!(result, Ok(()));
    assert_eq!(merged.pushes, 0);
    assert_eq!(merged.terminal, Some(PlanRunTerminal::Failed));
    assert!(matches!(merged.outcomes[0], AssignmentMergeOutcome::Blocked { .. }));
    let error = PlanRunPhaseError::Merge("crashed".to_string()).message();
    assert_eq!(merged.failures, [(0, failed("merge", &error))]);
}

// --- Planning ---

fn issue(source_id: &str) -> SourceIssueSnapshot {
    SourceIssueSnapshot {
        source_id: source_id.to_string(),
        title: "t".to_string(),
        readiness: "ready".to_string(),
        lifecycle_status: "ready".to_string(),
        parent_issue: None,
        issue_dependencies: vec![],
        source_order: 0,
        raw_text: String::new(),
    }
}

#[derive(Default)]
struct Planned {
    created: Vec<usize>,
    placed: Vec<String>,
    released: Vec<usize>,
    outcome: Option<String>,
    terminal: Option<PlanRunTerminal>,
    closed: bool,
    tranche: bool,
    merges: bool,
}

fn run_planning(
    stdout: &str,
    worktrees: Result<&str, PlanRunPhaseError>,
) -> (Planned, Option<Result<(), CoordinatorError>>) {
    let mut planned = Planned::default();
    let (mut stage, mut action) = planning::start();
    loop {
        let event = match action {
            PlanningAction::LoadSnapshot => {
                PlanningEvent::Snapshot(Ok(vec![issue("1"), issue("2")]))
            }
            PlanningAction::RunPlanner { eligible } => {
                assert_eq!(eligible.len(), 2);
                PlanningEvent::Ran(Ok(stdout.to_string()))
            }
            PlanningAction::RecordFailure { .. } => PlanningEvent::Noted,
            PlanningAction::CloseFailed { terminal } => {
                assert_eq!(terminal, PlanRunTerminal::Failed);
                planned.closed = true;
                PlanningEvent::Noted
            }
            PlanningAction::RecordOutput { record } => {
                assert_eq!(record.phase, "planning");
                planned.outcome = Some(record.outcome);
                PlanningEvent::Stored(Ok(()))
            }
            PlanningAction::FinishPlanRun { terminal } => {
                planned.terminal = Some(terminal);
                PlanningEvent::Stored(Ok(()))
            }
            PlanningAction::LoadConfig => PlanningEvent::Config(Ok(Some(config()))),
            PlanningAction::CreateAssignment { claim } => {
                planned.created.push(claim);
                PlanningEvent::Stored(Ok(()))
            }
            PlanningAction::ProvisionWorktree { .. } => {
                PlanningEvent::Provisioned(worktrees.clone().map(str::to_string))
            }
            PlanningAction::SetWorktree { path, .. } => {
                planned.placed.push(path);
                PlanningEvent::Stored(Ok(()))
            }
            PlanningAction::WriteLifecycle { status, .. } => {
                assert_eq!(status, LifecycleStatus::Claimed);
                PlanningEvent::Written(Ok(()))
            }
            PlanningAction::ReleaseAssignment { claim } => {
                planned.released.push(claim);
                PlanningEvent::Noted
            }
            PlanningAction::RunTranche { config: used } => {
                assert_eq!(used, config());
                planned.tranche = true;
                PlanningEvent::TrancheEnded(Ok(()))
            }
            PlanningAction::Finish { result } => return (planned, Some(result)),
            PlanningAction::Merge => {
                planned.merges = true;
                return (planned, None);
            }
        };
        assert!(planning::is_awaited(&stage, &event));
        let next = planning::step(true, stage, event);
        stage = next.0;
        action = next.1;
    }
}

fn plan(ids: &[&str]) -> String {
    let issues: Vec<String> = ids
        .iter()
        .map(|id| format!("{{\"source_issue_id\":\"{id}\",\"title\":\"t\",\"branch\":\"b/{id}\",\"selection_summary\":\"s\"}}"))
        .collect();
    format!("<plan>{{\"issues\":[{}]}}</plan>", issues.join(","))
}

fn failed(phase: &'static str, error: &str) -> PhaseRecord {
    PhaseRecord { phase, outcome: "failed".to_string(), body: failure_body(error) }
}

#[test]
fn failure_body_holds_the_error() {
    let body = failure_body("no \"tag\"");
    assert_eq!(body.text, r#"{"error":"no \"tag\""}"#);
    assert_eq!(
        body.value,
        Json::Object(vec![("error".to_string(), Json::Text("no \"tag\"".to_string()))])
    );
    assert_eq!(PhaseRecord::failure("review", "e"), failed("review", "e"));
}

#[test]
fn failed_phases_are_stored_with_their_error() {
    let error = PlanRunPhaseError::LifecycleWrite("down".to_string());

    let (stage, _) = planning::start();
    let (stage, _) = planning::step(true, stage, PlanningEvent::Snapshot(Ok(vec![])));
    let (_, action) = planning::step(true, stage, PlanningEvent::Ran(Err(error.clone())));
    assert_eq!(
        action,
        PlanningAction::RecordFailure { record: failed("planning", &error.message()) }
    );

    let (stage, _) = review_cycle::start();
    let limits = || LoopConfig { review_retry_limit: 1, has_issue_source: true };
    let (stage, _) = review_cycle::step(limits(), stage, LoopEvent::Stored(Ok(())));
    let (stage, _) = review_cycle::step(limits(), stage, LoopEvent::Stored(Ok(())));
    let (stage, action) = review_cycle::step(limits(), stage, LoopEvent::Ran(Err(error.clone())));
    assert_eq!(
        action,
        LoopAction::RecordFailure { record: failed("implementation", &error.message()) }
    );
    let (_, action) = review_cycle::step(limits(), stage, LoopEvent::Noted);
    assert_eq!(action, LoopAction::MarkBlocked { status: "blocked", error: error.message() });
}

#[test]
fn claims_are_provisioned_and_worked_on() {
    let (planned, result) = run_planning(&plan(&["2", "1"]), Ok("/w"));
    assert_eq!(result, None);
    assert_eq!(planned.created, [0, 1]);
    assert_eq!(planned.placed, ["/w", "/w"]);
    assert_eq!(planned.outcome, Some("succeeded".to_string()));
    assert!(planned.tranche && planned.merges && !planned.closed);
}

#[test]
fn empty_plan_finishes_the_run() {
    let (planned, result) = run_planning(&plan(&[]), Ok("/w"));
    assert_eq!(result, Some(Ok(())));
    assert_eq!(planned.outcome, Some("succeeded_empty".to_string()));
    assert_eq!(planned.terminal, Some(PlanRunTerminal::SucceededEmpty));
    assert!(!planned.tranche);
}

#[test]
fn failed_claim_is_released_and_the_run_closed() {
    let (planned, result) = run_planning(
        &plan(&["1"]),
        Err(PlanRunPhaseError::WorktreeProvision("disk".to_string())),
    );
    assert_eq!(
        result.unwrap().unwrap_err().problem_type,
        "urn:agentic-afk:assignment-worktree-failed"
    );
    assert_eq!(planned.released, [0]);
    assert!(planned.closed);
}

#[test]
fn ineligible_selection_closes_the_run() {
    let (planned, result) = run_planning(&plan(&["9"]), Ok("/w"));
    let error = result.unwrap().unwrap_err();
    assert_eq!(error.status, 500);
    assert!(planned.closed && planned.created.is_empty());
}

#[test]
fn lost_configuration_read_ends_the_run() {
    let (stage, _) = planning::start();
    let (stage, _) = planning::step(true, stage, PlanningEvent::Snapshot(Ok(vec![issue("1")])));
    let (stage, _) = planning::step(true, stage, PlanningEvent::Ran(Ok(plan(&["1"]))));
    let (stage, action) =
        planning::step(true, stage, PlanningEvent::Snapshot(Ok(vec![issue("1")])));
    assert_eq!(action, PlanningAction::LoadConfig);
    let error = PersistenceError {
        kind: PersistenceErrorKind::Database,
        message: "disk".to_string(),
    };
    let (_, action) = planning::step(true, stage, PlanningEvent::Config(Err(error)));
    match action {
        PlanningAction::Finish { result: Err(error) } => assert_eq!(error.status, 500),
        other => panic!("expected Finish, got {other:?}"),
    }
}
