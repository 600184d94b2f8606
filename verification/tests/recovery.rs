use std::collections::BTreeMap;

use agentic_afk::boot_container_sweeper as sweeper;
use agentic_afk::boot_container_sweeper::{
    parse_container_list, CliDockerOps, SandboxContainer, SandboxSweepReport, SweepAction,
    SweepEvent,
};
use agentic_afk::boot_recovery_scanner as scanner;
use agentic_afk::boot_recovery_scanner::{
    InFlightPhaseRowSummary, RecoveryAction, RecoveryEvent, RecoveryReport,
    ACTIVITY_KIND_ASSIGNMENT_BLOCKED_ON_RESTART, PLAN_RUN_TERMINAL_FINISHED, RESTART_BLOCK_DETAIL,
};
use agentic_afk::command::CommandRun;
use agentic_afk::contracts::{BlockReason, PhaseOutputBody, PlanningSelection};
use agentic_afk::in_flight_phase_tracker as tracker;
use agentic_afk::in_flight_phase_tracker::{
    failed_body, PhaseLocator, PhaseRunResult, TrackAction, TrackEvent, TrackerError,
    UnwrittenEnd,
};
use agentic_afk::phase_body_format::Stored;
use agentic_afk::plan_run::{LifecycleStatus, PlanRunPhaseError};
use agentic_afk::problem::{PersistenceError, PersistenceErrorKind};
use agentic_afk::re_enable_source_issue as re_enable;
use agentic_afk::re_enable_source_issue::{ReEnableAction, ReEnableEvent, ReEnableOutcome};
use agentic_afk::sandbox::SandboxPhase;
use agentic_afk::shutdown_coordinator::{send_sigterm, sweep_in_flight, waits};

fn not_found() -> PersistenceError {
    PersistenceError { kind: PersistenceErrorKind::NotFound, message: "gone".to_string() }
}

fn broken() -> PersistenceError {
    PersistenceError { kind: PersistenceErrorKind::Database, message: "disk full".to_string() }
}

#[derive(Clone)]
struct Assignment {
    source_id: String,
    plan_run_id: String,
    status: String,
    block_reason: Option<BlockReason>,
}

/// The rows of a database, as far as recovery reads and writes them.
#[derive(Default)]
struct Rows {
    assignments: BTreeMap<String, Assignment>,
    plan_runs: BTreeMap<String, String>,
    in_flight: Vec<InFlightPhaseRowSummary>,
    activities: Vec<(String, String)>,
    published: Vec<String>,
    finished_published: Vec<String>,
}

impl Rows {
    fn with_assignment(status: &str) -> Rows {
        let mut rows = Rows::default();
        rows.plan_runs.insert("pr".to_string(), "running".to_string());
        rows.assignments.insert(
            "a".to_string(),
            Assignment {
                source_id: "issue-1".to_string(),
                plan_run_id: "pr".to_string(),
                status: status.to_string(),
                block_reason: None,
            },
        );
        rows
    }

    fn row(&mut self, assignment_id: Option<&str>, phase: &str) {
        let id = format!("row-{}", self.in_flight.len());
        self.in_flight.push(InFlightPhaseRowSummary {
            id,
            plan_run_id: "pr".to_string(),
            assignment_id: assignment_id.map(str::to_string),
            phase: phase.to_string(),
            outcome: "in_flight".to_string(),
            process_id: None,
        });
    }

    fn block(&mut self, id: &str, reason: BlockReason) -> String {
        let assignment = self.assignments.get_mut(id).unwrap();
        assignment.status = "blocked".to_string();
        assignment.block_reason = Some(reason);
        assignment.source_id.clone()
    }

    fn awaiting_recovery(&self) -> Vec<InFlightPhaseRowSummary> {
        self.in_flight
            .iter()
            .filter(|row| row.outcome == "in_flight" || row.outcome == "interrupted")
            .cloned()
            .collect()
    }
}

// --- Containers ---

#[derive(Default)]
struct Docker {
    killed: Vec<String>,
    removed: Vec<String>,
}

fn sweep(
    rows: &mut Rows,
    docker: &mut Docker,
    listed: Result<Vec<SandboxContainer>, String>,
) -> Result<SandboxSweepReport, PersistenceError> {
    let (mut state, mut action) = sweeper::start(listed);
    loop {
        let container = state.containers.get(state.at).cloned();
        let event = match action {
            SweepAction::Finish => return Ok(state.report),
            SweepAction::Fail { error } => return Err(error),
            SweepAction::ReadAssignment => {
                let id = container.unwrap().assignment_id.unwrap();
                match rows.assignments.get(&id) {
                    Some(found) => SweepEvent::AssignmentRead { status: found.status.clone() },
                    None => SweepEvent::AssignmentUnread { error: not_found() },
                }
            }
            SweepAction::ReadPlanRun => match rows.plan_runs.get(&container.unwrap().plan_run_id) {
                Some(found) => SweepEvent::PlanRunRead { state: found.clone() },
                None => SweepEvent::PlanRunUnread { error: not_found() },
            },
            SweepAction::Kill => {
                docker.killed.push(container.unwrap().name);
                SweepEvent::Killed { done: true }
            }
            SweepAction::Remove => {
                docker.removed.push(container.unwrap().name);
                SweepEvent::Removed { done: true }
            }
            SweepAction::Block { reason, detail } => {
                let container = container.unwrap();
                assert!(detail.contains(&container.name));
                rows.block(&container.assignment_id.unwrap(), reason);
                SweepEvent::Blocked
            }
            SweepAction::Publish { kind, detail } => {
                rows.activities.push((kind, detail));
                SweepEvent::Published
            }
        };
        assert!(sweeper::is_awaited(state.stage, &event));
        let next = sweeper::step(state, event);
        state = next.0;
        action = next.1;
    }
}

fn container(name: &str, phase: SandboxPhase, assignment_id: Option<&str>) -> SandboxContainer {
    SandboxContainer {
        name: name.to_string(),
        phase,
        plan_run_id: "pr".to_string(),
        assignment_id: assignment_id.map(str::to_string),
        project_id: None,
    }
}

#[test]
fn implementation_container_with_non_terminal_owner_is_killed_removed_and_assignment_blocked() {
    let mut rows = Rows::with_assignment("implementing");
    let mut docker = Docker::default();
    let name = "agentic-afk-assignment-a-implementation";
    let listed = vec![container(name, SandboxPhase::Implementation, Some("a"))];
    let report = sweep(&mut rows, &mut docker, Ok(listed)).unwrap();

    assert_eq!(report.containers_inspected, 1);
    assert_eq!(report.containers_killed, 1);
    assert_eq!(report.containers_removed, 1);
    assert_eq!(report.assignments_blocked, 1);
    assert!(docker.killed.contains(&name.to_string()));
    assert!(docker.removed.contains(&name.to_string()));

    let assignment = &rows.assignments["a"];
    assert_eq!(assignment.status, "blocked");
    assert_eq!(assignment.block_reason, Some(BlockReason::OrchestratorRestart));
    assert_eq!(
        rows.activities,
        vec![(
            ACTIVITY_KIND_ASSIGNMENT_BLOCKED_ON_RESTART.to_string(),
            format!("blocked on orchestrator restart during implementation phase (container={name})"),
        )]
    );
}

#[test]
fn container_with_terminal_owner_is_removed_without_db_transition() {
    let mut rows = Rows::with_assignment("merged");
    let mut docker = Docker::default();
    let listed = vec![container("agentic-afk-leftover", SandboxPhase::Review, Some("a"))];
    let report = sweep(&mut rows, &mut docker, Ok(listed)).unwrap();

    assert_eq!(report.containers_inspected, 1);
    assert_eq!(report.containers_killed, 0);
    assert_eq!(report.containers_removed, 1);
    assert_eq!(report.assignments_blocked, 0);
    assert!(docker.killed.is_empty());
    assert!(docker.removed.contains(&"agentic-afk-leftover".to_string()));
    assert_eq!(rows.assignments["a"].status, "merged");
}

#[test]
fn planning_container_is_killed_and_removed() {
    let mut rows = Rows::with_assignment("implementing");
    let mut docker = Docker::default();
    let listed = vec![container("agentic-afk-planning-pr", SandboxPhase::Planning, None)];
    let report = sweep(&mut rows, &mut docker, Ok(listed)).unwrap();

    assert_eq!(report.containers_killed, 1);
    assert_eq!(report.containers_removed, 1);
    assert!(docker.killed.contains(&"agentic-afk-planning-pr".to_string()));
}

#[test]
fn each_container_is_removed() {
    let mut rows = Rows::with_assignment("implementing");
    let mut docker = Docker::default();
    let listed = vec![
        container("one", SandboxPhase::Planning, None),
        container("two", SandboxPhase::Review, Some("a")),
        container("three", SandboxPhase::Merge, Some("gone")),
    ];
    let report = sweep(&mut rows, &mut docker, Ok(listed)).unwrap();
    assert_eq!(docker.removed, ["one", "two", "three"]);
    assert_eq!(docker.killed, ["one", "two"]);
    assert_eq!(report.containers_removed, 3);
    assert_eq!(report.assignments_blocked, 1);
}

#[test]
fn second_sweep_is_idempotent_no_double_block() {
    let mut rows = Rows::with_assignment("implementing");
    let name = "agentic-afk-assignment-a-implementation";
    let listed = vec![container(name, SandboxPhase::Implementation, Some("a"))];
    sweep(&mut rows, &mut Docker::default(), Ok(listed.clone())).unwrap();

    let report = sweep(&mut rows, &mut Docker::default(), Ok(listed)).unwrap();
    assert_eq!(report.assignments_blocked, 0, "no double block on rerun");
    assert_eq!(report.containers_removed, 1, "still removes leftover");
}

#[test]
fn docker_unavailable_returns_warn_report_without_db_writes() {
    let mut rows = Rows::with_assignment("implementing");
    let mut docker = Docker::default();
    let listed = Err("Cannot connect to the Docker daemon".to_string());
    let report = sweep(&mut rows, &mut docker, listed).unwrap();
    assert!(report.docker_unavailable);
    assert_eq!(report.containers_inspected, 0);
    assert_eq!(report.assignments_blocked, 0);
    assert_eq!(rows.assignments["a"].status, "implementing");
}

#[test]
fn orphaned_container_is_removed() {
    let mut rows = Rows::default();
    let mut docker = Docker::default();
    let listed = vec![
        container("one", SandboxPhase::Merge, Some("unknown")),
        container("two", SandboxPhase::Planning, None),
    ];
    let report = sweep(&mut rows, &mut docker, Ok(listed)).unwrap();
    assert_eq!(report.containers_removed, 2);
    assert!(docker.killed.is_empty());
}

#[test]
fn database_failure_ends_the_sweep() {
    let (state, action) =
        sweeper::start(Ok(vec![container("one", SandboxPhase::Merge, Some("a"))]));
    assert_eq!(action, SweepAction::ReadAssignment);
    let event = SweepEvent::AssignmentUnread { error: broken() };
    assert!(sweeper::is_awaited(state.stage, &event));
    assert!(!sweeper::is_awaited(state.stage, &SweepEvent::Published));
    let (_, action) = sweeper::step(state, event);
    assert_eq!(action, SweepAction::Fail { error: broken() });
}

#[test]
fn docker_failures_do_not_end_the_sweep() {
    let (state, _) = sweeper::start(Ok(vec![container("one", SandboxPhase::Merge, Some("a"))]));
    let (state, action) =
        sweeper::step(state, SweepEvent::AssignmentRead { status: "merging".to_string() });
    assert_eq!(action, SweepAction::Kill);
    let (state, action) = sweeper::step(state, SweepEvent::Killed { done: false });
    assert_eq!(action, SweepAction::Remove);
    let (state, action) = sweeper::step(state, SweepEvent::Removed { done: false });
    assert_eq!(action, SweepAction::ReadAssignment);
    let (state, action) =
        sweeper::step(state, SweepEvent::AssignmentRead { status: "merge_staged".to_string() });
    assert_eq!(action, SweepAction::Finish);
    assert_eq!(state.report.containers_killed, 0);
    assert_eq!(state.report.containers_removed, 0);
}

#[test]
fn container_listing_is_read_line_by_line() {
    let found = parse_container_list(
        "one\tpr-1\timplementation\ta-1\tp-1\n\ntwo\tpr-2\tplanning\t\t\nthree\tpr-3\tbaking\ta\tp\nfour\n",
    );
    assert_eq!(found.len(), 2);
    assert_eq!(found[0].name, "one");
    assert_eq!(found[0].phase, SandboxPhase::Implementation);
    assert_eq!(found[0].assignment_id, Some("a-1".to_string()));
    assert_eq!(found[0].project_id, Some("p-1".to_string()));
    assert_eq!(found[1].assignment_id, None);
    assert_eq!(found[1].project_id, None);
}

#[test]
fn docker_commands_of_the_sweep() {
    let ops = CliDockerOps::new("docker".to_string());
    assert_eq!(ops.kill_args("c"), ["kill", "c"]);
    assert_eq!(ops.rm_args("c"), ["rm", "-f", "c"]);
    assert_eq!(ops.list_args("agentic-afk.plan-run-id")[3], "label=agentic-afk.plan-run-id");
    let failed = CommandRun::Ended {
        success: false,
        status: "exit status: 1".to_string(),
        stdout: String::new(),
        stderr: " no such container \n".to_string(),
    };
    assert_eq!(
        ops.rm_result("c", &failed),
        Err("docker rm -f c: no such container".to_string())
    );
    let missing = CommandRun::NotStarted { error: "not found".to_string() };
    assert_eq!(
        ops.kill_result("c", &missing),
        Err("docker kill failed to spawn: not found".to_string())
    );
    assert_eq!(
        ops.list_result(&missing),
        Err("docker ps failed to spawn: not found".to_string())
    );
}

// --- Rows in flight ---

fn recover(rows: &mut Rows) -> Result<RecoveryReport, PersistenceError> {
    let (mut state, mut action) = scanner::start(rows.awaiting_recovery());
    loop {
        let row = state.rows.get(state.at).cloned();
        let run = state.plan_runs.get(state.run_at).cloned();
        let event = match action {
            RecoveryAction::Finish => return Ok(state.report),
            RecoveryAction::Fail { error } => return Err(error),
            RecoveryAction::MarkRow => {
                let row = row.unwrap();
                for stored in rows.in_flight.iter_mut() {
                    if stored.id == row.id {
                        stored.outcome = "failed".to_string();
                    }
                }
                RecoveryEvent::Marked
            }
            RecoveryAction::ReadAssignment => {
                let id = row.unwrap().assignment_id.unwrap();
                RecoveryEvent::AssignmentRead { status: rows.assignments[&id].status.clone() }
            }
            RecoveryAction::Block { reason, detail } => {
                assert_eq!(detail, RESTART_BLOCK_DETAIL);
                let source_id = rows.block(&row.unwrap().assignment_id.unwrap(), reason);
                RecoveryEvent::Blocked { source_id }
            }
            RecoveryAction::PublishBlock { kind, detail } => {
                rows.published.push(row.unwrap().assignment_id.unwrap());
                rows.activities.push((kind, detail));
                RecoveryEvent::Published
            }
            RecoveryAction::ReadPlanRun => {
                let id = run.unwrap();
                match rows.plan_runs.get(&id) {
                    Some(found) => RecoveryEvent::PlanRunRead {
                        state: found.clone(),
                        statuses: rows
                            .assignments
                            .values()
                            .filter(|assignment| assignment.plan_run_id == id)
                            .map(|assignment| assignment.status.clone())
                            .collect(),
                    },
                    None => RecoveryEvent::Unavailable { error: not_found() },
                }
            }
            RecoveryAction::FinishPlanRun { state } => {
                rows.plan_runs.insert(run.unwrap(), state);
                RecoveryEvent::PlanRunFinished
            }
            RecoveryAction::PublishPlanRun => {
                rows.finished_published.push(run.unwrap());
                RecoveryEvent::Published
            }
        };
        assert!(scanner::is_awaited(&state.stage, &event));
        let next = scanner::step(state, event);
        state = next.0;
        action = next.1;
    }
}

#[test]
fn in_flight_implementation_row_blocks_assignment_and_finishes_plan_run() {
    let mut rows = Rows::with_assignment("implementing");
    rows.row(Some("a"), "implementation");
    let report = recover(&mut rows).unwrap();

    assert_eq!(report.rows_scanned, 1);
    assert_eq!(report.assignments_blocked, 1);
    assert_eq!(report.plan_runs_finished, 1);

    assert_eq!(rows.assignments["a"].status, "blocked");
    assert_eq!(rows.assignments["a"].block_reason, Some(BlockReason::OrchestratorRestart));
    assert!(rows
        .activities
        .iter()
        .any(|(kind, _)| kind == ACTIVITY_KIND_ASSIGNMENT_BLOCKED_ON_RESTART));
    assert_eq!(rows.plan_runs["pr"], PLAN_RUN_TERMINAL_FINISHED);
    assert_eq!(rows.published, ["a"]);
    assert_eq!(rows.finished_published, ["pr"]);
}

#[test]
fn in_flight_planning_row_finishes_plan_run_without_blocking_anything() {
    let mut rows = Rows::default();
    rows.plan_runs.insert("pr".to_string(), "running".to_string());
    rows.row(None, "planning");
    let report = recover(&mut rows).unwrap();
    assert_eq!(report.assignments_blocked, 0);
    assert_eq!(report.planning_rows_recovered, 1);
    assert_eq!(report.plan_runs_finished, 1);
    assert_eq!(rows.plan_runs["pr"], PLAN_RUN_TERMINAL_FINISHED);
    assert!(rows.assignments.is_empty());
}

#[test]
fn merge_staged_assignment_is_preserved() {
    let mut rows = Rows::with_assignment("merge_staged");
    rows.row(Some("a"), "merge");
    let report = recover(&mut rows).unwrap();
    assert_eq!(report.assignments_blocked, 0);
    assert_eq!(report.plan_runs_finished, 0);
    assert_eq!(rows.assignments["a"].status, "merge_staged");
}

#[test]
fn recovery_is_idempotent_and_does_not_double_block_or_double_activity() {
    let mut rows = Rows::with_assignment("implementing");
    rows.row(Some("a"), "implementation");
    let first = recover(&mut rows).unwrap();
    let second = recover(&mut rows).unwrap();

    assert_eq!(first.assignments_blocked, 1);
    assert_eq!(second.assignments_blocked, 0, "no double-block");
    assert_eq!(second.plan_runs_finished, 0, "already finished");
    let count = rows
        .activities
        .iter()
        .filter(|(kind, _)| kind == ACTIVITY_KIND_ASSIGNMENT_BLOCKED_ON_RESTART)
        .count();
    assert_eq!(count, 1, "exactly one Activity entry per recovered assignment");
}

#[test]
fn each_plan_run_is_read_once_and_a_missing_one_is_passed_over() {
    let mut rows = Rows::with_assignment("implementing");
    rows.row(Some("a"), "implementation");
    rows.row(Some("a"), "review");
    rows.row(None, "planning");
    let report = recover(&mut rows).unwrap();
    assert_eq!(report.rows_scanned, 3);
    assert_eq!(report.assignments_blocked, 1);
    assert_eq!(report.plan_runs_finished, 1);

    let mut gone = Rows::default();
    gone.row(None, "planning");
    assert_eq!(recover(&mut gone).unwrap().plan_runs_finished, 0);
}

#[test]
fn database_failure_ends_the_recovery() {
    let mut rows = Rows::default();
    rows.row(None, "planning");
    let (state, action) = scanner::start(rows.awaiting_recovery());
    assert_eq!(action, RecoveryAction::MarkRow);
    let (_, action) = scanner::step(state, RecoveryEvent::Unavailable { error: broken() });
    assert_eq!(action, RecoveryAction::Fail { error: broken() });
}

// --- Tracked phases ---

fn planning_body() -> PhaseOutputBody {
    PhaseOutputBody::Planning {
        selections: vec![PlanningSelection {
            source_issue_id: "1".into(),
            title: "t".into(),
            branch: "b".into(),
            selection_summary: String::new(),
        }],
        summary: "ok".into(),
        rejected_candidates: vec![],
    }
}

fn locator(phase: &str) -> PhaseLocator {
    PhaseLocator {
        plan_run_id: "pr".to_string(),
        assignment_id: None,
        phase: phase.to_string(),
    }
}

/// A table of rows in flight.
#[derive(Default)]
struct Table {
    rows: Vec<(String, String, Option<u32>)>,
}

impl Table {
    fn insert(&mut self, phase: &str) -> String {
        let id = format!("row-{}", self.rows.len());
        self.rows.push((phase.to_string(), "in_flight".to_string(), None));
        id
    }

    fn at(&self, row_id: &str) -> usize {
        row_id["row-".len()..].parse().unwrap()
    }

    fn set_outcome(&mut self, row_id: &str, outcome: &str) {
        let at = self.at(row_id);
        self.rows[at].1 = outcome.to_string();
    }

    fn set_process(&mut self, row_id: &str, pid: u32) {
        let at = self.at(row_id);
        self.rows[at].2 = Some(pid);
    }

    fn in_flight(&self) -> Vec<&(String, String, Option<u32>)> {
        self.rows.iter().filter(|row| row.1 == "in_flight").collect()
    }
}

fn run_tracked(
    table: &mut Table,
    phase: &str,
    body: &mut dyn FnMut(&mut Table, &str) -> Result<PhaseRunResult<()>, String>,
) -> Result<PhaseOutputBody, TrackerError> {
    let (mut stage, mut action) = tracker::begin();
    let mut row = String::new();
    let mut written = failed_body(String::new());
    loop {
        let event = match action {
            TrackAction::Insert => {
                row = table.insert(phase);
                TrackEvent::Inserted { row_id: row.clone() }
            }
            TrackAction::Run => match body(table, &row) {
                Ok(result) => {
                    written = result.body;
                    TrackEvent::Succeeded { outcome: result.outcome }
                }
                Err(error) => TrackEvent::Failed { error },
            },
            TrackAction::WriteOutcome { outcome } => {
                table.set_outcome(&row, &outcome);
                TrackEvent::Written
            }
            TrackAction::WriteFailure { error } => {
                written = failed_body(error);
                table.set_outcome(&row, "failed");
                TrackEvent::Written
            }
            TrackAction::Return => return Ok(written),
            TrackAction::Report { error, sweep } => {
                assert_eq!(sweep, None);
                return Err(error);
            }
        };
        assert!(tracker::is_awaited(&stage, &event));
        let next = tracker::step(stage, event);
        stage = next.0;
        action = next.1;
    }
}

#[test]
fn pre_spawn_row_exists_before_closure_returns() {
    let mut table = Table::default();
    let mut observed = Vec::new();
    let body = run_tracked(&mut table, "planning", &mut |table, row| {
        observed = table.in_flight().into_iter().cloned().collect();
        table.set_process(row, 4242);
        Ok(PhaseRunResult { value: (), outcome: "succeeded".into(), body: planning_body() })
    })
    .unwrap();
    assert_eq!(body, planning_body());
    assert_eq!(observed.len(), 1, "pre-spawn row visible inside closure");
    assert_eq!(observed[0].1, "in_flight");
    assert_eq!(observed[0].0, "planning");
    assert!(table.in_flight().is_empty());
}

#[test]
fn recorder_stamps_pid_on_in_flight_row() {
    let mut table = Table::default();
    run_tracked(&mut table, "planning", &mut |table, row| {
        let mut handle = tracker::start(locator("planning"), Ok(row.to_string())).unwrap();
        assert!(handle.recorder.wants_write());
        table.set_process(handle.recorder.row_id(), 9999);
        handle.recorder.record(Ok(())).unwrap();
        assert_eq!(table.in_flight()[0].2, Some(9999));
        Ok(PhaseRunResult { value: (), outcome: "succeeded".into(), body: planning_body() })
    })
    .unwrap();
}

#[test]
fn dropped_handle_self_heals_in_flight_row() {
    let mut table = Table::default();
    let row = table.insert("planning");
    let handle = tracker::start(locator("planning"), Ok(row)).unwrap();
    assert_eq!(table.in_flight().len(), 1);
    assert_eq!(table.in_flight()[0].1, "in_flight");
    table.set_outcome(&handle.abandon(), "failed");
    assert!(
        table.in_flight().is_empty(),
        "leak guard should have swept the abandoned row out of in_flight"
    );
}

#[test]
fn closure_error_writes_failed_row_and_bubbles_error() {
    let mut table = Table::default();
    let result = run_tracked(&mut table, "implementation", &mut |_, _| {
        Err("codex spawn failed".to_string())
    });
    assert_eq!(result, Err(TrackerError::Phase("codex spawn failed".to_string())));
    assert!(table.in_flight().is_empty(), "failed row no longer in_flight");
    assert_eq!(table.rows[0].1, "failed");
}

#[test]
fn recorder_record_is_idempotent() {
    let mut table = Table::default();
    let row = table.insert("planning");
    let mut handle = tracker::start(locator("planning"), Ok(row)).unwrap();
    for pid in [1, 2] {
        if handle.recorder.wants_write() {
            table.set_process(handle.recorder.row_id(), pid);
        }
        handle.recorder.record(Ok(())).unwrap();
    }
    assert_eq!(table.in_flight()[0].2, Some(1));
}

#[test]
fn recorder_tries_again_after_a_failed_write() {
    let mut handle = tracker::start(locator("planning"), Ok("row-0".to_string())).unwrap();
    assert_eq!(handle.recorder.record(Err(broken())), Err(broken()));
    assert!(handle.recorder.wants_write());
    assert_eq!(handle.recorder.record(Ok(())), Ok(()));
    assert!(!handle.recorder.wants_write());
}

#[test]
fn a_finished_phase_leaks_nothing() {
    let handle = tracker::start(locator("review"), Ok("row-0".to_string())).unwrap();
    let output = handle.complete("approved", planning_body(), Ok(())).unwrap();
    assert_eq!(output.phase, "review");
    assert_eq!(output.outcome, "approved");
    assert_eq!(output.assignment_id, None);
    assert_eq!(output.recorded_at, "");
    assert_eq!(output.body_json.value, planning_body().to_json());
    assert_eq!(
        output.body_json.text,
        format!(
            "{}{}",
            r#"{"phase":"planning","rejected_candidates":[],"selections":[{"branch":"b","#,
            r#""selection_summary":"","source_issue_id":"1","title":"t"}],"summary":"ok"}"#
        )
    );
    assert_eq!(PhaseOutputBody::from_legacy_value(&output.body_json), planning_body());
    assert_eq!(tracker::start(locator("review"), Err(broken())), Err(broken()));
}

#[test]
fn a_failed_phase_publishes_its_error() {
    let handle = tracker::start(locator("review"), Ok("row-1".to_string())).unwrap();
    let output = handle.fail("boom".to_string(), Ok(())).unwrap();
    assert_eq!(output.outcome, "failed");
    assert_eq!(
        PhaseOutputBody::from_legacy_value(&output.body_json),
        failed_body("boom".to_string())
    );
}

#[test]
fn an_unwritten_end_names_the_row_to_sweep() {
    let unwritten =
        || UnwrittenEnd { row_id: "row-0".to_string(), error: broken() };
    let handle = tracker::start(locator("review"), Ok("row-0".to_string())).unwrap();
    assert_eq!(handle.complete("approved", planning_body(), Err(broken())), Err(unwritten()));
    let handle = tracker::start(locator("review"), Ok("row-0".to_string())).unwrap();
    assert_eq!(handle.fail("boom".to_string(), Err(broken())), Err(unwritten()));
    let handle = tracker::start(locator("review"), Ok("row-0".to_string())).unwrap();
    assert_eq!(handle.abandon(), "row-0");
}

#[test]
fn unwritten_end_leaves_the_row_to_be_swept() {
    let (stage, _) = tracker::begin();
    let (stage, _) = tracker::step(stage, TrackEvent::Inserted { row_id: "row-0".to_string() });
    let (stage, _) =
        tracker::step(stage, TrackEvent::Succeeded { outcome: "succeeded".to_string() });
    let (_, action) = tracker::step(stage, TrackEvent::Unavailable { error: broken() });
    assert_eq!(
        action,
        TrackAction::Report {
            error: TrackerError::Persistence(broken()),
            sweep: Some("row-0".to_string()),
        }
    );
    assert_eq!(TrackerError::Persistence(broken()).message(), "persistence error: disk full");
    assert_eq!(TrackerError::Phase("x".to_string()).message(), "phase failed: x");
}

// --- Re-enabling ---

#[derive(Default)]
struct Issue {
    assignment: Option<String>,
    blocked: bool,
    mirrored: Option<LifecycleStatus>,
    written: Vec<LifecycleStatus>,
    gh_down: bool,
    activities: Vec<(Option<String>, String, String)>,
    published: bool,
}

fn re_enable_issue(issue: &mut Issue) -> ReEnableOutcome {
    let (mut stage, mut action) = re_enable::start();
    loop {
        let event = match action {
            ReEnableAction::LookUp => {
                ReEnableEvent::Found { assignment_id: issue.assignment.clone() }
            }
            ReEnableAction::Clear { assignment_id } => {
                assert_eq!(Some(assignment_id), issue.assignment);
                issue.blocked = false;
                ReEnableEvent::Cleared
            }
            ReEnableAction::Mirror { status } => {
                issue.mirrored = Some(status);
                ReEnableEvent::Mirrored { done: true }
            }
            ReEnableAction::WriteBack { status } => {
                issue.written.push(status);
                let result = if issue.gh_down {
                    Err(PlanRunPhaseError::LifecycleWrite("gh down".to_string()))
                } else {
                    Ok(())
                };
                ReEnableEvent::WrittenBack { result }
            }
            ReEnableAction::RecordActivity { assignment_id, kind, detail } => {
                issue.activities.push((assignment_id, kind, detail));
                ReEnableEvent::Recorded
            }
            ReEnableAction::PublishCleared => {
                issue.published = true;
                ReEnableEvent::Published
            }
            ReEnableAction::Finish { outcome } => return outcome,
            ReEnableAction::Fail { error } => panic!("unexpected failure {error:?}"),
        };
        assert!(re_enable::is_awaited(&stage, &event));
        let next = re_enable::step(stage, event);
        stage = next.0;
        action = next.1;
    }
}

#[test]
fn local_row_exists_and_writeback_ok_returns_both_cleared_and_ok() {
    let mut issue =
        Issue { assignment: Some("a".to_string()), blocked: true, ..Issue::default() };
    let outcome = re_enable_issue(&mut issue);
    assert!(outcome.local_cleared, "local clear succeeded");
    assert!(outcome.writeback.is_ok(), "writeback succeeded");
    assert!(!issue.blocked);
    assert_eq!(issue.mirrored, Some(LifecycleStatus::Ready));
    assert!(issue.published);
}

#[test]
fn local_row_exists_and_writeback_fails_clears_locally_and_records_activity() {
    let mut issue = Issue {
        assignment: Some("a".to_string()),
        blocked: true,
        gh_down: true,
        ..Issue::default()
    };
    let outcome = re_enable_issue(&mut issue);
    assert!(outcome.local_cleared, "local clear still succeeds");
    let error = outcome.writeback.expect_err("writeback surface carries the failure");
    assert!(error.0.contains("gh down"), "{}", error.message());
    assert!(!issue.blocked);
    assert!(issue
        .activities
        .iter()
        .any(|(_, kind, _)| kind == "lifecycle_writeback_failed"));
}

#[test]
fn no_local_row_and_writeback_ok_still_writes_back_with_local_cleared_false() {
    let mut issue = Issue::default();
    let outcome = re_enable_issue(&mut issue);
    assert!(!outcome.local_cleared, "no local row to clear => local_cleared is false");
    assert!(outcome.writeback.is_ok(), "writeback still runs");
    assert_eq!(issue.written, [LifecycleStatus::Ready]);
    assert!(!issue.published);
}

#[test]
fn re_enabling_reports_a_database_failure() {
    let (stage, action) = re_enable::start();
    assert_eq!(action, ReEnableAction::LookUp);
    let (_, action) = re_enable::step(stage, ReEnableEvent::Unavailable { error: broken() });
    match action {
        ReEnableAction::Fail { error } => {
            assert_eq!(error.status, 500);
            assert_eq!(error.detail, "disk full");
        }
        other => panic!("expected Fail, got {other:?}"),
    }
}

// --- Shutdown ---

fn marked(process_id: Option<u32>) -> InFlightPhaseRowSummary {
    InFlightPhaseRowSummary {
        id: "row".to_string(),
        plan_run_id: "pr".to_string(),
        assignment_id: None,
        phase: "planning".to_string(),
        outcome: "interrupted".to_string(),
        process_id,
    }
}

#[test]
fn sweep_marks_in_flight_rows_interrupted_and_returns_pids() {
    let report = sweep_in_flight(&Ok(vec![marked(Some(1))]));
    assert_eq!(report.rows_marked_interrupted, 1);
    assert_eq!(report.pids_signalled, vec![1]);
    assert!(waits(&report));
}

#[test]
fn sweep_with_no_in_flight_rows_is_a_noop() {
    let report = sweep_in_flight(&Ok(vec![]));
    assert_eq!(report.rows_marked_interrupted, 0);
    assert!(report.pids_signalled.is_empty());
    assert!(!waits(&report));
}

#[test]
fn only_rows_with_a_process_are_signalled() {
    let report = sweep_in_flight(&Ok(vec![marked(Some(7)), marked(None), marked(Some(9))]));
    assert_eq!(report.rows_marked_interrupted, 3);
    assert_eq!(report.pids_signalled, vec![7, 9]);
    assert_eq!(send_sigterm(4242), ["-TERM", "4242"]);
    let report = sweep_in_flight(&Err(broken()));
    assert_eq!(report.rows_marked_interrupted, 0);
    assert!(!waits(&report));
}
