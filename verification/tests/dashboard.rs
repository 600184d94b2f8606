use agentic_afk::contracts::{
    AutoReplanState, BlockReason, BlockReasonResponse, GitSummary, IssueAssignmentResponse,
    IssueSource, IssueSourceCandidate, PauseReason, PhaseOutputBody, PhaseOutputResponse,
    PlanRunResponse, PlanRunStage, ProjectEvent, ProjectExecutionConfigResponse, ProjectId,
    ProjectResponse,
    ReEnableSourceIssueResponse, ReviewFinding, WritebackOutcomeResponse,
};
use agentic_afk::dashboard::{
    accept_response, assignment_row, auto_replan_control, auto_replan_pause_copy,
    can_start_plan_run, candidate_name, derive_auto_replan_pill, derive_git_pill,
    derive_plan_run_history_pill, derive_plan_run_stage_pill, derive_sync_pill, derive_trust_pill,
    event_sequence, find_project, has_enabled_source, header_outputs, is_success,
    issue_source_label, needs_subscription, outdates_snapshot, paused_banner, prd_footer,
    project_page, re_enable_note, retry_push_note, seed_sandbox, short_project_id, shown_history,
    syncs_after, ApiCall, ExecutionConfigForm, HttpMethod, ProjectPage,
};
use agentic_afk::json::JsonDocument;
use agentic_afk::phase_output_view::{phase_output_body_view, phase_output_row, Piece};
use agentic_afk::project_store::{
    ApplyOutcome, MutationCategory, MutationKey, MutationState, ProjectStore,
};
use agentic_afk::ui::PillTone;

#[test]
fn plan_run_stage_planning_maps_to_pending_pill() {
    let (tone, label) = derive_plan_run_stage_pill(Some(PlanRunStage::Planning));
    assert_eq!(tone, PillTone::Pending);
    assert_eq!(label, "Planning");
}

#[test]
fn plan_run_stage_implementing_maps_to_running_pill() {
    let (tone, label) = derive_plan_run_stage_pill(Some(PlanRunStage::Implementing));
    assert_eq!(tone, PillTone::Running);
    assert_eq!(label, "Implementing");
}

#[test]
fn plan_run_stage_reviewing_maps_to_running_pill() {
    let (tone, label) = derive_plan_run_stage_pill(Some(PlanRunStage::Reviewing));
    assert_eq!(tone, PillTone::Running);
    assert_eq!(label, "Reviewing");
}

#[test]
fn plan_run_stage_merging_maps_to_running_pill() {
    let (tone, label) = derive_plan_run_stage_pill(Some(PlanRunStage::Merging));
    assert_eq!(tone, PillTone::Running);
    assert_eq!(label, "Merging");
}

#[test]
fn plan_run_stage_pushing_maps_to_running_pill() {
    let (tone, label) = derive_plan_run_stage_pill(Some(PlanRunStage::Pushing));
    assert_eq!(tone, PillTone::Running);
    assert_eq!(label, "Pushing");
}

#[test]
fn plan_run_stage_none_falls_back_to_running() {
    let (tone, label) = derive_plan_run_stage_pill(None);
    assert_eq!(tone, PillTone::Running);
    assert_eq!(label, "Running");
}

fn summary(branch: Option<&str>, dirty: bool) -> GitSummary {
    GitSummary {
        branch: branch.map(str::to_string),
        head: None,
        dirty,
        default_branch: None,
    }
}

#[test]
fn no_git_summary_maps_to_idle_pill() {
    let (tone, label) = derive_git_pill(None);
    assert_eq!(tone, PillTone::Idle);
    assert_eq!(label, "No Git");
}

#[test]
fn clean_summary_with_branch_maps_to_verified_pill() {
    let (tone, label) = derive_git_pill(Some(&summary(Some("master"), false)));
    assert_eq!(tone, PillTone::Verified);
    assert_eq!(label, "master");
}

#[test]
fn dirty_summary_maps_to_stale_pill_with_branch_label() {
    let (tone, label) = derive_git_pill(Some(&summary(Some("feat/x"), true)));
    assert_eq!(tone, PillTone::Stale);
    assert_eq!(label, "feat/x");
}

#[test]
fn detached_clean_summary_falls_back_to_clean_label() {
    let (_tone, label) = derive_git_pill(Some(&summary(None, false)));
    assert_eq!(label, "clean");
}

#[test]
fn short_project_id_truncates_to_eight_chars() {
    assert_eq!(short_project_id("0123456789abcdef"), "01234567");
    assert_eq!(short_project_id("abc"), "abc");
}

#[test]
fn trust_pill_trusted_is_verified() {
    let (tone, label) = derive_trust_pill(true);
    assert_eq!(tone, PillTone::Verified);
    assert_eq!(label, "Trusted");
}

#[test]
fn trust_pill_untrusted_is_stale() {
    let (tone, label) = derive_trust_pill(false);
    assert_eq!(tone, PillTone::Stale);
    assert_eq!(label, "Untrusted");
}

fn document(text: &str) -> JsonDocument {
    JsonDocument::parse(text).unwrap()
}

fn output(phase: &str, outcome: &str, body: &str) -> PhaseOutputResponse {
    PhaseOutputResponse {
        phase: phase.to_string(),
        outcome: outcome.to_string(),
        body_json: document(body),
        recorded_at: "unix:1".to_string(),
        assignment_id: None,
    }
}

fn assignment(status: &str) -> IssueAssignmentResponse {
    IssueAssignmentResponse {
        id: "a".to_string(),
        project_id: ProjectId("p".to_string()),
        source_id: "42".to_string(),
        source_title: "Title".to_string(),
        branch: "agent/issue-42".to_string(),
        worktree_path: String::new(),
        status: status.to_string(),
        status_detail: None,
        latest_attempt: None,
        plan_run_id: None,
        selection_summary: None,
        phase_outputs: vec![],
        review_rejection_count: 0,
        block_reason: None,
    }
}

fn plan_run(state: &str, assignments: Vec<IssueAssignmentResponse>) -> PlanRunResponse {
    PlanRunResponse {
        id: "pr".to_string(),
        project_id: ProjectId("p".to_string()),
        integration_branch: "main".to_string(),
        baseline_commit: "abc".to_string(),
        state: state.to_string(),
        started_at: "unix:1".to_string(),
        finished_at: None,
        phase_outputs: vec![],
        assignments,
    }
}

#[test]
fn history_pill_follows_the_outcome() {
    assert_eq!(
        derive_plan_run_history_pill(&plan_run("running", vec![])),
        (PillTone::Pending, "Running")
    );
    assert_eq!(
        derive_plan_run_history_pill(&plan_run("finished", vec![assignment("merged")])),
        (PillTone::Verified, "Finished")
    );
    assert_eq!(
        derive_plan_run_history_pill(&plan_run("finished", vec![assignment("blocked")])),
        (PillTone::Failed, "Finished")
    );
    let mut empty = plan_run("finished", vec![]);
    empty.phase_outputs.push(output("planning", "succeeded_empty", "{}"));
    assert_eq!(
        derive_plan_run_history_pill(&empty),
        (PillTone::Verified, "Succeeded (empty)")
    );
}

#[test]
fn sync_pill_shows_progress_before_failure() {
    assert_eq!(derive_sync_pill(true, true, true).0, PillTone::Running);
    assert_eq!(derive_sync_pill(false, true, true).0, PillTone::Failed);
    assert_eq!(derive_sync_pill(false, false, true).0, PillTone::Verified);
}

#[test]
fn auto_replan_controls_offer_the_next_state() {
    let project = ProjectId("p".to_string());
    let off = auto_replan_control(&project, AutoReplanState::Off);
    assert_eq!(off.key, MutationKey::ArmAutoReplan(project.clone()));
    let armed = auto_replan_control(&project, AutoReplanState::Armed);
    assert_eq!(armed.key, MutationKey::DisarmAutoReplan(project.clone()));
    let paused = auto_replan_control(&project, AutoReplanState::Paused);
    assert_eq!(paused.key, MutationKey::ResumeAutoReplan(project));
    assert_eq!(derive_auto_replan_pill(AutoReplanState::Off), (PillTone::Idle, "Off"));
    assert_eq!(derive_auto_replan_pill(AutoReplanState::Armed), (PillTone::Verified, "Armed"));
    assert_eq!(derive_auto_replan_pill(AutoReplanState::Paused), (PillTone::Failed, "Paused"));
}

#[test]
fn paused_banner_needs_a_pause() {
    let reason = PauseReason::SyncFailed;
    assert_eq!(
        paused_banner(AutoReplanState::Paused, Some(reason)),
        Some(auto_replan_pause_copy(reason))
    );
    assert_eq!(paused_banner(AutoReplanState::Armed, Some(reason)), None);
}

#[test]
fn sources_and_candidates_have_their_names() {
    let source = IssueSource { kind: "github".to_string(), locator: "o/r".to_string() };
    assert!(issue_source_label(&Some(source)).contains("o/r"));
    let candidate = |enabled| IssueSourceCandidate {
        kind: "github".to_string(),
        locator: "o/r".to_string(),
        enabled,
    };
    assert!(candidate_name(&candidate(false)).contains("o/r"));
    assert!(has_enabled_source(true, &vec![]));
    assert!(has_enabled_source(false, &vec![candidate(false), candidate(true)]));
    assert!(!has_enabled_source(false, &vec![candidate(false)]));
}

#[test]
fn projects_are_found_by_id() {
    let project = |id: &str| ProjectResponse {
        id: ProjectId(id.to_string()),
        path: String::new(),
        trusted: false,
        git_summary: None,
        enabled_issue_source: None,
    };
    let projects = vec![project("a"), project("b")];
    assert_eq!(find_project(&projects, "b"), Ok(1));
    assert!(find_project(&projects, "c").is_err());
}

#[test]
fn config_form_starts_from_what_is_known() {
    let form = ExecutionConfigForm::initial(None, &Some("trunk".to_string()));
    assert_eq!(form.integration_branch, "trunk");
    let config = ProjectExecutionConfigResponse {
        integration_branch: "main".to_string(),
        max_parallel_tasks: 4,
        review_retry_limit: -1,
    };
    let form = ExecutionConfigForm::initial(Some(&config), &None);
    let request = form.request();
    assert_eq!(request.integration_branch, "main");
    assert_eq!(request.max_parallel_tasks, 4);
    assert_eq!(request.review_retry_limit, -1);
}

#[test]
fn plan_run_needs_trust_config_and_rest() {
    assert!(can_start_plan_run(true, true, false));
    assert!(!can_start_plan_run(false, true, false));
    assert!(!can_start_plan_run(true, false, false));
    assert!(!can_start_plan_run(true, true, true));
    assert_eq!(shown_history(3), 3);
    assert!(shown_history(1000) < 1000);
}

#[test]
fn header_shows_run_outputs_only() {
    let mut of_assignment = output("implementation", "ready_for_review", "{}");
    of_assignment.assignment_id = Some("a".to_string());
    let outputs =
        vec![output("push", "succeeded", "{}"), of_assignment, output("planning", "succeeded", "{}")];
    let order = header_outputs(&outputs);
    assert!(!order.contains(&1));
    assert_eq!(order.len(), 2);
}

#[test]
fn blocked_row_offers_re_enabling_and_staged_row_a_push() {
    let mut blocked = assignment("blocked");
    blocked.block_reason = Some(BlockReasonResponse {
        kind: BlockReason::MergePhaseFailed,
        detail: Some("conflict".to_string()),
    });
    let row = assignment_row(&blocked);
    assert!(row.offers_re_enable);
    assert!(!row.offers_push);
    assert!(row.blocked.is_some());
    let row = assignment_row(&assignment("merge_staged"));
    assert!(row.offers_push);
    assert!(!row.offers_re_enable);
}

#[test]
fn notes_say_what_happened() {
    let outcome = |ok: bool| ReEnableSourceIssueResponse {
        local_cleared: true,
        writeback: WritebackOutcomeResponse {
            ok,
            error: if ok { None } else { Some("gh down".to_string()) },
        },
    };
    assert_eq!(
        re_enable_note(&outcome(true)),
        (
            "Source Issue re-enabled",
            "A later Plan Run may pick this Source Issue again".to_string()
        )
    );
    assert_eq!(
        re_enable_note(&outcome(false)),
        ("Source Issue re-enabled (upstream write-back failed)", "gh down".to_string())
    );
    assert_eq!(
        retry_push_note("merged"),
        (
            "Retry Push succeeded",
            "Assignment merged; Plan Run history preserves the original failure"
        )
    );
    assert_eq!(
        retry_push_note("blocked"),
        (
            "Retry Push rejected as non-fast-forward",
            "Integration Branch has diverged; recovery belongs in a new Plan Run"
        )
    );
    assert_eq!(
        retry_push_note("merge_staged"),
        ("Retry Push failed", "Assignment remains staged; you may retry or abandon")
    );
}

#[test]
fn api_calls_have_their_paths() {
    let call = ApiCall::Snapshot { project: "p1".to_string() };
    assert_eq!(call.method(), HttpMethod::Get);
    assert_eq!(call.path(), "/api/projects/p1/snapshot");
    let call = ApiCall::Events { project: "p1".to_string(), last_event_id: 7 };
    assert!(call.path().contains("p1") && call.path().contains('7'));
    let call =
        ApiCall::UnmarkPrd { project: "p1".to_string(), source: "42".to_string() };
    assert_eq!(call.method(), HttpMethod::Delete);
}

#[test]
fn answers_are_accepted_by_their_status() {
    assert!(is_success(200) && is_success(299));
    assert!(!is_success(199) && !is_success(300));
    assert_eq!(accept_response(204, "ok".to_string()), Ok("ok".to_string()));
    let failure = accept_response(422, "no".to_string()).unwrap_err();
    assert_eq!(failure.status, Some(422));
    assert_eq!(failure.body, "no");
}

#[test]
fn event_numbers_are_read() {
    assert_eq!(event_sequence("41"), 41);
    assert_eq!(event_sequence("x"), 0);
    assert!(needs_subscription(&None, "p", false));
    assert!(!needs_subscription(&Some("p".to_string()), "p", false));
    assert!(needs_subscription(&Some("p".to_string()), "p", true));
    assert!(needs_subscription(&Some("q".to_string()), "p", false));
}

#[test]
fn events_outdate_the_snapshot() {
    let merged = ApplyOutcome::Merged;
    let failed = ProjectEvent::IssueSourceSyncFailed { error: "e".to_string() };
    assert!(outdates_snapshot(&failed, merged));
    assert!(!outdates_snapshot(&failed, ApplyOutcome::Stale));
    assert!(!outdates_snapshot(&ProjectEvent::IssueSourceSyncStarted, merged));
    assert!(!outdates_snapshot(&ProjectEvent::Resync, ApplyOutcome::Rehydrate));
    assert!(outdates_snapshot(
        &ProjectEvent::PlanningSnapshotChanged { snapshot: None },
        merged
    ));
    assert!(syncs_after(&ProjectEvent::IssueSourceSyncStarted, false));
    assert!(!syncs_after(&failed, true));
    assert!(syncs_after(&ProjectEvent::Resync, true));
    assert!(!syncs_after(&ProjectEvent::Resync, false));
}

#[test]
fn a_page_that_was_loaded_stays() {
    assert_eq!(project_page(false, true), ProjectPage::Shown);
    assert_eq!(project_page(false, false), ProjectPage::Loading);
}

#[test]
fn footer_counts_parent_issues() {
    assert_eq!(prd_footer(0, false), None);
    assert_eq!(prd_footer(2, false), Some("2 PRDs hidden · Show".to_string()));
    assert_eq!(prd_footer(2, true), Some("2 PRDs hidden · Hide".to_string()));
}

#[test]
fn sandbox_shows_every_state() {
    let mut store = ProjectStore::new();
    seed_sandbox(&mut store);
    assert!(store.toasts().is_empty());
    let demo = || ProjectId("demo".to_string());
    assert_eq!(
        store.state(&MutationKey::SyncIssueSource(demo())),
        Some(MutationState::Pending)
    );
    assert_eq!(
        store.state(&MutationKey::StartPlanRun(demo())),
        Some(MutationState::Error {
            category: MutationCategory::Validation,
            title: "project trust required".to_string(),
            detail: "trust the project from settings before starting a Plan Run".to_string(),
        })
    );
    assert_eq!(store.state(&MutationKey::TrustProject(demo())), None);
    let unknown = ProjectId("unknown".to_string());
    assert_eq!(store.state(&MutationKey::SyncIssueSource(unknown)), None);
}

#[test]
fn output_row_shows_summary_and_cut() {
    let row = phase_output_row(&output(
        "review",
        "rejected",
        r#"{"phase":"review","findings":["fix"],"summary":"s","truncated_at":9000}"#,
    ));
    assert_eq!(row.tone, PillTone::Failed);
    assert_eq!(row.pill_label, "review rejected");
    assert_eq!(row.summary, "s");
    assert_eq!(row.truncated, Some("[truncated] body was 9000 bytes".to_string()));
    assert_eq!(row.name, "plan-run-phase-output-row");
    assert_eq!(
        row.body,
        PhaseOutputBody::Review {
            findings: vec![ReviewFinding { location: None, message: "fix".to_string() }],
            verification: vec![],
            gaps: vec![],
            summary: "s".to_string(),
        }
    );
    assert_eq!(phase_output_row(&output("push", "in_flight", "{}")).tone, PillTone::Pending);
}

#[test]
fn failed_body_shows_its_error() {
    let view = phase_output_body_view(&PhaseOutputBody::Failed {
        error: "boom".to_string(),
        problem_type: None,
    });
    assert!(view.pieces.iter().any(|piece| match piece {
        Piece::Paragraph(line) | Piece::Block(line) => line.text.contains("boom"),
        _ => false,
    }));
}
