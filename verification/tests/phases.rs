use agentic_afk::auto_replan::{
    classify_plan_run_for_auto_replan, AutoReplanCurrent, AutoReplanDecision, AutoReplanDriver,
    CycleOutcome, CycleTrigger, SyncOutcome,
};
use agentic_afk::contracts::{
    AutoReplanState, BlockReason, BlockReasonResponse, IssueAssignmentResponse, PauseReason,
    PhaseOutputResponse, PlanRunResponse, PlanRunState, ProjectExecutionConfigResponse, ProjectId,
    ProjectResponse, SourceIssueSnapshot,
};
use agentic_afk::implementation_phase::{
    check_implementation_outcome, render_implementation_prompt, ImplementationRejection,
};
use agentic_afk::json::JsonDocument;
use agentic_afk::merge_phase::{
    decide_merge_outcome, render_merge_prompt, AssignmentMergeOutcome, MergeRejection,
};
use agentic_afk::plan_run::{
    parse_implementation_output, parse_merge_output, parse_planning_output, parse_review_output,
    FakePlanningPhaseRunner, IntegrationBranchRefresher, LifecycleStatus, ParsedMergeOutput,
    ParsedPlanningOutput, ParsedReviewOutput, PlanRunPhaseError, PlanningPhaseRunner,
    RefreshedBaseline, StaticIntegrationBranchRefresher, UnimplementedIntegrationBranchRefresher,
    UnimplementedPlanningPhaseRunner,
};
use agentic_afk::plan_run_finalize::{
    decide_plan_run_terminal, PlanRunFinalize, PlanRunTerminal,
};
use agentic_afk::plan_run_status::{transition_assignment, AssignmentStatus, StatusWrite};
use agentic_afk::planning_phase::{
    extract_planner_selections, indent_lines, render_planning_prompt, validate_planner_selection,
    PlanningRejection,
};
use agentic_afk::problem::{CoordinatorError, PersistenceError, PersistenceErrorKind};
use agentic_afk::push_attempt::{classify_push_result, PushOutcome};
use agentic_afk::review_loop::{
    decide_review_loop_step, extract_review_findings, render_review_prompt, ReviewLoopRejection,
    ReviewLoopStep,
};

fn document(text: &str) -> JsonDocument {
    JsonDocument::parse(text).unwrap()
}

// --- Implementation ---

#[test]
fn ready_for_review_passes() {
    assert!(check_implementation_outcome("ready_for_review").is_ok());
}

#[test]
fn blocked_outcome_rejected() {
    let err = check_implementation_outcome("blocked").unwrap_err();
    assert!(matches!(
        err,
        ImplementationRejection::NotReadyForReview { outcome } if outcome == "blocked"
    ));
}

#[test]
fn implementation_rejections_report_their_problem() {
    let error: CoordinatorError =
        ImplementationRejection::PhaseFailed("no container".to_string()).into();
    assert_eq!(error.problem_type, "urn:agentic-afk:implementation-phase-failed");
    let error: CoordinatorError = ImplementationRejection::Unparseable("no tag".to_string()).into();
    assert!(error.detail.contains("no tag"));
    let error: CoordinatorError =
        ImplementationRejection::NotReadyForReview { outcome: "blocked".to_string() }.into();
    assert!(error.detail.contains("blocked"));
}

// --- The end of a Plan Run ---

fn blocked() -> AssignmentMergeOutcome {
    AssignmentMergeOutcome::Blocked { reason: "conflict".to_string() }
}

#[test]
fn empty_planning_is_succeeded_empty() {
    let input = PlanRunFinalize { planning_was_empty: true, outcomes: vec![] };
    assert_eq!(decide_plan_run_terminal(&input), PlanRunTerminal::SucceededEmpty);
}

#[test]
fn any_merged_is_succeeded() {
    let input = PlanRunFinalize {
        planning_was_empty: false,
        outcomes: vec![AssignmentMergeOutcome::Merged, blocked()],
    };
    assert_eq!(decide_plan_run_terminal(&input), PlanRunTerminal::Succeeded);
}

#[test]
fn all_blocked_is_failed() {
    let input =
        PlanRunFinalize { planning_was_empty: false, outcomes: vec![blocked(), blocked()] };
    assert_eq!(decide_plan_run_terminal(&input), PlanRunTerminal::Failed);
}

#[test]
fn all_not_attempted_is_failed() {
    let input = PlanRunFinalize {
        planning_was_empty: false,
        outcomes: vec![
            AssignmentMergeOutcome::NotAttempted,
            AssignmentMergeOutcome::NotAttempted,
        ],
    };
    assert_eq!(decide_plan_run_terminal(&input), PlanRunTerminal::Failed);
}

#[test]
fn terminals_have_their_stored_forms() {
    assert_eq!(PlanRunTerminal::Succeeded.as_str(), "succeeded");
    assert_eq!(PlanRunTerminal::SucceededEmpty.as_str(), "succeeded_empty");
    assert_eq!(PlanRunTerminal::Failed.as_str(), "failed");
    assert_eq!(
        decide_plan_run_terminal(&PlanRunFinalize::default()),
        PlanRunTerminal::Failed,
    );
}

// --- The push ---

#[test]
fn ok_classifies_as_success() {
    assert_eq!(classify_push_result(Ok(())), PushOutcome::Success);
    assert!(PushOutcome::Success.fast_forward());
    assert_eq!(PushOutcome::Success.outcome_str(), "succeeded");
}

#[test]
fn integration_push_with_non_fast_forward_phrase_classifies_as_non_fast_forward() {
    let result = Err(PlanRunPhaseError::IntegrationPush(
        "git push origin main: ! [rejected] main -> main (non-fast-forward)".to_string(),
    ));
    match classify_push_result(result) {
        PushOutcome::NonFastForward { detail } => {
            assert!(detail.contains("non-fast-forward"));
        }
        other => panic!("expected NonFastForward, got {other:?}"),
    }
}

#[test]
fn integration_push_with_fetch_first_phrase_classifies_as_non_fast_forward() {
    let result = Err(PlanRunPhaseError::IntegrationPush(
        "hint: Updates were rejected because the remote contains work that you do\nhint: not have locally. fetch first".to_string(),
    ));
    assert!(matches!(classify_push_result(result), PushOutcome::NonFastForward { .. }));
}

#[test]
fn integration_push_with_tip_behind_phrase_classifies_as_non_fast_forward() {
    let result = Err(PlanRunPhaseError::IntegrationPush(
        "hint: the tip of your current branch is behind its remote counterpart".to_string(),
    ));
    assert!(matches!(classify_push_result(result), PushOutcome::NonFastForward { .. }));
}

#[test]
fn integration_push_with_generic_error_classifies_as_other() {
    let result = Err(PlanRunPhaseError::IntegrationPush(
        "ssh: connect to host github.com port 22: Connection timed out".to_string(),
    ));
    match classify_push_result(result) {
        PushOutcome::Other { detail } => {
            assert!(detail.contains("Connection timed out"));
        }
        other => panic!("expected Other, got {other:?}"),
    }
}

#[test]
fn auth_failure_classifies_as_other_not_non_fast_forward() {
    let result = Err(PlanRunPhaseError::IntegrationPush(
        "remote: Permission to owner/repo.git denied to alice.".to_string(),
    ));
    assert!(matches!(classify_push_result(result), PushOutcome::Other { .. }));
}

#[test]
fn non_fast_forward_variant_classifies_as_non_fast_forward() {
    let result = Err(PlanRunPhaseError::NonFastForward {
        stderr: "! [rejected] main -> main (non-fast-forward)".to_string(),
    });
    match classify_push_result(result) {
        PushOutcome::NonFastForward { detail } => {
            assert!(detail.contains("non-fast-forward"));
        }
        other => panic!("expected NonFastForward, got {other:?}"),
    }
}

#[test]
fn non_push_phase_error_classifies_as_other() {
    let result = Err(PlanRunPhaseError::Refresh("baseline missing".to_string()));
    match classify_push_result(result) {
        PushOutcome::Other { detail } => assert!(detail.contains("baseline missing")),
        other => panic!("expected Other, got {other:?}"),
    }
}

#[test]
fn outcome_str_matches_phase_output_taxonomy() {
    assert_eq!(PushOutcome::NonFastForward { detail: "x".into() }.outcome_str(), "failed");
    assert_eq!(PushOutcome::Other { detail: "x".into() }.outcome_str(), "failed");
    assert!(!PushOutcome::NonFastForward { detail: "x".into() }.fast_forward());
    assert!(!PushOutcome::Other { detail: "x".into() }.fast_forward());
}

#[test]
fn rejection_phrases_are_found_in_any_case() {
    let result = Err(PlanRunPhaseError::IntegrationPush("NON-FAST-FORWARD".to_string()));
    assert!(matches!(classify_push_result(result), PushOutcome::NonFastForward { .. }));
}

// --- Merge ---

fn merge_output(outcome: &str, body: &str) -> ParsedMergeOutput {
    ParsedMergeOutput { outcome: outcome.to_string(), body: document(body) }
}

#[test]
fn merged_outcome_classifies_merged() {
    let p = merge_output("merged", r#"{"summary": "ok"}"#);
    assert!(matches!(decide_merge_outcome(&p), AssignmentMergeOutcome::Merged));
}

#[test]
fn blocked_with_explicit_reason_uses_block_reason_field() {
    let p = merge_output("blocked", r#"{"block_reason": "conflict in foo.rs"}"#);
    match decide_merge_outcome(&p) {
        AssignmentMergeOutcome::Blocked { reason } => {
            assert_eq!(reason, "conflict in foo.rs");
        }
        other => panic!("expected Blocked, got {other:?}"),
    }
}

#[test]
fn blocked_without_block_reason_falls_back_to_summary() {
    let p = merge_output("blocked", r#"{"summary": "tests failed"}"#);
    match decide_merge_outcome(&p) {
        AssignmentMergeOutcome::Blocked { reason } => {
            assert_eq!(reason, "tests failed");
        }
        other => panic!("expected Blocked, got {other:?}"),
    }
}

#[test]
fn blocked_with_neither_field_uses_fallback_reason() {
    let p = merge_output("blocked", "{}");
    match decide_merge_outcome(&p) {
        AssignmentMergeOutcome::Blocked { reason } => {
            assert!(reason.contains("without an explicit reason"));
        }
        other => panic!("expected Blocked, got {other:?}"),
    }
}

#[test]
fn unparseable_merge_reports_its_problem() {
    let error: CoordinatorError = MergeRejection::Unparseable("no tag".to_string()).into();
    assert!(error.detail.contains("no tag"));
}

// --- Planning ---

fn snapshot(source_id: &str) -> SourceIssueSnapshot {
    SourceIssueSnapshot {
        source_id: source_id.to_string(),
        title: format!("title-{source_id}"),
        readiness: "ready".to_string(),
        lifecycle_status: "ready".to_string(),
        parent_issue: None,
        issue_dependencies: Vec::new(),
        source_order: 0,
        raw_text: String::new(),
    }
}

fn parsed_with(selections_json: &str) -> ParsedPlanningOutput {
    let stdout = format!("<plan>{{\"issues\":{selections_json}}}</plan>");
    parse_planning_output(&stdout).expect("test planning stdout parses")
}

fn selection_object(source_id: &str) -> String {
    format!(
        r#"{{"source_issue_id":"{source_id}","title":"t","branch":"b/{source_id}","selection_summary":"s"}}"#
    )
}

#[test]
fn pairs_selections_with_eligible_snapshots() {
    let parsed = parsed_with(&format!("[{}]", selection_object("42")));
    let eligible = vec![snapshot("42"), snapshot("99")];
    let claims =
        validate_planner_selection(&parsed, &eligible, 2, true).expect("validation succeeds");
    assert_eq!(claims.len(), 1);
    assert_eq!(claims[0].selection.source_issue_id, "42");
    assert_eq!(claims[0].eligible_issue.source_id, "42");
}

#[test]
fn rejects_ineligible_selection() {
    let parsed = parsed_with(&format!("[{}]", selection_object("missing")));
    let eligible = vec![snapshot("42")];
    let result = validate_planner_selection(&parsed, &eligible, 2, true);
    assert!(matches!(
        result,
        Err(PlanningRejection::IneligibleSelection { source_id }) if source_id == "missing"
    ));
}

#[test]
fn rejects_when_planner_exceeds_max_parallel() {
    let parsed = parsed_with(&format!(
        "[{}, {}, {}]",
        selection_object("a"),
        selection_object("b"),
        selection_object("c"),
    ));
    let eligible = vec![snapshot("a"), snapshot("b"), snapshot("c")];
    let result = validate_planner_selection(&parsed, &eligible, 2, true);
    assert!(matches!(result, Err(PlanningRejection::ExceedsMaxParallel { got: 3, cap: 2 })));
}

#[test]
fn rejects_when_no_enabled_issue_source() {
    let parsed = parsed_with(&format!("[{}]", selection_object("42")));
    let eligible = vec![snapshot("42")];
    let result = validate_planner_selection(&parsed, &eligible, 2, false);
    assert!(matches!(result, Err(PlanningRejection::MissingIssueSource)));
}

#[test]
fn selection_without_an_id_is_unparseable() {
    let parsed = parsed_with(r#"[{"title":"t","branch":"b"}]"#);
    assert!(extract_planner_selections(&parsed).is_err());
    let result = validate_planner_selection(&parsed, &vec![snapshot("1")], 2, true);
    assert!(matches!(result, Err(PlanningRejection::Unparseable(_))));
}

#[test]
fn planning_output_needs_both_tags_in_order() {
    assert_eq!(
        parse_planning_output("nothing").unwrap_err(),
        "planning output missing <plan> opening tag"
    );
    assert_eq!(
        parse_planning_output("<plan>{}").unwrap_err(),
        "planning output missing </plan> closing tag"
    );
    assert_eq!(
        parse_planning_output("</plan><plan>").unwrap_err(),
        "planning output has malformed <plan> tags"
    );
    assert!(parse_planning_output("<plan>{not json</plan>")
        .unwrap_err()
        .starts_with("planning output is not valid JSON: "));
}

#[test]
fn planning_without_issues_is_empty() {
    let parsed = parse_planning_output("noise <plan>\n {\"issues\":[]} \n</plan> more").unwrap();
    assert!(parsed.is_empty);
    assert!(!parsed_with(&format!("[{}]", selection_object("42"))).is_empty);
}

#[test]
fn phase_outputs_carry_their_outcome() {
    let parsed =
        parse_implementation_output("<impl>{\"outcome\":\"ready_for_review\"}</impl>").unwrap();
    assert_eq!(parsed.outcome, "ready_for_review");
    let parsed = parse_review_output("<review>{\"outcome\":\"rejected\"}</review>").unwrap();
    assert_eq!(parsed.outcome, "rejected");
    let parsed = parse_merge_output("<merge>{\"outcome\":\"merged\",\"n\":1}</merge>").unwrap();
    assert_eq!(parsed.outcome, "merged");
    assert_eq!(parsed.body.value.unsigned_at("n"), Some(1));
    assert!(parse_review_output("nothing").is_err());
    assert!(parse_merge_output("nothing").is_err());
}

#[test]
fn lines_are_indented() {
    assert_eq!(indent_lines("a\nb\r\n\nc", 4), "    a\n    b\n    \n    c");
    assert_eq!(indent_lines("", 4), "");
}

fn project(path: &str) -> ProjectResponse {
    ProjectResponse {
        id: ProjectId("p".to_string()),
        path: path.to_string(),
        trusted: true,
        git_summary: None,
        enabled_issue_source: None,
    }
}

fn config() -> ProjectExecutionConfigResponse {
    ProjectExecutionConfigResponse {
        integration_branch: "main".to_string(),
        max_parallel_tasks: 2,
        review_retry_limit: 3,
    }
}

fn baseline() -> RefreshedBaseline {
    RefreshedBaseline { commit_sha: "deadbeef".to_string() }
}

#[test]
fn planning_prompt_is_filled_in() {
    let mut issue = snapshot("42");
    issue.raw_text = "one\ntwo".to_string();
    let prompt = render_planning_prompt(
        "{{PROJECT_INSTRUCTIONS}}|{{PROJECT_NAME}}|{{INTEGRATION_BRANCH}}|{{UNKNOWN}}",
        "be kind",
        &project("/work/p"),
        &config(),
        &baseline(),
        &vec![issue],
    );
    assert!(prompt.starts_with("be kind|/work/p|main|"));
    assert!(prompt.ends_with("{{UNKNOWN}}"));
}

#[test]
fn implementation_prompt_is_filled_in() {
    let prompt = render_implementation_prompt(
        "{{SOURCE_ISSUE_ID}} {{SOURCE_ISSUE_TITLE}} {{ISSUE_BRANCH}} {{PLAN_RUN_BASELINE}} {{REVIEW_FINDINGS}}",
        "",
        &project("/work/p"),
        &plan_run(PlanRunState::Running, vec![]),
        &baseline(),
        &config(),
        &assignment("implementing", None),
        "brief",
        "fix a",
    );
    assert_eq!(prompt, "1 Issue agent/issue-1 deadbeef fix a");
}

#[test]
fn review_and_merge_prompts_quote_the_body_before_them() {
    let body = document(r#"{"outcome":"approved"}"#);
    let review = render_review_prompt(
        "{{IMPLEMENTATION_PHASE_OUTPUT}}",
        "",
        &project("/work/p"),
        &plan_run(PlanRunState::Running, vec![]),
        &baseline(),
        &config(),
        &assignment("implemented", None),
        "brief",
        &body,
    );
    assert_eq!(review, "{\n  \"outcome\": \"approved\"\n}");
    let merge = render_merge_prompt(
        "{{REVIEW_PHASE_OUTPUT}}",
        "",
        &project("/work/p"),
        &plan_run(PlanRunState::Running, vec![]),
        &baseline(),
        &config(),
        &assignment("reviewed", None),
        &body,
    );
    assert_eq!(merge, "{\n  \"outcome\": \"approved\"\n}");
}

// --- Review ---

fn review_output(outcome: &str, body: &str) -> ParsedReviewOutput {
    ParsedReviewOutput { outcome: outcome.to_string(), body: document(body) }
}

#[test]
fn approved_returns_approved_step_with_body() {
    let body = r#"{"outcome": "approved", "summary": "ok"}"#;
    let step = decide_review_loop_step(&review_output("approved", body), 0, 3);
    match step {
        ReviewLoopStep::Approved { review_body } => assert_eq!(review_body, document(body)),
        other => panic!("expected Approved, got {other:?}"),
    }
}

#[test]
fn rejection_under_limit_retries_with_findings() {
    let body = r#"{"outcome": "rejected", "findings": ["fix a", "fix b"]}"#;
    let step = decide_review_loop_step(&review_output("rejected", body), 1, 3);
    match step {
        ReviewLoopStep::Retry { findings } => {
            assert!(findings.contains("fix a"));
            assert!(findings.contains("fix b"));
        }
        other => panic!("expected Retry, got {other:?}"),
    }
}

#[test]
fn rejection_at_limit_blocks() {
    let body = r#"{"outcome": "rejected", "findings": []}"#;
    let step = decide_review_loop_step(&review_output("rejected", body), 3, 3);
    match step {
        ReviewLoopStep::Block { reason } => assert!(reason.contains("3")),
        other => panic!("expected Block, got {other:?}"),
    }
}

#[test]
fn findings_that_are_no_texts_are_passed_over() {
    let body = document(r#"{"findings": ["fix a", 7, "fix b"]}"#);
    let findings = extract_review_findings(&body.value);
    assert!(findings.contains("fix a") && findings.contains("fix b"));
    assert!(!findings.contains('7'));
    assert_eq!(extract_review_findings(&document("{}").value), "");
}

#[test]
fn review_rejections_report_their_problem() {
    let error: CoordinatorError = ReviewLoopRejection::PhaseFailed("gone".to_string()).into();
    assert_eq!(error.problem_type, "urn:agentic-afk:review-phase-failed");
    let error: CoordinatorError = ReviewLoopRejection::Unparseable("no tag".to_string()).into();
    assert!(error.detail.contains("no tag"));
}

// --- Replanning ---

fn decision(
    state: AutoReplanState,
    active: bool,
    last: Option<CycleOutcome>,
    sync: Option<SyncOutcome>,
) -> AutoReplanDecision {
    AutoReplanDriver::decide(
        AutoReplanCurrent { state, has_active_plan_run: active },
        last,
        sync,
    )
}

fn decided(
    next_state: AutoReplanState,
    pause_reason: Option<PauseReason>,
    trigger: Option<CycleTrigger>,
) -> AutoReplanDecision {
    AutoReplanDecision { next_state, pause_reason, trigger }
}

#[test]
fn driver_covers_reachable_state_table() {
    let cases = [
        (
            "off cold start",
            AutoReplanState::Off,
            false,
            None,
            None,
            decided(AutoReplanState::Off, None, None),
        ),
        (
            "paused cold start",
            AutoReplanState::Paused,
            false,
            None,
            None,
            decided(AutoReplanState::Paused, None, None),
        ),
        (
            "armed active plan run",
            AutoReplanState::Armed,
            true,
            None,
            Some(SyncOutcome::Succeeded),
            decided(AutoReplanState::Armed, None, None),
        ),
        (
            "armed sync success starts",
            AutoReplanState::Armed,
            false,
            None,
            Some(SyncOutcome::Succeeded),
            decided(AutoReplanState::Armed, None, Some(CycleTrigger::StartPlanRun)),
        ),
        (
            "armed sync failure pauses",
            AutoReplanState::Armed,
            false,
            None,
            Some(SyncOutcome::Failed),
            decided(AutoReplanState::Paused, Some(PauseReason::SyncFailed), None),
        ),
        (
            "armed continue stays armed",
            AutoReplanState::Armed,
            false,
            Some(CycleOutcome::Continue),
            None,
            decided(AutoReplanState::Armed, None, None),
        ),
        (
            "armed pause outcome pauses",
            AutoReplanState::Armed,
            false,
            Some(CycleOutcome::Pause(PauseReason::MergeStagedLeft)),
            None,
            decided(AutoReplanState::Paused, Some(PauseReason::MergeStagedLeft), None),
        ),
    ];

    for (name, state, active, last, sync, expected) in cases {
        assert_eq!(decision(state, active, last, sync), expected, "{name}");
    }
}

fn plan_run(state: PlanRunState, assignments: Vec<IssueAssignmentResponse>) -> PlanRunResponse {
    PlanRunResponse {
        id: "pr".into(),
        project_id: ProjectId("p".into()),
        integration_branch: "main".into(),
        baseline_commit: "abc".into(),
        state: state.as_wire().into(),
        started_at: "unix:1".into(),
        finished_at: Some("unix:2".into()),
        phase_outputs: vec![],
        assignments,
    }
}

fn assignment(status: &str, block_reason: Option<BlockReason>) -> IssueAssignmentResponse {
    IssueAssignmentResponse {
        id: format!("a-{status}"),
        project_id: ProjectId("p".into()),
        source_id: "1".into(),
        source_title: "Issue".into(),
        branch: "agent/issue-1".into(),
        worktree_path: "/tmp/worktree".into(),
        status: status.into(),
        status_detail: None,
        latest_attempt: None,
        plan_run_id: Some("pr".into()),
        selection_summary: None,
        phase_outputs: vec![],
        review_rejection_count: 0,
        block_reason: block_reason.map(|kind| BlockReasonResponse { kind, detail: None }),
    }
}

fn planning_row(outcome: &str) -> PhaseOutputResponse {
    PhaseOutputResponse {
        phase: "planning".into(),
        outcome: outcome.into(),
        body_json: document("{}"),
        recorded_at: "unix:1".into(),
        assignment_id: None,
    }
}

#[test]
fn classifier_maps_terminal_shapes() {
    let mut planning_failed = plan_run(PlanRunState::Finished, vec![]);
    planning_failed.phase_outputs.push(planning_row("failed"));
    let mut empty_success = plan_run(PlanRunState::Finished, vec![]);
    empty_success.phase_outputs.push(planning_row("succeeded_empty"));

    let cases = [
        (
            "merged-only success",
            plan_run(PlanRunState::Finished, vec![assignment("merged", None)]),
            CycleOutcome::Continue,
        ),
        ("empty success", empty_success, CycleOutcome::Pause(PauseReason::EmptyBacklog)),
        (
            "blocked-only",
            plan_run(
                PlanRunState::Finished,
                vec![assignment("blocked", Some(BlockReason::MergePhaseFailed))],
            ),
            CycleOutcome::Pause(PauseReason::AssignmentBlocked),
        ),
        (
            "merge-staged-only",
            plan_run(PlanRunState::Finished, vec![assignment("merge_staged", None)]),
            CycleOutcome::Pause(PauseReason::MergeStagedLeft),
        ),
        (
            "mixed merged and blocked",
            plan_run(
                PlanRunState::Finished,
                vec![
                    assignment("merged", None),
                    assignment("blocked", Some(BlockReason::ReviewRetryLimitExhausted)),
                ],
            ),
            CycleOutcome::Pause(PauseReason::AssignmentBlocked),
        ),
        (
            "mixed merged and staged",
            plan_run(
                PlanRunState::Finished,
                vec![assignment("merged", None), assignment("merge_staged", None)],
            ),
            CycleOutcome::Pause(PauseReason::MergeStagedLeft),
        ),
        ("planning failed", planning_failed, CycleOutcome::Pause(PauseReason::PlanningFailed)),
        (
            "push non-fast-forward",
            plan_run(
                PlanRunState::Finished,
                vec![assignment("blocked", Some(BlockReason::PushNonFastForward))],
            ),
            CycleOutcome::Pause(PauseReason::PushNonFastForward),
        ),
    ];

    for (name, run, expected) in cases {
        assert_eq!(classify_plan_run_for_auto_replan(&run), expected, "{name}");
    }
}

// --- The seams of a Plan Run ---

#[test]
fn static_refresher_gives_its_baseline() {
    let refresher = StaticIntegrationBranchRefresher::new(baseline());
    assert_eq!(refresher.refresh("/p", "main"), Ok(baseline()));
    assert_eq!(
        UnimplementedIntegrationBranchRefresher.refresh("/p", "main"),
        Err(PlanRunPhaseError::Refresh(
            "real Integration Branch refresh not implemented yet".to_string()
        ))
    );
}

#[test]
fn fake_planner_keeps_the_prompt() {
    let mut runner = FakePlanningPhaseRunner::with_stdout("out".to_string());
    assert_eq!(runner.last_prompt(), None);
    assert_eq!(runner.run("plan now"), Ok("out".to_string()));
    assert_eq!(runner.last_prompt(), Some("plan now".to_string()));
    assert!(matches!(
        UnimplementedPlanningPhaseRunner.run("x"),
        Err(PlanRunPhaseError::Planning(_))
    ));
}

#[test]
fn lifecycle_statuses_have_their_names() {
    let names = [
        (LifecycleStatus::Ready, "ready"),
        (LifecycleStatus::Claimed, "claimed"),
        (LifecycleStatus::Running, "running"),
        (LifecycleStatus::Blocked, "blocked"),
        (LifecycleStatus::Completed, "completed"),
    ];
    for (status, name) in names {
        assert_eq!(status.as_str(), name);
    }
}

#[test]
fn statuses_are_written_as_they_are_stored() {
    assert_eq!(
        transition_assignment(AssignmentStatus::MergeStaged),
        StatusWrite::SetStatus { status: "merge_staged" }
    );
    assert_eq!(
        transition_assignment(AssignmentStatus::Blocked {
            kind: BlockReason::MergePhaseFailed,
            detail: "conflict".to_string(),
        }),
        StatusWrite::RecordBlocked {
            kind: BlockReason::MergePhaseFailed,
            detail: Some("conflict".to_string()),
        }
    );
}

#[test]
fn missing_rows_are_reported_as_missing() {
    let error = CoordinatorError::from_persistence(PersistenceError {
        kind: PersistenceErrorKind::NotFound,
        message: "project not found".to_string(),
    });
    assert_eq!(error.status, 404);
    let error = CoordinatorError::from_persistence(PersistenceError {
        kind: PersistenceErrorKind::Database,
        message: "disk".to_string(),
    });
    assert_eq!(error.status, 500);
}
