use agentic_afk::contracts::{
    AbandonStagedRequest, AssignmentStatusKind, BlockReason, PhaseOutputBody, PlanRunState,
    PlanningSelection, RejectedPlanningCandidate, ReviewFinding,
};
use agentic_afk::json::{Json, JsonDocument};
use agentic_afk::phase_body_format::Stored;

fn document(text: &str) -> JsonDocument {
    JsonDocument::parse(text).unwrap()
}

fn text_of(json: &Json, key: &str) -> String {
    json.text_at(key).unwrap().clone()
}

fn texts(list: &[&str]) -> Vec<String> {
    list.iter().map(|text| text.to_string()).collect()
}

fn assert_block_reason_round_trips(reason: BlockReason, wire: &str) {
    assert_eq!(reason.as_wire(), wire);
    let json = serde_json::to_string(reason.as_wire()).unwrap();
    assert_eq!(json, format!("\"{wire}\""));
    let back: String = serde_json::from_str(&json).unwrap();
    assert_eq!(BlockReason::from_wire(&back), Some(reason));
    assert_eq!(BlockReason::from_wire(wire), Some(reason));
}

#[test]
fn block_reason_round_trip_review_retry_limit_exhausted() {
    assert_block_reason_round_trips(
        BlockReason::ReviewRetryLimitExhausted,
        "review_retry_limit_exhausted",
    );
}

#[test]
fn block_reason_round_trip_merge_phase_failed() {
    assert_block_reason_round_trips(BlockReason::MergePhaseFailed, "merge_phase_failed");
}

#[test]
fn block_reason_round_trip_push_non_fast_forward() {
    assert_block_reason_round_trips(BlockReason::PushNonFastForward, "push_non_fast_forward");
}

#[test]
fn block_reason_round_trip_abandoned_staged() {
    assert_block_reason_round_trips(BlockReason::AbandonedStaged, "abandoned_staged");
}

#[test]
fn block_reason_round_trip_orchestrator_restart() {
    assert_block_reason_round_trips(BlockReason::OrchestratorRestart, "orchestrator_restart");
}

#[test]
fn block_reason_from_wire_rejects_unknown() {
    assert_eq!(BlockReason::from_wire("nope"), None);
}

#[test]
fn block_reason_from_wire_is_case_sensitive() {
    assert_eq!(BlockReason::from_wire("Merge_Phase_Failed"), None);
    assert_eq!(BlockReason::from_wire(""), None);
}

#[test]
fn assignment_statuses_have_their_stored_forms() {
    let kinds = [
        (AssignmentStatusKind::Implementing, "implementing"),
        (AssignmentStatusKind::Implemented, "implemented"),
        (AssignmentStatusKind::Reviewed, "reviewed"),
        (AssignmentStatusKind::Merging, "merging"),
        (AssignmentStatusKind::MergeStaged, "merge_staged"),
        (AssignmentStatusKind::Merged, "merged"),
        (AssignmentStatusKind::Blocked, "blocked"),
    ];
    for (kind, wire) in kinds {
        assert_eq!(kind.as_wire(), wire);
    }
}

#[test]
fn plan_run_states_have_their_stored_forms() {
    assert_eq!(PlanRunState::Running.as_wire(), "running");
    assert_eq!(PlanRunState::Finished.as_wire(), "finished");
}

#[test]
fn abandon_request_has_no_note_by_default() {
    assert_eq!(AbandonStagedRequest::default().note, None);
}

#[test]
fn phase_output_body_failed_round_trips_with_phase_tag() {
    let body = PhaseOutputBody::Failed {
        error: "boom".to_string(),
        problem_type: Some("urn:agentic-afk:planning-phase-failed".to_string()),
    };
    let json = body.to_json();
    assert_eq!(text_of(&json, "phase"), "failed");
    assert_eq!(text_of(&json, "error"), "boom");
    assert_eq!(PhaseOutputBody::from_json(&json), Some(body));
}

#[test]
fn phase_output_body_legacy_shape_falls_back_to_failed() {
    let body = PhaseOutputBody::from_legacy_value(&document(r#"{"error":"stderr: rejected"}"#));
    match body {
        PhaseOutputBody::Failed { error, problem_type } => {
            assert_eq!(error, "stderr: rejected");
            assert_eq!(problem_type, None);
        }
        other => panic!("expected Failed, got {other:?}"),
    }
}

#[test]
fn legacy_body_keeps_problem_type() {
    let body = PhaseOutputBody::from_legacy_value(&document(
        r#"{"error":"late","problem_type":"urn:agentic-afk:x","phase":7}"#,
    ));
    assert_eq!(
        body,
        PhaseOutputBody::Failed {
            error: "late".to_string(),
            problem_type: Some("urn:agentic-afk:x".to_string()),
        }
    );
}

#[test]
fn legacy_body_without_error_shows_the_whole_row() {
    let body = PhaseOutputBody::from_legacy_value(&document("{ \"code\" : 3 }"));
    assert_eq!(
        body,
        PhaseOutputBody::Failed { error: r#"{"code":3}"#.to_string(), problem_type: None }
    );
    let body = PhaseOutputBody::from_legacy_value(&document("  null "));
    assert_eq!(body, PhaseOutputBody::Failed { error: "null".to_string(), problem_type: None });
}

#[test]
fn legacy_reading_prefers_the_typed_body() {
    let body = PhaseOutputBody::from_legacy_value(&document(
        r#"{"phase":"push","error":"ignored","attempt":3}"#,
    ));
    assert_eq!(
        body,
        PhaseOutputBody::Push { stderr: String::new(), fast_forward: false, attempt: 3 }
    );
}

#[test]
fn phase_output_body_implementation_round_trips() {
    let body = PhaseOutputBody::Implementation {
        commits: texts(&["abc123"]),
        verification: texts(&["cargo test --workspace"]),
        gaps: texts(&["no e2e yet"]),
        summary: "shipped".to_string(),
    };
    let json = body.to_json();
    assert_eq!(text_of(&json, "phase"), "implementation");
    assert_eq!(json.array_at("commits").unwrap(), &vec![Json::Text("abc123".to_string())]);
    assert_eq!(text_of(&json, "summary"), "shipped");
    assert_eq!(PhaseOutputBody::from_json(&json), Some(body));
}

#[test]
fn phase_output_body_review_round_trips_with_structured_finding() {
    let body = PhaseOutputBody::Review {
        findings: vec![ReviewFinding {
            location: Some("src/lib.rs:42".to_string()),
            message: "missing null check".to_string(),
        }],
        verification: texts(&["cargo test"]),
        gaps: vec![],
        summary: "needs more".to_string(),
    };
    let json = body.to_json();
    assert_eq!(text_of(&json, "phase"), "review");
    assert_eq!(text_of(&json.array_at("findings").unwrap()[0], "location"), "src/lib.rs:42");
    assert_eq!(PhaseOutputBody::from_json(&json), Some(body));
}

#[test]
fn review_finding_accepts_bare_string_legacy_shape() {
    let json = r#"{"phase":"review","findings":["missing tests"],"summary":"x"}"#;
    let body = PhaseOutputBody::from_json(&document(json).value).unwrap();
    match body {
        PhaseOutputBody::Review { findings, summary, .. } => {
            assert_eq!(findings.len(), 1);
            assert_eq!(findings[0].location, None);
            assert_eq!(findings[0].message, "missing tests");
            assert_eq!(summary, "x");
        }
        other => panic!("expected Review, got {other:?}"),
    }
}

#[test]
fn review_finding_without_location_leaves_the_field_out() {
    let finding = ReviewFinding { location: None, message: "m".to_string() };
    let json = finding.to_json();
    assert_eq!(json.get("location"), None);
    assert_eq!(ReviewFinding::from_json(&json), Some(finding));
    let null = document(r#"{"location":null,"message":"m"}"#);
    assert_eq!(
        ReviewFinding::from_json(&null.value),
        Some(ReviewFinding { location: None, message: "m".to_string() })
    );
    assert_eq!(ReviewFinding::from_json(&document(r#"["here","m"]"#).value), None);
    assert_eq!(ReviewFinding::from_json(&document(r#"{"location":"here"}"#).value), None);
}

#[test]
fn phase_output_body_merge_round_trips() {
    let body = PhaseOutputBody::Merge {
        merged_source_ids: texts(&["42"]),
        verification: texts(&["cargo test --workspace"]),
        gaps: vec![],
        summary: "integrated cleanly".to_string(),
        block_reason: None,
    };
    let json = body.to_json();
    assert_eq!(text_of(&json, "phase"), "merge");
    assert_eq!(json.array_at("merged_source_ids").unwrap(), &vec![Json::Text("42".to_string())]);
    assert_eq!(text_of(&json, "summary"), "integrated cleanly");
    assert_eq!(json.get("block_reason"), None);
    assert_eq!(PhaseOutputBody::from_json(&json), Some(body));
}

#[test]
fn phase_output_body_merge_blocked_carries_block_reason() {
    let body = PhaseOutputBody::Merge {
        merged_source_ids: vec![],
        verification: texts(&["cargo test"]),
        gaps: texts(&["unresolved conflict in src/foo.rs"]),
        summary: "conflict".to_string(),
        block_reason: Some("unresolvable merge conflict".to_string()),
    };
    let json = body.to_json();
    assert_eq!(text_of(&json, "block_reason"), "unresolvable merge conflict");
    assert_eq!(PhaseOutputBody::from_json(&json), Some(body));
}

#[test]
fn phase_output_body_push_success_round_trips() {
    let body = PhaseOutputBody::Push { stderr: String::new(), fast_forward: true, attempt: 1 };
    let json = body.to_json();
    assert_eq!(text_of(&json, "phase"), "push");
    assert_eq!(json.get("fast_forward"), Some(&Json::Bool(true)));
    assert_eq!(json.unsigned_at("attempt"), Some(1));
    assert_eq!(PhaseOutputBody::from_json(&json), Some(body));
}

#[test]
fn phase_output_body_push_failure_carries_stderr() {
    let body = PhaseOutputBody::Push {
        stderr: "remote rejected: non-fast-forward".to_string(),
        fast_forward: false,
        attempt: 2,
    };
    let json = body.to_json();
    assert_eq!(text_of(&json, "phase"), "push");
    assert_eq!(text_of(&json, "stderr"), "remote rejected: non-fast-forward");
    assert_eq!(json.get("fast_forward"), Some(&Json::Bool(false)));
    assert_eq!(json.unsigned_at("attempt"), Some(2));
    assert_eq!(PhaseOutputBody::from_json(&json), Some(body));
}

#[test]
fn phase_output_body_planning_typed_round_trips_with_selection() {
    let body = PhaseOutputBody::Planning {
        selections: vec![PlanningSelection {
            source_issue_id: "62".to_string(),
            title: "Typed Planning variant".to_string(),
            branch: "agent/issue-62".to_string(),
            selection_summary: "baseline ready".to_string(),
        }],
        summary: "one ready issue".to_string(),
        rejected_candidates: vec![RejectedPlanningCandidate {
            source_issue_id: "63".to_string(),
            reason: "depends on #62".to_string(),
        }],
    };
    let json = body.to_json();
    assert_eq!(text_of(&json, "phase"), "planning");
    let selection = &json.array_at("selections").unwrap()[0];
    assert_eq!(text_of(selection, "source_issue_id"), "62");
    assert_eq!(text_of(selection, "branch"), "agent/issue-62");
    assert_eq!(text_of(selection, "selection_summary"), "baseline ready");
    let rejected = &json.array_at("rejected_candidates").unwrap()[0];
    assert_eq!(text_of(rejected, "reason"), "depends on #62");
    assert_eq!(PhaseOutputBody::from_json(&json), Some(body));
}

#[test]
fn phase_output_body_planning_typed_round_trips_empty_selection() {
    let body = PhaseOutputBody::Planning {
        selections: vec![],
        summary: "no eligible work".to_string(),
        rejected_candidates: vec![],
    };
    let json = body.to_json();
    assert_eq!(text_of(&json, "phase"), "planning");
    assert_eq!(json.array_at("selections").unwrap(), &Vec::new());
    assert_eq!(PhaseOutputBody::from_json(&json), Some(body));
}

#[test]
fn phase_output_body_fields_default_where_left_out() {
    assert_eq!(
        PhaseOutputBody::from_json(&document(r#"{"phase":"merge","extra":[1]}"#).value),
        Some(PhaseOutputBody::Merge {
            merged_source_ids: vec![],
            verification: vec![],
            gaps: vec![],
            summary: String::new(),
            block_reason: None,
        })
    );
    assert_eq!(PhaseOutputBody::from_json(&document(r#"{"phase":"failed"}"#).value), None);
    assert_eq!(PhaseOutputBody::from_json(&document(r#"{"phase":"unknown"}"#).value), None);
}

#[test]
fn phase_output_body_rejects_fields_of_the_wrong_kind() {
    let refused = [
        r#"{"phase":"push","attempt":4294967296}"#,
        r#"{"phase":"push","attempt":-1}"#,
        r#"{"phase":"push","attempt":1.0}"#,
        r#"{"phase":"push","fast_forward":"yes"}"#,
        r#"{"phase":"review","gaps":"none"}"#,
        r#"{"phase":"review","gaps":[1]}"#,
        r#"{"phase":"review","summary":null}"#,
        r#"{"phase":"planning","selections":[{"title":"t"}]}"#,
        r#"{"phase":5}"#,
        r#""push""#,
    ];
    for text in refused {
        assert_eq!(PhaseOutputBody::from_json(&document(text).value), None, "{text}");
    }
    assert_eq!(
        PhaseOutputBody::from_json(&document(r#"{"phase":"push","attempt":4294967295}"#).value),
        Some(PhaseOutputBody::Push {
            stderr: String::new(),
            fast_forward: false,
            attempt: 4294967295,
        })
    );
}

#[test]
fn phase_output_body_reads_the_positional_shape() {
    assert_eq!(
        PhaseOutputBody::from_json(&document(r#"["failed","boom"]"#).value),
        Some(PhaseOutputBody::Failed { error: "boom".to_string(), problem_type: None })
    );
    assert_eq!(PhaseOutputBody::from_json(&document(r#"["failed","boom",null,0]"#).value), None);
    assert_eq!(
        PhaseOutputBody::from_json(
            &document(r#"["planning",[["62","T","agent/issue-62"]],"why"]"#).value
        ),
        Some(PhaseOutputBody::Planning {
            selections: vec![PlanningSelection {
                source_issue_id: "62".to_string(),
                title: "T".to_string(),
                branch: "agent/issue-62".to_string(),
                selection_summary: String::new(),
            }],
            summary: "why".to_string(),
            rejected_candidates: vec![],
        })
    );
}

#[test]
fn phase_tags_name_the_variants() {
    let body = PhaseOutputBody::Failed { error: String::new(), problem_type: None };
    assert_eq!(body.phase_tag(), "failed");
    let body = PhaseOutputBody::Push { stderr: String::new(), fast_forward: true, attempt: 1 };
    assert_eq!(body.phase_tag(), "push");
}
