use agentic_afk::contracts::{
    ProblemDetail, ProjectActivityEntryResponse, ProjectEvent, ProjectId, ProjectResponse,
    ProjectSnapshot,
};
use agentic_afk::project_store::{
    ApplyOutcome, IssueAssignmentId, MutationCategory, MutationFailure, MutationKey, MutationState,
    MutationsTable, ProjectStore, ProjectStoreState, SourceIssueId, ToastKind,
};
use agentic_afk::ui::{
    button_view, derive_button_render_state, skeleton_style, ButtonRenderState, ButtonVariant,
    PillTone, BASE_BTN,
};

fn activity_entry(id: &str, kind: &str) -> ProjectActivityEntryResponse {
    ProjectActivityEntryResponse {
        id: id.to_string(),
        project_id: "p".to_string(),
        assignment_id: None,
        kind: kind.to_string(),
        detail: None,
        recorded_at: "0".to_string(),
    }
}

fn snapshot_with_activity(activity: Vec<ProjectActivityEntryResponse>) -> ProjectSnapshot {
    ProjectSnapshot {
        project: ProjectResponse {
            id: ProjectId("p".to_string()),
            path: String::new(),
            trusted: true,
            git_summary: None,
            enabled_issue_source: None,
        },
        planning_snapshot: None,
        activity,
        issue_source_candidates: vec![],
        execution_config: None,
        active_plan_run: None,
        recent_plan_runs: vec![],
    }
}

#[test]
fn sequential_event_merges_and_bumps_seq() {
    let mut state = ProjectStoreState::new();
    state.last_seen_seq = 5;

    let outcome = state.apply_event(6, ProjectEvent::Activity(activity_entry("a1", "started")));

    assert_eq!(outcome, ApplyOutcome::Merged);
    assert_eq!(state.last_seen_seq, 6);
    assert_eq!(state.activity.len(), 1);
    assert_eq!(state.activity[0].id, "a1");
    assert!(!state.needs_rehydrate);
}

#[test]
fn stale_event_is_ignored() {
    let mut state = ProjectStoreState::new();
    state.last_seen_seq = 5;
    state.activity.push(activity_entry("a-old", "k"));

    let outcome = state.apply_event(5, ProjectEvent::Activity(activity_entry("dup", "k")));

    assert_eq!(outcome, ApplyOutcome::Stale);
    assert_eq!(state.last_seen_seq, 5);
    assert_eq!(state.activity.len(), 1);
    assert_eq!(state.activity[0].id, "a-old");
    assert!(!state.needs_rehydrate);
}

#[test]
fn sequence_gap_triggers_rehydrate_without_merge() {
    let mut state = ProjectStoreState::new();
    state.last_seen_seq = 5;

    let outcome = state.apply_event(8, ProjectEvent::Activity(activity_entry("a", "k")));

    assert_eq!(outcome, ApplyOutcome::Rehydrate);
    assert!(state.needs_rehydrate);
    assert_eq!(state.last_seen_seq, 5);
    assert!(state.activity.is_empty());
}

#[test]
fn resync_event_triggers_rehydrate() {
    let mut state = ProjectStoreState::new();
    state.last_seen_seq = 10;

    let outcome = state.apply_event(99, ProjectEvent::Resync);

    assert_eq!(outcome, ApplyOutcome::Rehydrate);
    assert!(state.needs_rehydrate);
    assert_eq!(state.last_seen_seq, 10);
}

#[test]
fn hydrate_then_merge_produces_combined_state() {
    let mut state = ProjectStoreState::new();
    let snapshot_activity =
        vec![activity_entry("a-old-1", "started"), activity_entry("a-old-2", "started")];
    state.hydrate(snapshot_with_activity(snapshot_activity), 7);

    let _ = state.apply_event(8, ProjectEvent::Activity(activity_entry("a-new-1", "k")));
    let _ = state.apply_event(9, ProjectEvent::Activity(activity_entry("a-new-2", "k")));

    assert_eq!(state.last_seen_seq, 9);
    assert!(!state.needs_rehydrate);
    let ids: Vec<&str> = state.activity.iter().map(|e| e.id.as_str()).collect();
    assert_eq!(ids, vec!["a-new-2", "a-new-1", "a-old-1", "a-old-2"]);
}

#[test]
fn last_sequence_number_has_no_successor() {
    let mut state = ProjectStoreState::new();
    state.last_seen_seq = u64::MAX;
    let outcome = state.apply_event(u64::MAX, ProjectEvent::IssueSourceSyncStarted);
    assert_eq!(outcome, ApplyOutcome::Stale);
}

#[test]
fn other_events_only_move_the_sequence() {
    let mut state = ProjectStoreState::new();
    let outcome = state.apply_event(1, ProjectEvent::IssueSourceSyncStarted);
    assert_eq!(outcome, ApplyOutcome::Merged);
    assert_eq!(state.last_seen_seq, 1);
    assert!(state.activity.is_empty());
}

/// What the body of a response reads as.
fn described(body: &str) -> Option<ProblemDetail> {
    let value: serde_json::Value = serde_json::from_str(body).ok()?;
    Some(ProblemDetail {
        problem_type: value["type"].as_str()?.to_string(),
        title: value["title"].as_str()?.to_string(),
        status: u16::try_from(value["status"].as_u64()?).ok()?,
        detail: value["detail"].as_str()?.to_string(),
    })
}

#[test]
fn parses_validation_error_from_problem_json_4xx() {
    let body = r#"{"type":"about:blank","title":"Untrusted Project","status":422,"detail":"Project must be trusted before assignment"}"#;

    let state = MutationState::from_failure(Some(422), body, described(body));

    assert_eq!(
        state,
        MutationState::Error {
            category: MutationCategory::Validation,
            title: "Untrusted Project".to_string(),
            detail: "Project must be trusted before assignment".to_string(),
        }
    );
}

#[test]
fn parses_transient_error_from_5xx() {
    let body = r#"{"type":"about:blank","title":"Internal error","status":500,"detail":"db unavailable"}"#;

    let state = MutationState::from_failure(Some(500), body, described(body));

    match state {
        MutationState::Error { category, .. } => {
            assert_eq!(category, MutationCategory::Transient);
        }
        other => panic!("expected error, got {other:?}"),
    }
}

#[test]
fn parses_transient_error_from_network_failure() {
    let state = MutationState::from_failure(None, "tcp closed", described("tcp closed"));

    match state {
        MutationState::Error { category, title, detail } => {
            assert_eq!(category, MutationCategory::Transient);
            assert_eq!(title, "Request failed");
            assert_eq!(detail, "tcp closed");
        }
        other => panic!("expected error, got {other:?}"),
    }
}

#[test]
fn unreadable_failure_body_is_kept_as_detail() {
    assert_eq!(
        MutationState::from_failure(Some(404), "not json", None),
        MutationState::Error {
            category: MutationCategory::Validation,
            title: "Request failed".to_string(),
            detail: "not json".to_string(),
        }
    );
    assert_eq!(
        MutationState::from_failure(Some(302), "", None),
        MutationState::Error {
            category: MutationCategory::System,
            title: "Request failed".to_string(),
            detail: String::new(),
        }
    );
}

#[test]
fn pending_state_recorded_after_starting_mutation() {
    let mut table = MutationsTable::new();
    let key = MutationKey::TrustProject(ProjectId("p1".to_string()));

    table.set_pending(key.clone());

    assert_eq!(table.get(&key), Some(&MutationState::Pending));
}

#[test]
fn pending_then_done_transition() {
    let mut table = MutationsTable::new();
    let key = MutationKey::TrustProject(ProjectId("p1".to_string()));

    table.set_pending(key.clone());
    table.set_done(key.clone());

    assert_eq!(table.get(&key), Some(&MutationState::Done));
    assert!(!table.is_pending(&key));
}

#[test]
fn pending_then_error_transition() {
    let mut table = MutationsTable::new();
    let key = MutationKey::TrustProject(ProjectId("p1".to_string()));

    table.set_pending(key.clone());
    table.set_error(key.clone(), MutationCategory::Validation, "bad".into(), "nope".into());

    assert!(matches!(
        table.get(&key),
        Some(MutationState::Error { category: MutationCategory::Validation, .. })
    ));
    assert!(!table.is_pending(&key));
}

#[test]
fn assignment_keys_are_distinct_by_variant_and_id() {
    let project = ProjectId("p1".to_string());
    let source = SourceIssueId("issue-A".to_string());
    let assignment = IssueAssignmentId("assn-A".to_string());

    let mut table = MutationsTable::new();
    let start = MutationKey::StartAssignment(project.clone(), source.clone());
    let abandon = MutationKey::AbandonAssignment(project.clone(), assignment.clone());
    let recover = MutationKey::RecoverAssignment(project.clone(), assignment.clone());
    let refresh = MutationKey::RefreshProposalState(project.clone(), assignment.clone());

    table.set_pending(start.clone());

    assert!(table.is_pending(&start));
    assert!(!table.is_pending(&abandon));
    assert!(!table.is_pending(&recover));
    assert!(!table.is_pending(&refresh));

    table.set_pending(abandon.clone());
    assert!(table.is_pending(&abandon));
    assert!(!table.is_pending(&recover));
    assert!(!table.is_pending(&refresh));
}

#[test]
fn sync_issue_source_key_tracked_independently_from_trust() {
    let mut table = MutationsTable::new();
    let project = ProjectId("p1".to_string());
    let trust = MutationKey::TrustProject(project.clone());
    let sync = MutationKey::SyncIssueSource(project);

    table.set_pending(sync.clone());

    assert!(table.is_pending(&sync));
    assert!(!table.is_pending(&trust));
}

#[test]
fn enable_issue_source_keys_distinguish_by_kind_and_locator() {
    let mut table = MutationsTable::new();
    let project = ProjectId("p1".to_string());
    let github =
        MutationKey::EnableIssueSource(project.clone(), "github".into(), "acme/repo".into());
    let local =
        MutationKey::EnableIssueSource(project, "local_markdown".into(), ".scratch/issues".into());

    table.set_pending(github.clone());

    assert!(table.is_pending(&github));
    assert!(!table.is_pending(&local));
}

#[test]
fn parallel_keys_tracked_independently() {
    let mut table = MutationsTable::new();
    let a = MutationKey::TrustProject(ProjectId("a".into()));
    let b = MutationKey::TrustProject(ProjectId("b".into()));

    table.set_pending(a.clone());
    table.set_pending(b.clone());
    table.set_done(a.clone());

    assert_eq!(table.get(&a), Some(&MutationState::Done));
    assert_eq!(table.get(&b), Some(&MutationState::Pending));
    assert!(table.is_pending(&b));
    assert!(!table.is_pending(&a));
}

#[test]
fn store_follows_a_request_to_its_end() {
    let mut store = ProjectStore::new();
    let key = MutationKey::StartPlanRun(ProjectId("p".into()));
    assert_eq!(store.state(&key), None);
    store.begin_mutation(key.clone());
    assert!(store.is_pending(&key));
    store.mutate(key.clone(), None);
    assert_eq!(store.state(&key), Some(MutationState::Done));

    let failure = MutationFailure::http(422, "plain".to_string());
    store.begin_mutation(key.clone());
    store.mutate(key.clone(), Some((&failure, None)));
    assert_eq!(
        store.state(&key),
        Some(MutationState::Error {
            category: MutationCategory::Validation,
            title: "Request failed".to_string(),
            detail: "plain".to_string(),
        })
    );
    assert!(store.toasts().is_empty());
    let failure = MutationFailure::http(503, "{}".to_string());
    let problem = ProblemDetail {
        problem_type: "about:blank".to_string(),
        title: "Busy".to_string(),
        status: 503,
        detail: "later".to_string(),
    };
    store.mutate(key.clone(), Some((&failure, Some(problem))));
    assert_eq!(store.toasts().len(), 1);
    assert_eq!(store.toasts()[0].title, "Busy");
    assert_eq!(store.toasts()[0].detail, "later");
    assert_eq!(MutationFailure::network("x".to_string()).status, None);
}

#[test]
fn toasts_are_dismissed_one_by_one() {
    let mut store = ProjectStore::new();
    store.push_success("one".to_string(), "d".to_string());
    store.push_success("two".to_string(), "d".to_string());
    assert_eq!(store.toasts().len(), 2);
    assert_eq!(store.toasts()[0].kind, ToastKind::Success);
    let first = store.toasts()[0].id;
    store.dismiss_toast(first);
    assert_eq!(store.toasts().len(), 1);
    assert_eq!(store.toasts()[0].title, "two");
    store.dismiss_toast(first);
    assert_eq!(store.toasts().len(), 1);
}

#[test]
fn store_asks_for_a_snapshot_after_a_gap() {
    let mut store = ProjectStore::new();
    store.hydrate(snapshot_with_activity(vec![]), 3);
    assert_eq!(store.apply_event(9, ProjectEvent::IssueSourceSyncStarted), ApplyOutcome::Rehydrate);
    assert!(store.needs_rehydrate());
    store.clear_rehydrate_flag();
    assert!(!store.needs_rehydrate());
    let before = store.reload_counter();
    store.bump_reload();
    assert_eq!(store.reload_counter(), before + 1);
}

#[test]
fn no_store_entry_renders_idle() {
    assert_eq!(derive_button_render_state(None), ButtonRenderState::Idle);
}

#[test]
fn pending_state_renders_pending() {
    assert_eq!(
        derive_button_render_state(Some(MutationState::Pending)),
        ButtonRenderState::Pending
    );
}

#[test]
fn error_state_renders_idle_with_problem_fields_adjacent() {
    let state = MutationState::Error {
        category: MutationCategory::Validation,
        title: "project trust required".into(),
        detail: "trust the project from settings before booting an agent".into(),
    };
    assert_eq!(
        derive_button_render_state(Some(state)),
        ButtonRenderState::IdleWithError {
            title: "project trust required".into(),
            detail: "trust the project from settings before booting an agent".into(),
        }
    );
}

#[test]
fn done_state_renders_idle() {
    assert_eq!(derive_button_render_state(Some(MutationState::Done)), ButtonRenderState::Idle);
}

#[test]
fn pending_button_cannot_be_pressed() {
    let view = button_view(ButtonRenderState::Pending, ButtonVariant::Primary, false);
    assert!(!view.pressable);
    assert!(view.pending);
    let view = button_view(ButtonRenderState::Idle, ButtonVariant::Default, false);
    assert!(view.pressable);
    assert!(view.class.starts_with(BASE_BTN));
    let error = ButtonRenderState::IdleWithError { title: "t".into(), detail: "d".into() };
    let view = button_view(error, ButtonVariant::Destructive, false);
    assert_eq!(view.error, Some(("t".to_string(), "d".to_string())));
    assert!(view.pressable);
}

#[test]
fn skeleton_has_its_width() {
    assert_eq!(skeleton_style(60), "width: 60%;");
    assert_eq!(PillTone::Idle.color_class(), "text-ink-dim");
    assert_eq!(PillTone::Failed.color_class(), "text-coral");
}
