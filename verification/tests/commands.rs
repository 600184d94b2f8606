use agentic_afk::abandon::{removal_args, remove_assignment_worktree};
use agentic_afk::command::{command_failure, describe_exit, failure_text, CommandRun, RawRun};
use agentic_afk::contracts::{
    AssignmentTerminalOutcome, FailedCheckFact, IssueSource, ProjectId, ProjectResponse,
};
use agentic_afk::git_summary::{
    default_branch_args, detect_default_branch, summarize_project_path, RepositoryFacts,
};
use agentic_afk::json::{parse_json_bytes, parse_json_list, Json};
use agentic_afk::lifecycle::{
    github_write_result, is_inside, issue_file_name, parse_local_markdown_issue_minimal,
    update_markdown_lifecycle_status, write_assignment_lifecycle, GhLifecycleWriter,
    LifecycleWrite, LocalWriteFailure,
};
use agentic_afk::plan_run::{LifecycleStatus, PlanRunPhaseError, RefreshedBaseline};
use agentic_afk::production::{
    CleanupStep, GitAssignmentWorktreeCleaner, GitIntegrationBranchPusher,
    GitIntegrationBranchRefresher, RefreshNext, RefreshStep,
    WorktrunkAssignmentWorktreeProvisioner,
};
use agentic_afk::recover::{
    build_recovery_prompt, stop_args, stop_prior_codex_if_owned, PriorProcessOutcome,
    RecoveryPromptFacts,
};
use agentic_afk::repair::{build_repair_prompt, RepairPromptFacts};
use agentic_afk::verify::{
    checks_args, classify_checks, cleanup_assignment_worktree, inspect_required_checks,
    is_pull_request_merged, parse_pull_request_number, AcceptedCleanup, CheckState,
};
use agentic_afk::worktrunk::{
    codex_process_identity, create_assignment_worktree, parse_worktrunk_path, preflight_binary,
    WorktreeNext, WorktreeStep,
};

fn ended(success: bool, stdout: &str, stderr: &str) -> CommandRun {
    CommandRun::Ended {
        success,
        status: if success { "exit status: 0" } else { "exit status: 1" }.to_string(),
        stdout: stdout.to_string(),
        stderr: stderr.to_string(),
    }
}

fn raw(success: bool, stdout: &str, stderr: &str) -> RawRun {
    RawRun::Ended {
        success,
        status: if success { "exit status: 0" } else { "exit status: 1" }.to_string(),
        stdout: stdout.as_bytes().to_vec(),
        stderr: stderr.to_string(),
    }
}

// --- Recovery ---

#[test]
fn recovery_prompt_includes_durable_facts_not_invented_reasoning() {
    let prompt = build_recovery_prompt(RecoveryPromptFacts {
        source_issue_raw_text: "# Title\n\nbody",
        source_id: "issue-7",
        assignment_branch: "agentic-afk/local-markdown-issue-7",
        assignment_worktree_path: "/tmp/wt",
        prior_process_identity: Some("procfs-start-time:1234"),
        prior_block_reason: Some("missing-input"),
    });
    assert!(prompt.contains("recovery Assignment Attempt"));
    assert!(prompt.contains("issue-7"));
    assert!(prompt.contains("/tmp/wt"));
    assert!(prompt.contains("agentic-afk/local-markdown-issue-7"));
    assert!(prompt.contains("procfs-start-time:1234"));
    assert!(prompt.contains("missing-input"));
    assert!(prompt.contains("# Title\n\nbody"));
    assert!(!prompt.to_lowercase().contains("the prior agent thought"));
}

#[test]
fn recovery_prompt_handles_missing_optional_facts() {
    let prompt = build_recovery_prompt(RecoveryPromptFacts {
        source_issue_raw_text: "raw",
        source_id: "id",
        assignment_branch: "b",
        assignment_worktree_path: "/p",
        prior_process_identity: None,
        prior_block_reason: None,
    });
    assert!(prompt.contains("id"));
    assert!(!prompt.contains("Prior Codex process identity"));
    assert!(!prompt.contains("Prior block reason"));
}

#[test]
fn stop_prior_no_record_when_either_field_missing() {
    assert_eq!(
        stop_prior_codex_if_owned(None, Some("id"), |_| Some("id".to_string())),
        PriorProcessOutcome::NoPriorRecord
    );
    assert_eq!(
        stop_prior_codex_if_owned(Some(1), None, |_| Some("id".to_string())),
        PriorProcessOutcome::NoPriorRecord
    );
}

#[test]
fn stop_prior_already_stopped_when_identity_lookup_returns_none() {
    assert_eq!(
        stop_prior_codex_if_owned(Some(42), Some("id"), |_| None),
        PriorProcessOutcome::AlreadyStopped
    );
}

#[test]
fn stop_prior_already_stopped_when_identity_lookup_mismatches() {
    assert_eq!(
        stop_prior_codex_if_owned(Some(42), Some("old"), |_| Some("new".to_string())),
        PriorProcessOutcome::AlreadyStopped
    );
}

#[test]
fn stop_prior_stops_the_process_that_is_owned() {
    assert_eq!(
        stop_prior_codex_if_owned(Some(42), Some("id"), |_| Some("id".to_string())),
        PriorProcessOutcome::Stopped
    );
    assert!(stop_args(42).contains(&"42".to_string()));
}

#[test]
fn build_recovery_prompt_round_trips_terminal_outcome_summary_as_block_reason() {
    let outcome = AssignmentTerminalOutcome {
        outcome: "Blocked".to_string(),
        summary: "need credentials".to_string(),
    };
    let prompt = build_recovery_prompt(RecoveryPromptFacts {
        source_issue_raw_text: "raw",
        source_id: "id",
        assignment_branch: "b",
        assignment_worktree_path: "/p",
        prior_process_identity: None,
        prior_block_reason: Some(&outcome.summary),
    });
    assert!(prompt.contains("need credentials"));
}

// --- Repair ---

fn facts<'a>(failed: &'a [FailedCheckFact]) -> RepairPromptFacts<'a> {
    RepairPromptFacts {
        source_id: "21",
        source_title: "Repair me",
        source_raw_text: "# Repair me\n\nBody of the issue.",
        change_proposal_url: "https://github.com/owner/repo/pull/42",
        branch: "agentic-afk/github-21",
        failed_checks: failed,
        verified_worktree_facts: Some("tests previously passed locally"),
    }
}

#[test]
fn prompt_carries_proposal_identity_branch_and_source_brief() {
    let prompt = build_repair_prompt(&facts(&[]));
    assert!(prompt.contains("Source Issue: 21 Repair me"));
    assert!(prompt.contains("Change Proposal: https://github.com/owner/repo/pull/42"));
    assert!(prompt.contains("Assignment branch: agentic-afk/github-21"));
    assert!(prompt.contains("Body of the issue."));
    assert!(prompt.contains("Verified worktree facts:"));
    assert!(prompt.contains("tests previously passed locally"));
}

#[test]
fn prompt_lists_failed_check_facts() {
    let failed = vec![
        FailedCheckFact {
            name: "ci/lint".to_string(),
            url: Some("https://github.com/owner/repo/actions/runs/1".to_string()),
            summary: Some("clippy failure".to_string()),
        },
        FailedCheckFact { name: "ci/unit".to_string(), url: None, summary: None },
    ];
    let prompt = build_repair_prompt(&facts(&failed));
    assert!(prompt.contains(
        "- ci/lint (https://github.com/owner/repo/actions/runs/1): clippy failure"
    ));
    assert!(prompt.contains("- ci/unit"));
}

#[test]
fn prompt_states_no_failed_checks_when_none_reported() {
    let prompt = build_repair_prompt(&facts(&[]));
    assert!(prompt.contains("Failed required checks:\n- (none reported)"));
}

// --- Change Proposals ---

#[test]
fn parses_pull_request_numbers_from_urls() {
    assert_eq!(
        parse_pull_request_number("https://github.com/owner/repo/pull/42"),
        Some(42)
    );
    assert_eq!(parse_pull_request_number("42"), Some(42));
    assert_eq!(parse_pull_request_number(""), None);
}

#[test]
fn pull_request_numbers_have_their_limits() {
    assert_eq!(parse_pull_request_number("https://x/pull/18446744073709551615"), Some(u64::MAX));
    assert_eq!(parse_pull_request_number("https://x/pull/18446744073709551616"), None);
    assert_eq!(parse_pull_request_number("https://x/pull/4a"), None);
    assert_eq!(parse_pull_request_number("https://x/pull/+7"), Some(7));
    assert_eq!(parse_pull_request_number("https://x/pull/-7"), None);
}

#[test]
fn the_last_number_of_a_url_counts() {
    assert_eq!(parse_pull_request_number("https://github.com/owner/repo/pull/42/files"), Some(42));
    assert_eq!(parse_pull_request_number("https://x/1/pull/2/checks"), Some(2));
}

#[test]
fn required_checks_pass_only_together() {
    let checks = |text: &str| classify_checks(&parse_json_list(text).unwrap());
    assert_eq!(checks(r#"[{"name":"a","bucket":"pass"}]"#), CheckState::Passing);
    assert_eq!(
        checks(r#"[{"name":"a","bucket":"pass"},{"name":"b","bucket":"pending"}]"#),
        CheckState::Pending
    );
    assert!(matches!(
        checks(r#"[{"name":"a","bucket":"pending"},{"name":"b","bucket":"fail"}]"#),
        CheckState::Failing(_)
    ));
    assert_eq!(
        inspect_required_checks(&ended(true, r#"[{"name":"a","bucket":"pass"}]"#, "")),
        Ok(CheckState::Passing)
    );
    assert!(inspect_required_checks(&ended(true, "not a list", "")).is_err());
    assert!(checks_args("owner/repo", 42).contains(&"42".to_string()));
}

#[test]
fn merged_pull_requests_are_recognised() {
    assert_eq!(is_pull_request_merged(&raw(true, r#"{"state":"MERGED"}"#, "")), Ok(true));
    assert_eq!(is_pull_request_merged(&raw(true, r#"{"state":"OPEN"}"#, "")), Ok(false));
    assert!(is_pull_request_merged(&raw(true, "{", "")).is_err());
    assert!(is_pull_request_merged(&raw(false, "", "no auth")).is_err());
}

// --- Worktrees ---

#[test]
fn create_assignment_worktree_reuses_existing_branch() {
    let branch = "agent/issue-79";
    assert_eq!(WorktreeStep::Create.args(branch)[..3], ["switch", "--create", branch]);
    assert_eq!(WorktreeStep::Reuse.args(branch)[..3], ["switch", branch, "--yes"]);
    let refused = raw(
        false,
        "",
        "Branch agent/issue-79 already exists\nTo switch to the existing branch, run without --create: wt switch agent/issue-79\n",
    );
    assert_eq!(
        create_assignment_worktree(WorktreeStep::Create, branch, &refused),
        Ok(WorktreeNext::Run(WorktreeStep::Reuse))
    );
    let reused = raw(true, r#"{"path":"/tmp/reused-agent-issue-79"}"#, "");
    assert_eq!(
        create_assignment_worktree(WorktreeStep::Reuse, branch, &reused),
        Ok(WorktreeNext::Done("/tmp/reused-agent-issue-79".to_string()))
    );
    assert!(create_assignment_worktree(WorktreeStep::Reuse, branch, &refused).is_err());
}

#[test]
fn create_assignment_worktree_does_not_retry_unrelated_failure() {
    let failed = raw(false, "", "docker is unavailable\n");
    let error = create_assignment_worktree(WorktreeStep::Create, "agent/issue-79", &failed)
        .expect_err("unrelated failures should remain fatal");
    assert!(error.contains("docker is unavailable"));
}

#[test]
fn worktree_paths_are_found_at_any_depth() {
    let path = |text: &str| parse_worktrunk_path(&text.as_bytes().to_vec());
    assert_eq!(path(r#"{"worktree_path":"/w"}"#), Ok("/w".to_string()));
    assert_eq!(path(r#"[{"a":{"path":"/deep"}}]"#), Ok("/deep".to_string()));
    assert_eq!(
        path("{}"),
        Err("Worktrunk worktree output did not include a path".to_string())
    );
    assert!(path("{").is_err());
}

#[test]
fn accepted_worktree_goes_before_its_branch() {
    let (remove, delete) = (AcceptedCleanup::RemoveWorktree, AcceptedCleanup::DeleteBranch);
    assert_eq!(remove.program("/bin/wt"), "/bin/wt");
    assert_eq!(remove.args("agent/x"), ["remove", "agent/x", "--yes"]);
    assert_eq!(delete.program("/bin/wt"), "git");
    assert_eq!(delete.args("agent/x"), ["branch", "-D", "agent/x"]);
    assert_eq!(cleanup_assignment_worktree(remove, &ended(true, "", "")), Ok(Some(delete)));
    assert_eq!(
        cleanup_assignment_worktree(
            remove,
            &CommandRun::NotStarted { error: "not found".to_string() }
        ),
        Err("failed to remove Assignment Worktree: not found".to_string())
    );
    let failed = cleanup_assignment_worktree(remove, &ended(false, "", " locked\n"));
    assert!(failed.unwrap_err().ends_with(": locked"));
    assert_eq!(cleanup_assignment_worktree(delete, &ended(true, "", "")), Ok(None));
    assert_eq!(cleanup_assignment_worktree(delete, &ended(false, "", "no such branch")), Ok(None));
    let missing = CommandRun::NotStarted { error: "not found".to_string() };
    assert_eq!(cleanup_assignment_worktree(delete, &missing), Ok(None));
}

#[test]
fn worktree_commands_report_their_failures() {
    assert_eq!(remove_assignment_worktree(&ended(true, "", "")), Ok(()));
    assert!(remove_assignment_worktree(&ended(false, "", "locked")).is_err());
    assert!(removal_args("agent/x").contains(&"agent/x".to_string()));
    assert_eq!(preflight_binary("gh", &ended(true, "", "")), Ok(()));
    let missing = CommandRun::NotStarted { error: "not found".to_string() };
    assert!(preflight_binary("gh", &missing).unwrap_err().contains("gh"));
}

#[test]
fn process_identity_is_the_start_time() {
    let stat = "4242 (co dex) S 1 2 3 4 5 6 7 8 9 10 11 12 13 14 15 16 17 18 987654 20 21";
    assert_eq!(codex_process_identity(stat), Some("procfs-start-time:987654".to_string()));
    assert_eq!(codex_process_identity("4242 codex"), None);
}

// --- Git ---

#[test]
fn git_integration_branch_pusher_returns_non_fast_forward_on_diverged_remote() {
    let pusher = GitIntegrationBranchPusher;
    assert_eq!(pusher.args("main"), ["push", "origin", "main"]);
    let stderr = "To /remote.git\n ! [rejected]        main -> main (fetch first)\nerror: failed to push some refs\n";
    match pusher.result("main", &ended(false, "", stderr)) {
        Err(PlanRunPhaseError::NonFastForward { stderr }) => {
            let lower = stderr.to_ascii_lowercase();
            assert!(
                lower.contains("non-fast-forward")
                    || lower.contains("fetch first")
                    || lower.contains("rejected"),
                "stderr should carry remote rejection text, got: {stderr}"
            );
        }
        other => panic!("expected NonFastForward, got {other:?}"),
    }
}

#[test]
fn git_integration_branch_pusher_returns_integration_push_on_unreachable_remote() {
    let stderr = "fatal: '/nonexistent/agentic-afk-unreachable.git' does not appear to be a git repository\n";
    match GitIntegrationBranchPusher.result("main", &ended(false, "", stderr)) {
        Err(PlanRunPhaseError::IntegrationPush(detail)) => assert!(!detail.is_empty()),
        other => panic!("expected IntegrationPush, got {other:?}"),
    }
    assert_eq!(GitIntegrationBranchPusher.result("main", &ended(true, "", "")), Ok(()));
}

#[test]
fn refresh_runs_its_commands_in_order() {
    let refresher = GitIntegrationBranchRefresher;
    let mut step = refresher.first();
    let mut seen = vec![step];
    let baseline = loop {
        match refresher.advance(step, "main", &ended(true, " deadbeef \n", "")).unwrap() {
            RefreshNext::Run(next) => {
                step = next;
                seen.push(step);
            }
            RefreshNext::Done(baseline) => break baseline,
        }
    };
    assert_eq!(
        seen,
        [RefreshStep::Fetch, RefreshStep::Checkout, RefreshStep::Pull, RefreshStep::Head]
    );
    assert_eq!(baseline, RefreshedBaseline { commit_sha: "deadbeef".to_string() });
    let failed = refresher.advance(RefreshStep::Pull, "main", &ended(false, "", "conflict"));
    assert!(matches!(
        failed,
        Err(PlanRunPhaseError::Refresh(detail)) if detail.contains("git pull --ff-only origin main")
    ));
}

#[test]
fn clean_up_removes_the_worktree_before_the_branch() {
    let cleaner = GitAssignmentWorktreeCleaner;
    assert_eq!(cleaner.first(), CleanupStep::RemoveWorktree);
    let next = cleaner.advance(CleanupStep::RemoveWorktree, "/w", "b", &ended(true, "", ""));
    assert_eq!(next, Ok(Some(CleanupStep::DeleteBranch)));
    let next = cleaner.advance(CleanupStep::DeleteBranch, "/w", "b", &ended(true, "", ""));
    assert_eq!(next, Ok(None));
    let provisioner = WorktrunkAssignmentWorktreeProvisioner::new("wt".to_string());
    assert!(matches!(
        provisioner.result(Err("boom".to_string())),
        Err(PlanRunPhaseError::WorktreeProvision(_))
    ));
}

#[test]
fn repository_facts_become_a_summary() {
    let facts = RepositoryFacts {
        referent: Some("refs/heads/main".to_string()),
        head: Some("abc".to_string()),
        dirty: None,
    };
    let summary = summarize_project_path(facts, Some("main".to_string()));
    assert_eq!(summary.branch, Some("main".to_string()));
    assert_eq!(summary.head, Some("abc".to_string()));
    assert_eq!(summary.default_branch, Some("main".to_string()));
    assert_eq!(
        detect_default_branch(&ended(true, " origin/trunk\n", "")),
        Some("trunk".to_string())
    );
    assert_eq!(detect_default_branch(&ended(false, "", "")), None);
    assert_eq!(detect_default_branch(&ended(true, " \n", "")), None);
    assert_eq!(
        default_branch_args(),
        ["symbolic-ref", "--quiet", "--short", "refs/remotes/origin/HEAD"]
    );
}

// --- Lifecycle ---

fn writer(kind: &str, locator: &str) -> GhLifecycleWriter {
    GhLifecycleWriter::for_project(
        "gh".to_string(),
        ProjectResponse {
            id: ProjectId("p".to_string()),
            path: "/tmp/p".to_string(),
            trusted: true,
            git_summary: None,
            enabled_issue_source: None,
        },
        IssueSource { kind: kind.to_string(), locator: locator.to_string() },
    )
}

#[test]
fn gh_lifecycle_writer_writes_local_markdown_claimed() {
    let writer = writer("local_markdown", "issues");
    assert_eq!(
        writer.plan_write("42", LifecycleStatus::Claimed),
        Ok(LifecycleWrite::LocalMarkdown)
    );
    assert_eq!(issue_file_name("42"), "42.md");
    let updated = update_markdown_lifecycle_status(
        "# 42 — Sample issue\n\nLifecycle Status: ready\n\nbody\n".to_string(),
        LifecycleStatus::Claimed.as_str(),
    );
    assert_eq!(writer.result(Ok(())), Ok(()));
    assert!(updated.contains("Lifecycle Status: claimed"));
    assert!(!updated.contains("Lifecycle Status: ready"));
}

#[test]
fn status_is_added_below_the_heading() {
    let updated = update_markdown_lifecycle_status("# T\n\nbody\n".to_string(), "blocked");
    assert!(updated.contains("Lifecycle Status: blocked"));
    assert!(updated.starts_with("# T\n"));
    assert!(updated.contains("body"));
    let issue = parse_local_markdown_issue_minimal("7".to_string(), updated.clone());
    assert_eq!(issue.source_id, "7");
    assert_eq!(issue.raw_text, updated);
}

#[test]
fn last_written_status_wins() {
    let write = |text: &str, status: &str| {
        update_markdown_lifecycle_status(text.to_string(), status)
    };
    for text in [
        "",
        "body",
        "  body",
        "# T",
        "# T\n\nbody",
        "# T\nmore\n   \nbody\n",
        "# T\n\n  lifecycle status: ready\nLifecycle Status: x\nbody",
        "a\r\nb",
    ] {
        let once = write(text, "blocked");
        let twice = write(&write(text, "in-progress"), "blocked");
        assert_eq!(twice, once, "{text:?}");
        assert_eq!(write(&once, "blocked"), once, "{text:?}");
    }
    assert_eq!(
        write(&write("# T\n\nbody", "in-progress"), "blocked"),
        "# T\nLifecycle Status: blocked\n\n\n\nbody"
    );
}

#[test]
fn empty_last_line_is_lost_when_a_status_is_written() {
    let updated =
        update_markdown_lifecycle_status("Lifecycle Status: a\n\n".to_string(), "b");
    assert_eq!(updated, "Lifecycle Status: b\n");
    assert_eq!(update_markdown_lifecycle_status(updated, "b"), "Lifecycle Status: b");
}

#[test]
fn github_writes_go_through_gh() {
    let source = IssueSource { kind: "github".to_string(), locator: "owner/repo".to_string() };
    match write_assignment_lifecycle(&source, "42", "claimed") {
        Ok(LifecycleWrite::Github { args }) => {
            assert!(args.contains(&"42".to_string()));
            assert!(args.contains(&"owner/repo".to_string()));
        }
        other => panic!("expected a GitHub write, got {other:?}"),
    }
    let unknown = IssueSource { kind: "jira".to_string(), locator: "X".to_string() };
    assert!(write_assignment_lifecycle(&unknown, "42", "claimed").is_err());
    assert!(github_write_result(&ended(false, "", "HTTP 404")).unwrap_err().contains("HTTP 404"));
    assert!(matches!(
        writer("jira", "X").plan_write("42", LifecycleStatus::Claimed),
        Err(PlanRunPhaseError::LifecycleWrite(_))
    ));
    assert!(matches!(
        writer("github", "o/r").result(Err("gh down".to_string())),
        Err(PlanRunPhaseError::LifecycleWrite(detail)) if detail.contains("gh down")
    ));
}

#[test]
fn local_sources_stay_inside_the_project() {
    assert!(is_inside("/p", "/p/issues"));
    assert!(is_inside("/p", "/p"));
    assert!(!is_inside("/p", "/pq"));
    assert!(!is_inside("/p", "/other"));
    assert!(!LocalWriteFailure::OutsideProject.message().is_empty());
    assert!(LocalWriteFailure::IssueMissing { source_id: "9".to_string() }.message().contains('9'));
}

// --- Failures of commands ---

#[test]
fn failures_say_what_the_command_said() {
    assert_eq!(
        command_failure("worktrunk", "exit status: 1", " \n"),
        "worktrunk exited with exit status: 1"
    );
    assert_eq!(
        command_failure("worktrunk", "exit status: 1", " boom \n"),
        "worktrunk exited with exit status: 1: boom"
    );
    assert!(describe_exit("exit status: 2", "why").contains("why"));
    assert!(failure_text("fallback", "exit status: 2", "", "").contains("fallback"));
}

// --- JSON ---

#[test]
fn bytes_and_lists_are_parsed() {
    assert_eq!(
        parse_json_bytes(&b"{\"a\":[1,-2,true,null,\"x\"]}".to_vec()),
        Ok(Json::Object(vec![(
            "a".to_string(),
            Json::Array(vec![
                Json::Unsigned(1),
                Json::OtherNumber("-2".to_string()),
                Json::Bool(true),
                Json::Null,
                Json::Text("x".to_string()),
            ])
        )]))
    );
    assert!(parse_json_bytes(&vec![0xff]).is_err());
    assert_eq!(parse_json_list("[1,2]"), Ok(vec![Json::Unsigned(1), Json::Unsigned(2)]));
    assert!(parse_json_list("{}").is_err());
}
