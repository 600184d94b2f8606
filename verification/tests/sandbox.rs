use agentic_afk::codex_runner::{
    codex_exec_command, phase_result, AssignmentContext, DockerCodexRunner, PlanningContext,
};
use agentic_afk::command::CommandRun;
use agentic_afk::contracts::{
    IssueAssignmentResponse, PlanRunResponse, ProjectId, ProjectResponse,
};
use agentic_afk::plan_run::PlanRunPhaseError;
use agentic_afk::problem::CoordinatorError;
use agentic_afk::sandbox::{
    docker_run_args, render_mount, runtime_image_tag, truncate_stderr, AlwaysOkSandboxPreflight,
    BuildContextFailure, BuilderImageEnsurer, CliDockerProbe, DockerProbe, DockerSandboxLauncher,
    FakeSandboxLauncher, ImageStep, PreflightFiles, RejectingSandboxPreflight,
    RuntimeImageBuilder, RuntimeImageEnsurer, SandboxError, SandboxFailureTemplate,
    SandboxLaunchSpec, SandboxLauncher, SandboxMount, SandboxPhase, SandboxPreflight,
    SandboxPreflightCheck, SandboxPreflightFailure, MISE_CACHE_VOLUME, RUNTIME_IMAGE_REPO,
};

// --- Preflight ---

struct OkDocker;

impl DockerProbe for OkDocker {
    fn ping(&self) -> Result<(), String> {
        Ok(())
    }
}

struct FailDocker(&'static str);

impl DockerProbe for FailDocker {
    fn ping(&self) -> Result<(), String> {
        Err(self.0.to_string())
    }
}

struct OkImage(&'static str);

impl RuntimeImageEnsurer for OkImage {
    fn ensure(&mut self) -> Result<String, String> {
        Ok(self.0.to_string())
    }
}

struct FailImage(String);

impl RuntimeImageEnsurer for FailImage {
    fn ensure(&mut self) -> Result<String, String> {
        Err(self.0.clone())
    }
}

struct UnaskedImage;

impl RuntimeImageEnsurer for UnaskedImage {
    fn ensure(&mut self) -> Result<String, String> {
        panic!("the image is not asked for after an earlier failure")
    }
}

struct CountedImage(u32);

impl RuntimeImageEnsurer for CountedImage {
    fn ensure(&mut self) -> Result<String, String> {
        self.0 += 1;
        Ok("agentic-afk-runtime:abc".to_string())
    }
}

fn files(has_mise_toml: bool, auth_readable: bool) -> PreflightFiles {
    PreflightFiles { project_path: "/tmp/dir".to_string(), has_mise_toml, auth_readable }
}

#[test]
fn happy_path_all_four_checks_pass() {
    let mut pf = SandboxPreflight::new(
        OkDocker,
        "/tmp/dir/auth.json".to_string(),
        OkImage("agentic-afk-runtime:abc"),
    );
    pf.check(&files(true, true)).expect("preflight passes");
}

#[test]
fn image_is_asked_for_once_and_only_when_all_else_is_well() {
    let auth = || "/tmp/dir/auth.json".to_string();
    let mut pf = SandboxPreflight::new(OkDocker, auth(), CountedImage(0));
    assert_eq!(
        pf.check(&files(true, false)),
        Err(SandboxPreflightFailure::CodexAuthMissing(auth()))
    );
    assert_eq!(
        pf.check(&files(false, true)),
        Err(SandboxPreflightFailure::MiseTomlMissing("/tmp/dir".to_string()))
    );
    assert_eq!(pf.image.0, 0);
    assert_eq!(pf.check(&files(true, true)), Ok(()));
    assert_eq!(pf.image.0, 1);
    let mut pf = SandboxPreflight::new(FailDocker("down"), auth(), CountedImage(0));
    assert_eq!(
        pf.check(&files(true, true)),
        Err(SandboxPreflightFailure::DockerUnavailable("down".to_string()))
    );
    assert_eq!(pf.image.0, 0);
}

#[test]
fn docker_unavailable_short_circuits() {
    let mut pf = SandboxPreflight::new(
        FailDocker("connect refused"),
        "/tmp/dir/missing-auth.json".to_string(),
        UnaskedImage,
    );
    let err = pf.check(&files(false, false)).unwrap_err();
    assert!(matches!(
        err,
        SandboxPreflightFailure::DockerUnavailable(detail) if detail.contains("connect refused")
    ));
}

#[test]
fn codex_auth_missing_after_docker_passes() {
    let auth = "/tmp/dir/missing-auth.json".to_string();
    let mut pf = SandboxPreflight::new(OkDocker, auth.clone(), UnaskedImage);
    let err = pf.check(&files(true, false)).unwrap_err();
    assert!(matches!(err, SandboxPreflightFailure::CodexAuthMissing(p) if p == auth));
}

#[test]
fn mise_toml_missing_after_auth_passes() {
    let mut pf = SandboxPreflight::new(OkDocker, "/tmp/dir/auth.json".to_string(), UnaskedImage);
    let err = pf.check(&files(false, true)).unwrap_err();
    assert!(matches!(err, SandboxPreflightFailure::MiseTomlMissing(p) if p == "/tmp/dir"));
}

#[test]
fn runtime_image_build_failure_surfaces_stderr_in_detail() {
    let stderr = "step 5/7: COPY entrypoint.sh — file not found";
    let mut pf = SandboxPreflight::new(
        OkDocker,
        "/tmp/dir/auth.json".to_string(),
        FailImage(stderr.to_string()),
    );
    let err = pf.check(&files(true, true)).unwrap_err();
    let coordinator_err: CoordinatorError = err.into();
    assert_eq!(coordinator_err.status, 422);
    assert_eq!(
        coordinator_err.problem_type,
        "urn:agentic-afk:sandbox-runtime-image-build-failed"
    );
    assert!(coordinator_err.detail.contains("entrypoint.sh"));
}

#[test]
fn coordinator_error_status_is_422_for_all_variants() {
    let urns = [
        (
            SandboxPreflightFailure::DockerUnavailable("x".into()),
            "urn:agentic-afk:sandbox-docker-unavailable",
        ),
        (
            SandboxPreflightFailure::CodexAuthMissing("/x".into()),
            "urn:agentic-afk:sandbox-codex-auth-missing",
        ),
        (
            SandboxPreflightFailure::MiseTomlMissing("/x".into()),
            "urn:agentic-afk:sandbox-mise-toml-missing",
        ),
        (
            SandboxPreflightFailure::RuntimeImageBuildFailed("x".into()),
            "urn:agentic-afk:sandbox-runtime-image-build-failed",
        ),
    ];
    for (failure, expected_urn) in urns {
        let err: CoordinatorError = failure.into();
        assert_eq!(err.status, 422);
        assert_eq!(err.problem_type, expected_urn);
    }
}

#[test]
fn truncate_stderr_caps_long_blobs() {
    let big = "x".repeat(5000);
    let out = truncate_stderr(&big);
    assert!(out.len() < big.len());
    assert!(out.contains("truncated"));
}

#[test]
fn truncate_stderr_counts_what_was_cut() {
    assert_eq!(truncate_stderr("short"), "short");
    let exact = "y".repeat(4096);
    assert_eq!(truncate_stderr(&exact), exact);
    let long = "y".repeat(4100);
    assert_eq!(truncate_stderr(&long), format!("{exact}\n…(truncated 4 bytes)"));
}

#[test]
fn stand_in_preflights_answer_as_they_are_told() {
    assert_eq!(AlwaysOkSandboxPreflight.check(&files(false, false)), Ok(()));
    let mut rejecting = RejectingSandboxPreflight::new(SandboxFailureTemplate::DockerUnavailable(
        "down".to_string(),
    ));
    assert_eq!(
        rejecting.check(&files(true, true)),
        Err(SandboxPreflightFailure::DockerUnavailable("down".to_string()))
    );
}

#[test]
fn docker_probe_reads_the_answer() {
    let probe = CliDockerProbe::new("docker".to_string());
    assert_eq!(probe.args()[0], "version");
    let ended = |success: bool| CommandRun::Ended {
        success,
        status: "exit status: 1".to_string(),
        stdout: "27".to_string(),
        stderr: "no daemon".to_string(),
    };
    assert_eq!(probe.result(&ended(true)), Ok(()));
    assert!(probe.result(&ended(false)).unwrap_err().contains("no daemon"));
    let missing = CommandRun::NotStarted { error: "not found".to_string() };
    assert!(probe.result(&missing).unwrap_err().contains("not found"));
}

// --- The image ---

const DOCKERFILE: &str = "FROM debian:stable-slim\n";
const ENTRYPOINT: &str = "#!/bin/sh\nexec \"$@\"\n";

#[test]
fn runtime_image_tag_uses_repo_and_short_hex() {
    let tag = runtime_image_tag(DOCKERFILE, ENTRYPOINT);
    let (repo, hex) = tag.split_once(':').expect("tag has colon");
    assert_eq!(repo, RUNTIME_IMAGE_REPO);
    assert_eq!(hex.len(), 12, "12 hex chars from 6 bytes");
    assert!(hex.chars().all(|c| c.is_ascii_hexdigit()), "tag suffix is hex");
}

#[test]
fn runtime_image_tag_is_deterministic_across_calls() {
    assert_eq!(
        runtime_image_tag(DOCKERFILE, ENTRYPOINT),
        runtime_image_tag(DOCKERFILE, ENTRYPOINT)
    );
}

#[test]
fn runtime_image_tag_is_the_digest_of_both_files() {
    assert_eq!(runtime_image_tag("a", "b"), "agentic-afk-runtime:59b271ae1bbc");
    assert_eq!(runtime_image_tag("", ""), "agentic-afk-runtime:6e340b9cffb3");
    assert_ne!(runtime_image_tag("ab", ""), runtime_image_tag("a", "b"));
}

#[test]
fn image_is_built_only_where_it_is_missing() {
    let builder = RuntimeImageBuilder::new("docker".to_string());
    let ended = |success: bool| CommandRun::Ended {
        success,
        status: "exit status: 1".to_string(),
        stdout: String::new(),
        stderr: "no such image".to_string(),
    };
    assert_eq!(builder.advance(ImageStep::Inspect, ended(true)), Ok(None));
    assert_eq!(builder.advance(ImageStep::Inspect, ended(false)), Ok(Some(ImageStep::Build)));
    assert_eq!(builder.advance(ImageStep::Build, ended(true)), Ok(None));
    assert!(matches!(
        builder.advance(ImageStep::Build, ended(false)),
        Err(SandboxError::Build(detail)) if detail.contains("no such image")
    ));
    assert!(builder.args(ImageStep::Build, "repo:tag").contains(&"repo:tag".to_string()));
    assert!(matches!(
        builder.context_error(BuildContextFailure::Create { error: "full".to_string() }),
        SandboxError::Build(detail) if detail.contains("full")
    ));
    let ensurer = BuilderImageEnsurer::new(builder);
    assert_eq!(ensurer.result(Ok("t".to_string())), Ok("t".to_string()));
    assert!(ensurer.result(Err(SandboxError::Build("bad step".to_string()))).is_err());
}

// --- The launch ---

#[test]
fn docker_run_args_includes_rm_caps_workdir_and_image_last() {
    let spec = SandboxLaunchSpec {
        image_tag: "agentic-afk-runtime:abc123".to_string(),
        container_name: "agentic-afk-assignment-aaa".to_string(),
        phase: SandboxPhase::Planning,
        labels: vec![("agentic-afk.phase".to_string(), "planning".to_string())],
        mounts: vec![SandboxMount::Bind {
            host_path: "/host/proj".into(),
            container_path: "/work".into(),
            read_only: true,
        }],
        workdir: "/work".into(),
        env: vec![("HOME".to_string(), "/tmp/codex-home".to_string())],
        command: vec!["codex".to_string(), "exec".to_string(), "go".to_string()],
        memory: "8g".to_string(),
        cpus: "2.0".to_string(),
        pids_limit: 512,
        user: Some((1000, 1000)),
    };
    let args = docker_run_args(&spec);
    assert_eq!(args.first().map(String::as_str), Some("run"));
    assert!(args.iter().any(|a| a == "--rm"));
    assert!(args.windows(2).any(|w| w[0] == "--memory" && w[1] == "8g"));
    assert!(args.windows(2).any(|w| w[0] == "--cpus" && w[1] == "2.0"));
    assert!(args.windows(2).any(|w| w[0] == "--pids-limit" && w[1] == "512"));
    assert!(args.windows(2).any(|w| w[0] == "--user" && w[1] == "1000:1000"));
    assert!(args.windows(2).any(|w| w[0] == "--workdir" && w[1] == "/work"));
    assert!(args.windows(2).any(|w| w[0] == "--label" && w[1] == "agentic-afk.phase=planning"));
    assert!(args.windows(2).any(|w| w[0] == "--env" && w[1] == "HOME=/tmp/codex-home"));
    let image_idx = args
        .iter()
        .position(|a| a == "agentic-afk-runtime:abc123")
        .expect("image tag present");
    assert_eq!(args[image_idx + 1..], ["codex", "exec", "go"], "command follows image tag");
}

fn sample_spec(mounts: Vec<SandboxMount>) -> SandboxLaunchSpec {
    let (memory, cpus, pids_limit) = SandboxLaunchSpec::default_caps();
    SandboxLaunchSpec {
        image_tag: "agentic-afk-runtime:000000000000".to_string(),
        container_name: "agentic-afk-assignment-test".to_string(),
        phase: SandboxPhase::Implementation,
        labels: vec![],
        mounts,
        workdir: "/work".into(),
        env: vec![],
        command: vec!["true".to_string()],
        memory,
        cpus,
        pids_limit,
        user: None,
    }
}

#[test]
fn docker_run_args_renders_bind_mount_readonly() {
    let spec = sample_spec(vec![SandboxMount::Bind {
        host_path: "/h/x".into(),
        container_path: "/c/x".into(),
        read_only: true,
    }]);
    let args = docker_run_args(&spec);
    let mount = args
        .windows(2)
        .find(|w| w[0] == "--mount")
        .map(|w| w[1].clone())
        .expect("bind mount rendered");
    assert_eq!(mount, "type=bind,source=/h/x,target=/c/x,readonly");
}

#[test]
fn docker_run_args_renders_named_volume_mount_rw() {
    let spec = sample_spec(vec![SandboxMount::Volume {
        name: MISE_CACHE_VOLUME.to_string(),
        container_path: "/cache/mise".into(),
        read_only: false,
    }]);
    let args = docker_run_args(&spec);
    let mount = args
        .windows(2)
        .find(|w| w[0] == "--mount")
        .map(|w| w[1].clone())
        .expect("volume mount rendered");
    assert_eq!(mount, "type=volume,source=agentic-afk-mise-cache,target=/cache/mise");
    assert_eq!(mount, render_mount(&spec.mounts[0]));
    assert!(!args.contains(&"--user".to_string()));
}

#[test]
fn phases_are_read_back_from_their_labels() {
    for phase in [
        SandboxPhase::Planning,
        SandboxPhase::Implementation,
        SandboxPhase::Review,
        SandboxPhase::Merge,
    ] {
        assert_eq!(SandboxPhase::from_label(phase.as_label()), Some(phase));
    }
    assert_eq!(SandboxPhase::from_label("push"), None);
}

#[test]
fn fake_launcher_hands_out_its_outputs_in_order() {
    let mut launcher =
        FakeSandboxLauncher::with_stdouts(vec!["one".to_string(), "two".to_string()]);
    assert_eq!(launcher.launch(sample_spec(vec![])), Ok("one".to_string()));
    assert_eq!(launcher.launch(sample_spec(vec![])), Ok("two".to_string()));
    assert_eq!(launcher.launch(sample_spec(vec![])), Ok("two".to_string()));
    assert_eq!(launcher.launches().len(), 3);
    assert_eq!(FakeSandboxLauncher::new().launches().len(), 0);
}

#[test]
fn docker_launcher_reads_the_run() {
    let launcher = DockerSandboxLauncher::new("docker".to_string());
    let ended = |success: bool| CommandRun::Ended {
        success,
        status: "exit status: 3".to_string(),
        stdout: "out".to_string(),
        stderr: "err".to_string(),
    };
    assert_eq!(launcher.result(ended(true), Some(0)), Ok("out".to_string()));
    assert!(matches!(
        launcher.result(ended(false), Some(3)),
        Err(SandboxError::NonZero { status: 3, stderr }) if stderr == "err"
    ));
    assert!(matches!(
        launcher.result(CommandRun::NotStarted { error: "gone".to_string() }, None),
        Err(SandboxError::Spawn(detail)) if detail.contains("gone")
    ));
    assert_eq!(
        SandboxError::NonZero { status: -1, stderr: "e".to_string() }.message(),
        "docker run exited with status -1: e"
    );
    assert_eq!(
        SandboxError::InvalidSpec("x".to_string()).message(),
        "invalid sandbox launch spec: x"
    );
}

// --- The runner ---

fn project(path: &str) -> ProjectResponse {
    ProjectResponse {
        id: ProjectId("proj-42".to_string()),
        path: path.to_string(),
        git_summary: None,
        trusted: true,
        enabled_issue_source: None,
    }
}

fn plan_run() -> PlanRunResponse {
    PlanRunResponse {
        id: "plan-run-7".to_string(),
        project_id: ProjectId("proj-42".to_string()),
        integration_branch: "main".to_string(),
        baseline_commit: "deadbeef".to_string(),
        state: "running".to_string(),
        started_at: "2026-05-23T00:00:00Z".to_string(),
        finished_at: None,
        phase_outputs: Vec::new(),
        assignments: Vec::new(),
    }
}

fn assignment(id: &str, worktree: &str) -> IssueAssignmentResponse {
    IssueAssignmentResponse {
        id: id.to_string(),
        project_id: ProjectId("proj-42".to_string()),
        source_id: "issue-1".to_string(),
        source_title: "title".to_string(),
        branch: "agent/issue-1".to_string(),
        worktree_path: worktree.to_string(),
        status: "implementing".to_string(),
        status_detail: None,
        latest_attempt: None,
        plan_run_id: Some("plan-run-7".to_string()),
        selection_summary: None,
        phase_outputs: Vec::new(),
        review_rejection_count: 0,
        block_reason: None,
    }
}

fn make_runner(
    launcher: FakeSandboxLauncher,
    phase: SandboxPhase,
) -> DockerCodexRunner<FakeSandboxLauncher> {
    DockerCodexRunner::new(
        launcher,
        phase,
        "agentic-afk-runtime:000000000000".to_string(),
        "/host/proj".to_string(),
        "/home/dev/.codex/auth.json".to_string(),
        "/home/dev/.codex/config.toml".to_string(),
        Some((1000, 1000)),
    )
}

fn bind_mount(mounts: &[SandboxMount], host: &str) -> Option<SandboxMount> {
    mounts
        .iter()
        .find(|m| matches!(m, SandboxMount::Bind { host_path, .. } if host_path == host))
        .cloned()
}

fn run_phase(
    runner: &mut DockerCodexRunner<FakeSandboxLauncher>,
    worktree: &str,
) -> Result<String, PlanRunPhaseError> {
    let project = project("/host/proj");
    let plan_run = plan_run();
    let assignment = assignment("asgn-1", worktree);
    let ctx =
        AssignmentContext { project: &project, plan_run: &plan_run, assignment: &assignment };
    match runner.phase {
        SandboxPhase::Implementation => runner.run_implementation("implement now", &ctx),
        SandboxPhase::Review => runner.run_review("review", &ctx),
        SandboxPhase::Merge => runner.run_merge("merge", &ctx),
        SandboxPhase::Planning => unreachable!(),
    }
}

#[test]
fn planning_launch_mounts_project_read_only_and_returns_stdout() {
    let launcher =
        FakeSandboxLauncher::with_stdout(r#"<plan>{"issues":[]}</plan>"#.to_string());
    let mut runner = make_runner(launcher, SandboxPhase::Planning);
    let project = project("/host/proj");
    let plan_run = plan_run();
    let ctx = PlanningContext { project: &project, plan_run: &plan_run };

    let stdout = runner.run_planning("plan now", &ctx).expect("planning launch succeeds");
    assert!(stdout.contains("<plan>"));

    let launches = runner.launcher.launches();
    assert_eq!(launches.len(), 1);
    let launch = &launches[0];
    assert_eq!(launch.phase, SandboxPhase::Planning);
    let work_mount = bind_mount(&launch.mounts, "/host/proj").expect("project bind mount");
    match work_mount {
        SandboxMount::Bind { container_path, read_only, .. } => {
            assert_eq!(container_path, "/work");
            assert!(read_only, "Planning must bind-mount the Project read-only");
        }
        _ => panic!(),
    }
}

#[test]
fn implementation_launch_mounts_assignment_worktree_read_write() {
    let launcher = FakeSandboxLauncher::with_stdout(
        r#"<impl>{"outcome":"ready_for_review"}</impl>"#.to_string(),
    );
    let mut runner = make_runner(launcher, SandboxPhase::Implementation);
    let stdout = run_phase(&mut runner, "/host/worktrees/issue-1")
        .expect("implementation launch succeeds");
    assert!(stdout.contains("<impl>"));

    let launch = &runner.launcher.launches()[0];
    assert_eq!(launch.phase, SandboxPhase::Implementation);
    let work_mount =
        bind_mount(&launch.mounts, "/host/worktrees/issue-1").expect("worktree bind mount");
    match work_mount {
        SandboxMount::Bind { container_path, read_only, .. } => {
            assert_eq!(container_path, "/work");
            assert!(!read_only, "Implementation must bind-mount the Worktree read-write");
        }
        _ => panic!(),
    }
}

#[test]
fn review_and_merge_launches_also_mount_worktree_read_write() {
    for phase in [SandboxPhase::Review, SandboxPhase::Merge] {
        let launcher = FakeSandboxLauncher::with_stdout("out".to_string());
        let mut runner = make_runner(launcher, phase);
        let _ = run_phase(&mut runner, "/host/wt/x");
        let launch = &runner.launcher.launches()[0];
        assert_eq!(launch.phase, phase);
        let work = bind_mount(&launch.mounts, "/host/wt/x").expect("worktree mount");
        match work {
            SandboxMount::Bind { read_only, .. } => assert!(!read_only),
            _ => panic!(),
        }
    }
}

#[test]
fn every_launch_carries_the_five_labels_and_auth_config_cache_mounts() {
    let launcher = FakeSandboxLauncher::with_stdout("ok".to_string());
    let mut runner = make_runner(launcher, SandboxPhase::Implementation);
    let _ = run_phase(&mut runner, "/host/wt");

    let launch = &runner.launcher.launches()[0];
    let label_keys: Vec<&str> = launch.labels.iter().map(|(k, _)| k.as_str()).collect();
    for required in [
        "agentic-afk.plan-run-id",
        "agentic-afk.project-id",
        "agentic-afk.phase",
        "agentic-afk.issue-assignment-id",
        "agentic-afk.assignment-attempt-id",
    ] {
        assert!(label_keys.contains(&required), "launch missing label {required}");
    }

    assert!(
        bind_mount(&launch.mounts, "/home/dev/.codex/auth.json").is_some(),
        "auth bind mount missing"
    );
    assert!(
        bind_mount(&launch.mounts, "/home/dev/.codex/config.toml").is_some(),
        "config bind mount missing"
    );
    assert!(
        launch.mounts.iter().any(
            |m| matches!(m, SandboxMount::Volume { name, .. } if name == "agentic-afk-mise-cache")
        ),
        "mise cache volume mount missing"
    );
    assert!(launch.env.iter().any(|(k, v)| k == "HOME" && v == "/tmp/codex-home"));
}

fn failing_launcher() -> FakeSandboxLauncher {
    FakeSandboxLauncher::with_stdout(String::new()).fail_with(SandboxError::NonZero {
        status: 1,
        stderr: "codex blew up".to_string(),
    })
}

#[test]
fn implementation_runner_error_maps_to_implementation_variant_not_planning() {
    let mut runner = make_runner(failing_launcher(), SandboxPhase::Implementation);
    let err = run_phase(&mut runner, "/host/wt").unwrap_err();
    assert!(
        matches!(err, PlanRunPhaseError::Implementation(_)),
        "expected Implementation, got {err:?}"
    );
}

#[test]
fn review_runner_error_maps_to_review_variant_not_planning() {
    let mut runner = make_runner(failing_launcher(), SandboxPhase::Review);
    let err = run_phase(&mut runner, "/host/wt").unwrap_err();
    assert!(matches!(err, PlanRunPhaseError::Review(_)), "expected Review, got {err:?}");
}

#[test]
fn merge_runner_error_maps_to_merge_variant() {
    let mut runner = make_runner(failing_launcher(), SandboxPhase::Merge);
    let err = run_phase(&mut runner, "/host/wt").unwrap_err();
    assert!(matches!(err, PlanRunPhaseError::Merge(_)), "expected Merge, got {err:?}");
}

#[test]
fn phase_errors_carry_the_launch_error() {
    assert_eq!(
        phase_result(SandboxPhase::Planning, Err(SandboxError::Spawn("gone".to_string()))),
        Err(PlanRunPhaseError::Planning("failed to spawn docker: gone".to_string()))
    );
    assert_eq!(
        phase_result(SandboxPhase::Merge, Ok("out".to_string())),
        Ok("out".to_string())
    );
    let command = codex_exec_command("do it", SandboxPhase::Review.codex_model());
    assert_eq!(command[..2], ["bash", "-lc"]);
    assert!(command[2].starts_with("set -euo pipefail\n"));
    assert_eq!(command[3..], ["agentic-afk-codex-exec", "do it"]);
}
