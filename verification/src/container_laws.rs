//! What the containers of the phases are started with.

use vstd::prelude::*;
#[allow(unused_imports)]
use vstd::utf8::{decode_utf8, encode_utf8};

#[allow(unused_imports)]
use crate::codex_runner::{
    codex_exec_command, phase_result, AssignmentContext, CodexModelConfig, DockerCodexRunner,
    PlanningContext,
};
#[allow(unused_imports)]
use crate::command::CommandRun;
#[allow(unused_imports)]
use crate::command_laws::{ended_well, ends_with, lemma_middle};
#[allow(unused_imports)]
use crate::numerals::{decimal, decimal_int, hex};
#[allow(unused_imports)]
use crate::plan_run::PlanRunPhaseError;
#[allow(unused_imports)]
use crate::problem::CoordinatorError;
#[allow(unused_imports)]
use crate::sandbox::{
    assignments, check_before_image, docker_run_args, flagged, image_inputs, judge_preflight,
    recorded, render_mount, runtime_image_tag, sha256_digest, truncate_stderr, BuildContextFailure,
    BuilderImageEnsurer, CliDockerProbe, DockerProbe, DockerSandboxLauncher, ImageStep,
    PreflightFiles, RuntimeImageBuilder, RuntimeImageEnsurer, SandboxError, SandboxLaunchSpec,
    SandboxLauncher, SandboxMount, SandboxPhase, SandboxPreflight, SandboxPreflightCheck,
    SandboxPreflightFailure,
};
#[allow(unused_imports)]
use crate::text::{contains_text, pair_views, views};

verus! {

// --- The arguments of `docker run` ---

/// The option with the number `j`: its name and its value. Options follow `run --rm`.
pub open spec fn run_option(args: Seq<Seq<char>>, j: int) -> (Seq<char>, Seq<char>) {
    (args[2 + 2 * j], args[3 + 2 * j])
}

/// How many options set the user.
pub open spec fn user_options(spec: SandboxLaunchSpec) -> int {
    if spec.user is Some {
        1
    } else {
        0
    }
}

proof fn lemma_flagged_len(flag: Seq<char>, values: Seq<Seq<char>>)
    ensures
        flagged(flag, values).len() == 2 * values.len(),
    decreases values.len(),
{
    if values.len() > 0 {
        lemma_flagged_len(flag, values.drop_last());
    }
}

proof fn lemma_flagged(flag: Seq<char>, values: Seq<Seq<char>>, i: int)
    requires
        0 <= i < values.len(),
    ensures
        flagged(flag, values).len() == 2 * values.len(),
        flagged(flag, values)[2 * i] == flag,
        flagged(flag, values)[2 * i + 1] == values[i],
    decreases values.len(),
{
    lemma_flagged_len(flag, values);
    lemma_flagged_len(flag, values.drop_last());
    if i < values.len() - 1 {
        lemma_flagged(flag, values.drop_last(), i);
    }
}

/// How many options the container is started with.
pub open spec fn count_options(spec: SandboxLaunchSpec) -> int {
    6 + user_options(spec) + spec.labels@.len() + spec.env@.len() + spec.mounts@.len()
}

/// A container is started with these options and no others: its name, its limits, that it
/// is not restarted, and where it works; the user where one is given; and each label, each
/// variable and each mount, in order. It is removed when it ends. Behind the options stands
/// the image, and behind it the command.
pub proof fn law_docker_run(spec: SandboxLaunchSpec, args: Vec<String>)
    requires
        call_ensures(docker_run_args, (&spec,), args),
    ensures
        views(args@)[0] == "run"@,
        views(args@)[1] == "--rm"@,
        run_option(views(args@), 0) == ("--name"@, spec.container_name@),
        run_option(views(args@), 1) == ("--memory"@, spec.memory@),
        run_option(views(args@), 2) == ("--cpus"@, spec.cpus@),
        run_option(views(args@), 3) == ("--pids-limit"@, decimal(spec.pids_limit as nat)),
        run_option(views(args@), 4) == ("--restart"@, "no"@),
        run_option(views(args@), 5) == ("--workdir"@, spec.workdir@),
        spec.user matches Some((uid, gid)) ==> run_option(views(args@), 6) == (
            "--user"@,
            decimal(uid as nat) + ":"@ + decimal(gid as nat),
        ),
        forall|i: int|
            #![trigger spec.labels@[i]]
            0 <= i < spec.labels@.len() ==> run_option(views(args@), 6 + user_options(spec) + i)
                == ("--label"@, spec.labels@[i].0@ + "="@ + spec.labels@[i].1@),
        forall|i: int|
            #![trigger spec.env@[i]]
            0 <= i < spec.env@.len() ==> run_option(
                views(args@),
                6 + user_options(spec) + spec.labels@.len() + i,
            ) == ("--env"@, spec.env@[i].0@ + "="@ + spec.env@[i].1@),
        forall|i: int|
            #![trigger spec.mounts@[i]]
            0 <= i < spec.mounts@.len() ==> run_option(
                views(args@),
                6 + user_options(spec) + spec.labels@.len() + spec.env@.len() + i,
            ) == ("--mount"@, spec.mounts@[i].rendered()),
        views(args@)[2 + 2 * count_options(spec)] == spec.image_tag@,
        views(args@).skip(3 + 2 * count_options(spec)) == views(spec.command@),
{
    let all = views(args@);
    let labels = assignments(spec.labels@);
    let env = assignments(spec.env@);
    let mounts = spec.mounts@.map_values(|mount: SandboxMount| mount.rendered());
    lemma_flagged_len("--label"@, labels);
    lemma_flagged_len("--env"@, env);
    lemma_flagged_len("--mount"@, mounts);
    let u = user_options(spec);
    let head = 14 + 2 * u;
    let l = flagged("--label"@, labels);
    let e = flagged("--env"@, env);
    let m = flagged("--mount"@, mounts);
    assert(l.len() == 2 * spec.labels@.len());
    assert(e.len() == 2 * spec.env@.len());
    assert(m.len() == 2 * spec.mounts@.len());
    assert forall|i: int|
        #![trigger spec.labels@[i]]
        0 <= i < spec.labels@.len() implies run_option(all, 6 + user_options(spec) + i) == (
        "--label"@,
        spec.labels@[i].0@ + "="@ + spec.labels@[i].1@,
    ) by {
        assert(labels[i] == spec.labels@[i].0@ + "="@ + spec.labels@[i].1@);
        lemma_flagged("--label"@, labels, i);
        assert(all[head + 2 * i] == l[2 * i]);
        assert(all[head + 2 * i + 1] == l[2 * i + 1]);
    }
    assert forall|i: int|
        #![trigger spec.env@[i]]
        0 <= i < spec.env@.len() implies run_option(
        all,
        6 + user_options(spec) + spec.labels@.len() + i,
    ) == ("--env"@, spec.env@[i].0@ + "="@ + spec.env@[i].1@) by {
        assert(env[i] == spec.env@[i].0@ + "="@ + spec.env@[i].1@);
        lemma_flagged("--env"@, env, i);
        assert(all[head + l.len() + 2 * i] == e[2 * i]);
        assert(all[head + l.len() + 2 * i + 1] == e[2 * i + 1]);
    }
    assert forall|i: int|
        #![trigger spec.mounts@[i]]
        0 <= i < spec.mounts@.len() implies run_option(
        all,
        6 + user_options(spec) + spec.labels@.len() + spec.env@.len() + i,
    ) == ("--mount"@, spec.mounts@[i].rendered()) by {
        assert(mounts[i] == spec.mounts@[i].rendered());
        lemma_flagged("--mount"@, mounts, i);
        assert(all[head + l.len() + e.len() + 2 * i] == m[2 * i]);
        assert(all[head + l.len() + e.len() + 2 * i + 1] == m[2 * i + 1]);
    }
    assert(all.skip(3 + 2 * count_options(spec)) =~= views(spec.command@));
}

/// A mount names its source and its target, and what it may not write is marked: the same
/// mount that may be written differs by the mark alone.
pub proof fn law_mount_is_rendered(
    source: String,
    target: String,
    bind: String,
    read_only_bind: String,
    volume: String,
    read_only_volume: String,
)
    requires
        call_ensures(
            render_mount,
            (&SandboxMount::Bind { host_path: source, container_path: target, read_only: false },),
            bind,
        ),
        call_ensures(
            render_mount,
            (&SandboxMount::Bind { host_path: source, container_path: target, read_only: true },),
            read_only_bind,
        ),
        call_ensures(
            render_mount,
            (&SandboxMount::Volume { name: source, container_path: target, read_only: false },),
            volume,
        ),
        call_ensures(
            render_mount,
            (&SandboxMount::Volume { name: source, container_path: target, read_only: true },),
            read_only_volume,
        ),
    ensures
        bind@ == "type=bind,source="@ + source@ + ",target="@ + target@,
        volume@ == "type=volume,source="@ + source@ + ",target="@ + target@,
        read_only_bind@ == bind@ + ",readonly"@,
        read_only_volume@ == volume@ + ",readonly"@,
{
    reveal_strlit("");
    assert(bind@ =~= "type=bind,source="@ + source@ + ",target="@ + target@);
    assert(volume@ =~= "type=volume,source="@ + source@ + ",target="@ + target@);
}

// --- The containers of the phases ---

/// The mount is this path of the host, at this place of the container.
pub open spec fn mounts_path(
    mount: SandboxMount,
    host: Seq<char>,
    container: Seq<char>,
    writable: bool,
) -> bool {
    mount matches SandboxMount::Bind { host_path, container_path, read_only } && host_path@ == host
        && container_path@ == container && read_only == !writable
}

/// The container has these mounts and no others: the work, the auth file of Codex, its
/// configuration, which it cannot write, and the tools that containers share.
pub open spec fn has_mounts(
    mounts: Seq<SandboxMount>,
    work: Seq<char>,
    writable: bool,
    auth: Seq<char>,
    config: Seq<char>,
) -> bool {
    &&& mounts.len() == 4
    &&& mounts_path(mounts[0], work, "/work"@, writable)
    &&& mounts_path(mounts[1], auth, "/tmp/codex-home/.codex/auth.json"@, true)
    &&& mounts_path(mounts[2], config, "/tmp/codex-home/.codex/config.toml"@, false)
    &&& mounts[3] matches SandboxMount::Volume { name, container_path, read_only } && name@
        == "agentic-afk-mise-cache"@ && container_path@ == "/cache/mise"@ && !read_only
}

/// The container has one label with each of the five names.
pub open spec fn has_labels(
    labels: Seq<(Seq<char>, Seq<char>)>,
    plan_run: Seq<char>,
    project: Seq<char>,
    phase: Seq<char>,
    assignment: Seq<char>,
    attempt: Seq<char>,
) -> bool {
    &&& labels.len() == 5
    &&& labels[0] == ("agentic-afk.plan-run-id"@, plan_run)
    &&& labels[1] == ("agentic-afk.project-id"@, project)
    &&& labels[2] == ("agentic-afk.phase"@, phase)
    &&& labels[3] == ("agentic-afk.issue-assignment-id"@, assignment)
    &&& labels[4] == ("agentic-afk.assignment-attempt-id"@, attempt)
}

/// What the containers of all phases have in common: the image, the place where they work,
/// their home and their limits.
pub open spec fn has_common_setup<L: SandboxLauncher>(
    spec: SandboxLaunchSpec,
    runner: DockerCodexRunner<L>,
) -> bool {
    &&& spec.image_tag == runner.image_tag
    &&& spec.phase == runner.phase
    &&& spec.user == runner.user
    &&& spec.workdir@ == "/work"@
    &&& pair_views(spec.env@) == seq![("HOME"@, "/tmp/codex-home"@)]
    &&& spec.memory@ == "8g"@
    &&& spec.cpus@ == "2.0"@
    &&& spec.pids_limit == 512
    &&& spec.command@.len() == 5
}

/// A Planning Phase runs in a container of its own, named after the Plan Run, which it and
/// the Project are the labels of. It sees the Project and cannot write it.
pub proof fn law_planning_container<L: SandboxLauncher>(
    runner: DockerCodexRunner<L>,
    prompt: &str,
    plan_run_id: &str,
    project_id: &str,
    spec: SandboxLaunchSpec,
)
    requires
        call_ensures(
            DockerCodexRunner::<L>::build_spec_planning,
            (&runner, prompt, plan_run_id, project_id),
            spec,
        ),
    ensures
        has_common_setup(spec, runner),
        spec.container_name@ == "agentic-afk-planning-"@ + plan_run_id@,
        has_labels(
            pair_views(spec.labels@),
            plan_run_id@,
            project_id@,
            phase_word(runner.phase),
            ""@,
            ""@,
        ),
        has_mounts(
            spec.mounts@,
            runner.project_path@,
            false,
            runner.codex_auth_path@,
            runner.codex_config_path@,
        ),
        spec.command@[4]@ == prompt@,
{
    assert(views(spec.command@).len() == spec.command@.len());
    assert(views(spec.command@)[4] == spec.command@[4]@);
}

/// The word for a phase.
pub open spec fn phase_word(phase: SandboxPhase) -> Seq<char> {
    if phase is Planning {
        "planning"@
    } else if phase is Implementation {
        "implementation"@
    } else if phase is Review {
        "review"@
    } else {
        "merge"@
    }
}

/// A phase of an assignment runs in a container named after the assignment and the phase,
/// with both, the Plan Run, the Project and the latest attempt as its labels. It sees the
/// worktree of the assignment, and can write it.
pub proof fn law_assignment_container<L: SandboxLauncher>(
    runner: DockerCodexRunner<L>,
    prompt: &str,
    context: &AssignmentContext<'_>,
    spec: SandboxLaunchSpec,
)
    requires
        call_ensures(
            DockerCodexRunner::<L>::build_spec_assignment,
            (&runner, prompt, context),
            spec,
        ),
    ensures
        has_common_setup(spec, runner),
        spec.container_name@ == "agentic-afk-assignment-"@ + context.assignment.id@ + "-"@
            + phase_word(runner.phase),
        has_labels(
            pair_views(spec.labels@),
            context.plan_run.id@,
            context.project.id.0@,
            phase_word(runner.phase),
            context.assignment.id@,
            match context.assignment.latest_attempt {
                Some(attempt) => attempt.id@,
                None => ""@,
            },
        ),
        has_mounts(
            spec.mounts@,
            context.assignment.worktree_path@,
            true,
            runner.codex_auth_path@,
            runner.codex_config_path@,
        ),
        spec.command@[4]@ == prompt@,
{
    assert(views(spec.command@).len() == spec.command@.len());
    assert(views(spec.command@)[4] == spec.command@[4]@);
}

/// The prompt is one argument of the command and changes nothing else in it: the script
/// that runs Codex is the same for every prompt. It names the model and its effort.
pub proof fn law_prompt_is_an_argument(
    prompt: &str,
    other: &str,
    model: CodexModelConfig,
    command: Vec<String>,
    another: Vec<String>,
)
    requires
        call_ensures(codex_exec_command, (prompt, model), command),
        call_ensures(codex_exec_command, (other, model), another),
    ensures
        views(command@).len() == 5,
        views(command@)[4] == prompt@,
        views(command@)[0] == "bash"@,
        views(command@)[1] == "-lc"@,
        views(command@)[3] == "agentic-afk-codex-exec"@,
        views(command@).take(4) == views(another@).take(4),
        contains_text(views(command@)[2], model.model@),
        contains_text(views(command@)[2], model.reasoning_effort@),
        ends_with(
            views(command@)[2],
            "\"' --dangerously-bypass-approvals-and-sandbox --output-last-message \"$last_message\" \"$1\" >\"$transcript\"\ncat \"$last_message\""@,
        ),
{
    assert(views(command@).take(4) =~= views(another@).take(4));
    let begin =
        "set -euo pipefail\nlast_message=\"$(mktemp /tmp/agentic-afk-last-message.XXXXXX)\"\ntranscript=\"$(mktemp /tmp/agentic-afk-codex-transcript.XXXXXX)\"\ncodex exec --model "@;
    let middle = " -c 'model_reasoning_effort=\""@;
    let end =
        "\"' --dangerously-bypass-approvals-and-sandbox --output-last-message \"$last_message\" \"$1\" >\"$transcript\"\ncat \"$last_message\""@;
    let script = begin + model.model@ + middle + model.reasoning_effort@ + end;
    lemma_middle(begin, model.model@, middle + model.reasoning_effort@ + end);
    assert(script =~= begin + model.model@ + (middle + model.reasoning_effort@ + end));
    lemma_middle(begin + model.model@ + middle, model.reasoning_effort@, end);
}

/// Implementation has a model of its own, the other phases share one, and all work with the
/// same effort.
pub proof fn law_model_of_a_phase(
    phase: SandboxPhase,
    other: SandboxPhase,
    config: CodexModelConfig,
    another: CodexModelConfig,
)
    requires
        call_ensures(SandboxPhase::codex_model, (phase,), config),
        call_ensures(SandboxPhase::codex_model, (other,), another),
    ensures
        phase is Implementation <==> config.model@ == "gpt-5.4"@,
        !(phase is Implementation) ==> config.model@ == "gpt-5.5"@,
        config.reasoning_effort@ == another.reasoning_effort@,
        config.reasoning_effort@ == "medium"@,
{
    reveal_strlit("gpt-5.4");
    reveal_strlit("gpt-5.5");
    assert("gpt-5.4"@[6] == '4');
    assert("gpt-5.5"@[6] == '5');
}

/// What a container printed is what its phase gives. A failed launch is an error of that
/// phase and of no other, with the text of the failure.
pub proof fn law_phase_gives_what_was_printed(
    phase: SandboxPhase,
    launched: Result<String, SandboxError>,
    result: Result<String, PlanRunPhaseError>,
    said: String,
)
    requires
        call_ensures(phase_result, (phase, launched), result),
        launched matches Err(error) ==> call_ensures(SandboxError::message, (&error,), said),
    ensures
        launched matches Ok(stdout) ==> result == Ok::<String, PlanRunPhaseError>(stdout),
        launched is Err ==> result is Err,
        launched is Err ==> (match result->Err_0 {
            PlanRunPhaseError::Planning(text) => phase is Planning && text@ == said@,
            PlanRunPhaseError::Implementation(text) => phase is Implementation && text@ == said@,
            PlanRunPhaseError::Review(text) => phase is Review && text@ == said@,
            PlanRunPhaseError::Merge(text) => phase is Merge && text@ == said@,
            _ => false,
        }),
{
}

/// The text of a failed launch says what failed: starting `docker`, the container with its
/// status and its errors, the build of the image, or what the container was to be started
/// with.
pub proof fn law_launch_failure_text(error: SandboxError, text: String)
    requires
        call_ensures(SandboxError::message, (&error,), text),
    ensures
        match error {
            SandboxError::Spawn(detail) => text@ == "failed to spawn docker: "@ + detail@,
            SandboxError::NonZero { status, stderr } => text@ == "docker run exited with status "@
                + decimal_int(status as int) + ": "@ + stderr@,
            SandboxError::Build(detail) => text@ == "failed to build runtime image: "@ + detail@,
            SandboxError::InvalidSpec(detail) => text@ == "invalid sandbox launch spec: "@
                + detail@,
        },
{
}

/// A launch gives what the container printed if and only if `docker` ended well. A failed
/// one keeps the errors, and the exit code where there is one.
pub proof fn law_launch_result(
    launcher: DockerSandboxLauncher,
    run: CommandRun,
    code: Option<i32>,
    result: Result<String, SandboxError>,
)
    requires
        call_ensures(DockerSandboxLauncher::result, (&launcher, run, code), result),
    ensures
        result is Ok <==> ended_well(run),
        result matches Ok(stdout) ==> run is Ended && stdout == run->stdout,
        run is Ended && !ended_well(run) ==> (result matches Err(
            SandboxError::NonZero { status, stderr },
        ) && stderr == run->stderr && (code matches Some(number) ==> status == number) && (code
            is None ==> status == -1)),
        run is NotStarted ==> (result matches Err(SandboxError::Spawn(text)) && ends_with(
            text@,
            run->NotStarted_error@,
        )),
{
    if let CommandRun::NotStarted { error } = run {
        lemma_middle("docker run: "@, error@, seq![]);
    }
}

/// What a launcher records of a launch is what it was asked for.
pub proof fn law_launch_is_recorded(spec: SandboxLaunchSpec)
    ensures
        recorded(spec).phase == spec.phase,
        recorded(spec).container_name == spec.container_name,
        recorded(spec).image_tag == spec.image_tag,
        recorded(spec).labels == spec.labels,
        recorded(spec).mounts == spec.mounts,
        recorded(spec).workdir == spec.workdir,
        recorded(spec).env == spec.env,
        recorded(spec).command == spec.command,
{
}

// --- The image ---

/// The image is tagged by its repository and the digest of both its files: the tag holds the
/// first six bytes of the digest in hexadecimal. Both files are there in what is digested,
/// with a zero byte between them.
pub proof fn law_image_is_tagged_by_its_files(dockerfile: &str, entrypoint: &str, tag: String)
    requires
        call_ensures(runtime_image_tag, (dockerfile, entrypoint), tag),
    ensures
        tag@ == "agentic-afk-runtime"@ + ":"@ + hex(
            sha256_digest(image_inputs(dockerfile@, entrypoint@)).take(6),
        ),
        image_inputs(dockerfile@, entrypoint@).take(encode_utf8(dockerfile@).len() as int)
            == encode_utf8(dockerfile@),
        image_inputs(dockerfile@, entrypoint@)[encode_utf8(dockerfile@).len() as int] == 0,
        image_inputs(dockerfile@, entrypoint@).skip(encode_utf8(dockerfile@).len() as int + 1)
            == encode_utf8(entrypoint@),
{
    let inputs = image_inputs(dockerfile@, entrypoint@);
    let first = encode_utf8(dockerfile@);
    assert(inputs.take(first.len() as int) =~= first);
    assert(inputs.skip(first.len() as int + 1) =~= encode_utf8(entrypoint@));
}

/// The image is looked for under its tag, and built under the same tag if and only if it was
/// not found. A failed build keeps its errors.
pub proof fn law_missing_image_is_built(
    builder: RuntimeImageBuilder,
    tag: &str,
    step: ImageStep,
    run: CommandRun,
    next: Result<Option<ImageStep>, SandboxError>,
    args: Vec<String>,
)
    requires
        call_ensures(RuntimeImageBuilder::args, (&builder, step, tag), args),
        call_ensures(RuntimeImageBuilder::advance, (&builder, step, run), next),
    ensures
        step == ImageStep::Inspect ==> views(args@) == seq!["image"@, "inspect"@, tag@],
        step == ImageStep::Build ==> views(args@) == seq!["build"@, "--tag"@, tag@, "."@],
        next == Ok::<Option<ImageStep>, SandboxError>(Some(ImageStep::Build)) <==> step
            == ImageStep::Inspect && run is Ended && !ended_well(run),
        next == Ok::<Option<ImageStep>, SandboxError>(None) <==> ended_well(run),
        step == ImageStep::Build && run is Ended && !ended_well(run) ==> next == Err::<
            Option<ImageStep>,
            SandboxError,
        >(SandboxError::Build(run->stderr)),
        run is NotStarted ==> (next matches Err(SandboxError::Spawn(text)) && ends_with(
            text@,
            run->NotStarted_error@,
        )),
{
    if let CommandRun::NotStarted { error } = run {
        lemma_middle("docker image inspect: "@, error@, seq![]);
        lemma_middle("docker build spawn: "@, error@, seq![]);
    }
}

/// Files that could not be laid out are an error of the build that keeps what was said.
pub proof fn law_build_context_error(
    builder: RuntimeImageBuilder,
    failure: BuildContextFailure,
    error: SandboxError,
)
    requires
        call_ensures(RuntimeImageBuilder::context_error, (&builder, failure), error),
    ensures
        error matches SandboxError::Build(text) && text@ == (match failure {
            BuildContextFailure::Create { error } => "create build context: "@ + error@,
            BuildContextFailure::WriteDockerfile { error } => "write Dockerfile: "@ + error@,
            BuildContextFailure::WriteEntrypoint { error } => "write entrypoint: "@ + error@,
        }),
{
}

// --- The preflight ---

/// Errors that are short are reported as they are. Of longer ones the first 4096 bytes are,
/// and how many more there were.
pub proof fn law_long_errors_are_cut(stderr: &str, text: String)
    requires
        call_ensures(truncate_stderr, (stderr,), text),
    ensures
        encode_utf8(stderr@).len() <= 4096 ==> text@ == stderr@,
        encode_utf8(stderr@).len() > 4096 ==> text@ == decode_utf8(
            encode_utf8(stderr@).subrange(0, 4096),
        ) + "\n…(truncated "@ + decimal((encode_utf8(stderr@).len() - 4096) as nat) + " bytes)"@,
{
}

/// The daemon can be reached if and only if `docker version` ended well. Where it did not,
/// the exit status is reported.
pub proof fn law_docker_probe(
    probe: CliDockerProbe,
    args: Vec<String>,
    run: CommandRun,
    result: Result<(), String>,
)
    requires
        call_ensures(CliDockerProbe::args, (&probe,), args),
        call_ensures(CliDockerProbe::result, (&probe, &run), result),
    ensures
        views(args@) == seq!["version"@, "--format"@, "{{.Server.Version}}"@],
        result is Ok <==> ended_well(run),
        result matches Err(text) ==> (match run {
            CommandRun::NotStarted { error } => ends_with(text@, error@),
            CommandRun::Ended { success, status, stdout, stderr } => contains_text(text@, status@)
                && (encode_utf8(stderr@).len() <= 4096 ==> ends_with(text@, stderr@)),
        }),
{
    match run {
        CommandRun::NotStarted { error } => {
            lemma_middle("docker not invocable: "@, error@, seq![]);
        },
        CommandRun::Ended { success, status, stdout, stderr } => {
            let said = crate::sandbox::truncated(stderr@);
            let begin = "docker version exited with "@;
            lemma_middle(begin, status@, ": "@ + said);
            assert(begin + status@ + ": "@ + said =~= begin + status@ + (": "@ + said));
            lemma_middle(begin + status@, ": "@, said);
        },
    }
}

/// An image that is there gives its tag; a build that failed gives its errors, and any other
/// failure its text.
pub proof fn law_ensured_image(
    ensurer: BuilderImageEnsurer,
    built: Result<String, SandboxError>,
    tag: Result<String, String>,
)
    requires
        call_ensures(BuilderImageEnsurer::result, (&ensurer, built), tag),
    ensures
        tag is Ok <==> built is Ok,
        tag matches Ok(name) ==> built == Ok::<String, SandboxError>(name),
        built matches Err(SandboxError::Build(stderr)) ==> (encode_utf8(stderr@).len() <= 4096
            ==> tag->Err_0@ == stderr@),
        built matches Err(SandboxError::Spawn(detail)) ==> tag->Err_0@
            == "failed to spawn docker: "@ + detail@,
{
}

/// A Plan Run that cannot start is refused as a request that cannot be processed, under a
/// problem type of its own for each reason. The report holds what the reason is about.
pub proof fn law_preflight_failure_is_reported(
    failure: SandboxPreflightFailure,
    error: CoordinatorError,
    text: String,
)
    requires
        call_ensures(<CoordinatorError as From<SandboxPreflightFailure>>::from, (failure,), error),
        call_ensures(SandboxPreflightFailure::message, (&failure,), text),
    ensures
        error.status == 422,
        match failure {
            SandboxPreflightFailure::DockerUnavailable(detail) => error.problem_type@
                == "urn:agentic-afk:sandbox-docker-unavailable"@ && ends_with(
                error.detail@,
                detail@,
            ) && ends_with(text@, detail@),
            SandboxPreflightFailure::CodexAuthMissing(path) => error.problem_type@
                == "urn:agentic-afk:sandbox-codex-auth-missing"@ && contains_text(
                error.detail@,
                path@,
            ) && ends_with(text@, path@),
            SandboxPreflightFailure::MiseTomlMissing(path) => error.problem_type@
                == "urn:agentic-afk:sandbox-mise-toml-missing"@ && contains_text(
                error.detail@,
                path@,
            ) && ends_with(text@, path@),
            SandboxPreflightFailure::RuntimeImageBuildFailed(detail) => error.problem_type@
                == "urn:agentic-afk:sandbox-runtime-image-build-failed"@ && error.detail@
                == detail@ && ends_with(text@, detail@),
        },
{
    match failure {
        SandboxPreflightFailure::DockerUnavailable(detail) => {
            lemma_middle("Docker daemon unavailable: "@, detail@, seq![]);
        },
        SandboxPreflightFailure::CodexAuthMissing(path) => {
            lemma_middle(
                "Codex auth file not found at "@,
                path@,
                ". Run `codex login` once to create it."@,
            );
        },
        SandboxPreflightFailure::MiseTomlMissing(path) => {
            lemma_middle("Project worktree has no mise.toml at "@, path@, seq![]);
            lemma_middle(
                "Project worktree at "@,
                path@,
                " has no mise.toml. Codex Sandbox toolchain comes from mise.toml."@,
            );
        },
        SandboxPreflightFailure::RuntimeImageBuildFailed(detail) => {
            lemma_middle("runtime image build failed: "@, detail@, seq![]);
        },
    }
}

// --- Running a phase ---

/// Running a phase of an assignment starts one container, that of the assignment and the prompt,
/// and gives what it printed; the runner stays set up as it was.
pub proof fn law_phase_runs_in_its_container<L: SandboxLauncher>(
    runner: &mut DockerCodexRunner<L>,
    prompt: &str,
    context: &AssignmentContext<'_>,
    stdout: Result<String, PlanRunPhaseError>,
)
    requires
        call_ensures(DockerCodexRunner::<L>::run_implementation, (runner, prompt, context), stdout)
            || call_ensures(DockerCodexRunner::<L>::run_review, (runner, prompt, context), stdout)
            || call_ensures(DockerCodexRunner::<L>::run_merge, (runner, prompt, context), stdout),
    ensures
        stays_set_up(*old(runner), *final(runner)),
        exists|spec: SandboxLaunchSpec, launcher: &mut L, launched: Result<String, SandboxError>|
            #[trigger] call_ensures(L::launch, (launcher, spec), launched) && *launcher
                == old(runner).launcher && has_common_setup(spec, *old(runner)) && has_mounts(
                spec.mounts@,
                context.assignment.worktree_path@,
                true,
                old(runner).codex_auth_path@,
                old(runner).codex_config_path@,
            ) && spec.command@[4]@ == prompt@ && (launched is Ok <==> stdout is Ok) && (
            launched matches Ok(printed) ==> stdout->Ok_0 == printed),
{
    let (spec, launcher, launched) = choose|
        spec: SandboxLaunchSpec,
        launcher: &mut L,
        launched: Result<String, SandboxError>,
    |
        old(runner).is_assignment_launch(spec, prompt@, context) && *launcher
            == old(runner).launcher && *final(launcher) == final(runner).launcher
            && #[trigger] call_ensures(L::launch, (launcher, spec), launched) && (
        crate::codex_runner::is_phase_result(SandboxPhase::Implementation, launched, stdout)
            || crate::codex_runner::is_phase_result(SandboxPhase::Review, launched, stdout)
            || crate::codex_runner::is_phase_result(SandboxPhase::Merge, launched, stdout));
    assert(views(spec.command@).len() == spec.command@.len());
    assert(views(spec.command@)[4] == spec.command@[4]@);
}

/// All that a runner was made with is as it was.
pub open spec fn stays_set_up<L: SandboxLauncher>(
    before: DockerCodexRunner<L>,
    after: DockerCodexRunner<L>,
) -> bool {
    &&& after.phase == before.phase
    &&& after.image_tag == before.image_tag
    &&& after.project_path == before.project_path
    &&& after.codex_auth_path == before.codex_auth_path
    &&& after.codex_config_path == before.codex_config_path
    &&& after.user == before.user
}

/// Running the Planning Phase starts one container, that of the Plan Run and the prompt, which
/// cannot write the Project, and gives what it printed.
pub proof fn law_planning_runs_in_its_container<L: SandboxLauncher>(
    runner: &mut DockerCodexRunner<L>,
    prompt: &str,
    context: &PlanningContext<'_>,
    stdout: Result<String, PlanRunPhaseError>,
)
    requires
        call_ensures(DockerCodexRunner::<L>::run_planning, (runner, prompt, context), stdout),
    ensures
        stays_set_up(*old(runner), *final(runner)),
        exists|spec: SandboxLaunchSpec, launcher: &mut L, launched: Result<String, SandboxError>|
            #[trigger] call_ensures(L::launch, (launcher, spec), launched) && *launcher
                == old(runner).launcher && has_common_setup(spec, *old(runner)) && has_mounts(
                spec.mounts@,
                old(runner).project_path@,
                false,
                old(runner).codex_auth_path@,
                old(runner).codex_config_path@,
            ) && spec.container_name@ == "agentic-afk-planning-"@ + context.plan_run.id@
                && spec.command@[4]@ == prompt@ && (launched is Ok <==> stdout is Ok) && (
            launched matches Ok(printed) ==> stdout->Ok_0 == printed),
{
    let (spec, launcher, launched) = choose|
        spec: SandboxLaunchSpec,
        launcher: &mut L,
        launched: Result<String, SandboxError>,
    |
        old(runner).is_planning_launch(
            spec,
            prompt@,
            context.plan_run.id@,
            context.project.id.0@,
        ) && *launcher == old(runner).launcher && *final(launcher) == final(runner).launcher
            && #[trigger] call_ensures(L::launch, (launcher, spec), launched)
            && crate::codex_runner::is_phase_result(SandboxPhase::Planning, launched, stdout);
    assert(views(spec.command@).len() == spec.command@.len());
    assert(views(spec.command@)[4] == spec.command@[4]@);
}

// --- The preflight as a whole ---

/// A preflight passes only where the auth file and `mise.toml` are there. Where one is missing,
/// the image is not touched. The daemon and the path of the auth file stay as they are.
pub proof fn law_preflight_check<D: DockerProbe, I: RuntimeImageEnsurer>(
    preflight: &mut SandboxPreflight<D, I>,
    files: &PreflightFiles,
    verdict: Result<(), SandboxPreflightFailure>,
)
    requires
        call_ensures(
            <SandboxPreflight<D, I> as SandboxPreflightCheck>::check,
            (preflight, files),
            verdict,
        ),
    ensures
        final(preflight).docker == old(preflight).docker,
        final(preflight).codex_auth_path == old(preflight).codex_auth_path,
        verdict is Ok ==> files.auth_readable && files.has_mise_toml,
        !files.auth_readable || !files.has_mise_toml ==> final(preflight).image
            == old(preflight).image,
        verdict matches Err(SandboxPreflightFailure::CodexAuthMissing(path)) ==> path
            == old(preflight).codex_auth_path && !files.auth_readable,
        verdict matches Err(SandboxPreflightFailure::MiseTomlMissing(path)) ==> path
            == files.project_path && files.auth_readable && !files.has_mise_toml,
{
}

/// A preflight passes if and only if all that it needs is there, and else names what is missing
/// first.
pub proof fn law_preflight_names_what_is_missing(
    docker: Result<(), String>,
    codex_auth_path: &String,
    files: &PreflightFiles,
    image: Result<String, String>,
    early: Result<(), SandboxPreflightFailure>,
    verdict: Result<(), SandboxPreflightFailure>,
)
    requires
        call_ensures(check_before_image, (docker, codex_auth_path, files), early),
        call_ensures(judge_preflight, (docker, codex_auth_path, files, image), verdict),
    ensures
        early is Ok <==> docker is Ok && files.auth_readable && files.has_mise_toml,
        verdict is Ok <==> early is Ok && image is Ok,
        early is Err ==> verdict == early,
        early is Ok && image is Err ==> verdict == Err::<(), SandboxPreflightFailure>(
            SandboxPreflightFailure::RuntimeImageBuildFailed(image->Err_0),
        ),
        docker is Err ==> early == Err::<(), SandboxPreflightFailure>(
            SandboxPreflightFailure::DockerUnavailable(docker->Err_0),
        ),
        docker is Ok && !files.auth_readable ==> early == Err::<(), SandboxPreflightFailure>(
            SandboxPreflightFailure::CodexAuthMissing(*codex_auth_path),
        ),
{
}

} // verus!
