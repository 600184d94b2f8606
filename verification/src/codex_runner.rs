//! Running the Codex phases in containers.

use vstd::prelude::*;

use crate::contracts::{IssueAssignmentResponse, PlanRunResponse, ProjectResponse};
use crate::plan_run::PlanRunPhaseError;
use crate::sandbox::{
    SandboxError, SandboxLaunchSpec, SandboxLauncher, SandboxMount, SandboxPhase, MISE_CACHE_VOLUME,
};
use crate::text::concat;
#[allow(unused_imports)]
use crate::text::{pair_views, views};

verus! {

/// What the Planning Phase runs for.
pub struct PlanningContext<'a> {
    pub project: &'a ProjectResponse,
    pub plan_run: &'a PlanRunResponse,
}

/// What a phase of an assignment runs for.
pub struct AssignmentContext<'a> {
    pub project: &'a ProjectResponse,
    pub plan_run: &'a PlanRunResponse,
    pub assignment: &'a IssueAssignmentResponse,
}

/// The runner of one phase.
pub struct DockerCodexRunner<L: SandboxLauncher> {
    pub launcher: L,
    pub phase: SandboxPhase,
    pub image_tag: String,
    pub project_path: String,
    pub codex_auth_path: String,
    pub codex_config_path: String,
    pub user: Option<(u32, u32)>,
}

/// The model of a phase.
pub open spec fn model_name(phase: SandboxPhase) -> Seq<char> {
    if phase == SandboxPhase::Implementation {
        "gpt-5.4"@
    } else {
        "gpt-5.5"@
    }
}

/// The model of a phase, and its effort.
pub struct CodexModelConfig {
    pub model: &'static str,
    pub reasoning_effort: &'static str,
}

impl SandboxPhase {
    /// The model of the phase.
    pub fn codex_model(self) -> (config: CodexModelConfig)
        ensures
            config.model@ == model_name(self),
            config.reasoning_effort@ == "medium"@,
    {
        match self {
            SandboxPhase::Implementation => CodexModelConfig {
                model: "gpt-5.4",
                reasoning_effort: "medium",
            },
            SandboxPhase::Planning | SandboxPhase::Review | SandboxPhase::Merge => {
                CodexModelConfig { model: "gpt-5.5", reasoning_effort: "medium" }
            },
        }
    }
}

/// The script that runs Codex with the prompt `$1`, and prints its last message
/// alone.
pub open spec fn codex_script(model: Seq<char>, effort: Seq<char>) -> Seq<char> {
    "set -euo pipefail\nlast_message=\"$(mktemp /tmp/agentic-afk-last-message.XXXXXX)\"\ntranscript=\"$(mktemp /tmp/agentic-afk-codex-transcript.XXXXXX)\"\ncodex exec --model "@
        + model + " -c 'model_reasoning_effort=\""@ + effort
        + "\"' --dangerously-bypass-approvals-and-sandbox --output-last-message \"$last_message\" \"$1\" >\"$transcript\"\ncat \"$last_message\""@
}

/// The command of a container: the prompt is the last argument.
pub open spec fn codex_argv(prompt: Seq<char>, model: Seq<char>, effort: Seq<char>) -> Seq<
    Seq<char>,
> {
    seq!["bash"@, "-lc"@, codex_script(model, effort), "agentic-afk-codex-exec"@, prompt]
}

/// The command of a container.
pub fn codex_exec_command(prompt: &str, model: CodexModelConfig) -> (command: Vec<String>)
    ensures
        views(command@) == codex_argv(prompt@, model.model@, model.reasoning_effort@),
{
    let mut script = concat(
        "set -euo pipefail\nlast_message=\"$(mktemp /tmp/agentic-afk-last-message.XXXXXX)\"\ntranscript=\"$(mktemp /tmp/agentic-afk-codex-transcript.XXXXXX)\"\ncodex exec --model ",
        model.model,
    );
    script.append(" -c 'model_reasoning_effort=\"");
    script.append(model.reasoning_effort);
    script.append(
        "\"' --dangerously-bypass-approvals-and-sandbox --output-last-message \"$last_message\" \"$1\" >\"$transcript\"\ncat \"$last_message\"",
    );
    let mut command: Vec<String> = Vec::new();
    command.push("bash".to_owned());
    command.push("-lc".to_owned());
    command.push(script);
    command.push("agentic-afk-codex-exec".to_owned());
    command.push(prompt.to_owned());
    assert(views(command@) =~= codex_argv(prompt@, model.model@, model.reasoning_effort@));
    command
}

/// The labels of a container. One that belongs to no assignment has empty labels
/// for it.
pub open spec fn label_pairs(
    phase: SandboxPhase,
    plan_run_id: Seq<char>,
    project_id: Seq<char>,
    assignment_id: Seq<char>,
    attempt_id: Seq<char>,
) -> Seq<(Seq<char>, Seq<char>)> {
    seq![
        ("agentic-afk.plan-run-id"@, plan_run_id),
        ("agentic-afk.project-id"@, project_id),
        ("agentic-afk.phase"@, phase.label()),
        ("agentic-afk.issue-assignment-id"@, assignment_id),
        ("agentic-afk.assignment-attempt-id"@, attempt_id),
    ]
}

/// The mount is a path of the host, with these contents.
pub open spec fn is_bind(
    mount: SandboxMount,
    host: Seq<char>,
    container: Seq<char>,
    read_only: bool,
) -> bool {
    mount matches SandboxMount::Bind { host_path, container_path, read_only: ro } && host_path@
        == host && container_path@ == container && ro == read_only
}

impl<L: SandboxLauncher> DockerCodexRunner<L> {
    /// The mounts of a container: the work, the auth file and the configuration
    /// of Codex, and the shared tools. Of the files only the configuration is
    /// read-only whatever the work is.
    pub open spec fn mounts_are(
        &self,
        mounts: Seq<SandboxMount>,
        work_host: Seq<char>,
        work_read_only: bool,
    ) -> bool {
        &&& mounts.len() == 4
        &&& is_bind(mounts[0], work_host, "/work"@, work_read_only)
        &&& is_bind(
            mounts[1],
            self.codex_auth_path@,
            "/tmp/codex-home/.codex/auth.json"@,
            false,
        )
        &&& is_bind(
            mounts[2],
            self.codex_config_path@,
            "/tmp/codex-home/.codex/config.toml"@,
            true,
        )
        &&& mounts[3] matches SandboxMount::Volume { name, container_path, read_only } && name@
            == MISE_CACHE_VOLUME@ && container_path@ == "/cache/mise"@ && !read_only
    }

    /// What every container of the phase is started with.
    pub open spec fn is_phase_launch(&self, spec: SandboxLaunchSpec, prompt: Seq<char>) -> bool {
        &&& spec.image_tag == self.image_tag
        &&& spec.phase == self.phase
        &&& spec.workdir@ == "/work"@
        &&& pair_views(spec.env@) == seq![("HOME"@, "/tmp/codex-home"@)]
        &&& views(spec.command@) == codex_argv(prompt, model_name(self.phase), "medium"@)
        &&& spec.memory@ == "8g"@
        &&& spec.cpus@ == "2.0"@
        &&& spec.pids_limit == 512
        &&& spec.user == self.user
    }

    /// What the container of a Planning Phase is started with. The Project cannot
    /// be written.
    pub open spec fn is_planning_launch(
        &self,
        spec: SandboxLaunchSpec,
        prompt: Seq<char>,
        plan_run_id: Seq<char>,
        project_id: Seq<char>,
    ) -> bool {
        &&& self.is_phase_launch(spec, prompt)
        &&& spec.container_name@ == "agentic-afk-planning-"@ + plan_run_id
        &&& pair_views(spec.labels@) == label_pairs(
            self.phase,
            plan_run_id,
            project_id,
            ""@,
            ""@,
        )
        &&& self.mounts_are(spec.mounts@, self.project_path@, true)
    }

    /// What the container of an assignment is started with. Its worktree can be
    /// written.
    pub open spec fn is_assignment_launch(
        &self,
        spec: SandboxLaunchSpec,
        prompt: Seq<char>,
        context: &AssignmentContext<'_>,
    ) -> bool {
        &&& self.is_phase_launch(spec, prompt)
        &&& spec.container_name@ == "agentic-afk-assignment-"@ + context.assignment.id@ + "-"@
            + self.phase.label()
        &&& pair_views(spec.labels@) == label_pairs(
            self.phase,
            context.plan_run.id@,
            context.project.id.0@,
            context.assignment.id@,
            match context.assignment.latest_attempt {
                Some(attempt) => attempt.id@,
                None => ""@,
            },
        )
        &&& self.mounts_are(spec.mounts@, context.assignment.worktree_path@, false)
    }

    /// The runner is set up in the same way.
    pub open spec fn same_setup(&self, other: &DockerCodexRunner<L>) -> bool {
        &&& self.phase == other.phase
        &&& self.image_tag == other.image_tag
        &&& self.project_path == other.project_path
        &&& self.codex_auth_path == other.codex_auth_path
        &&& self.codex_config_path == other.codex_config_path
        &&& self.user == other.user
    }

    pub fn new(
        launcher: L,
        phase: SandboxPhase,
        image_tag: String,
        project_path: String,
        codex_auth_path: String,
        codex_config_path: String,
        user: Option<(u32, u32)>,
    ) -> (runner: DockerCodexRunner<L>)
        ensures
            runner == (DockerCodexRunner {
                launcher,
                phase,
                image_tag,
                project_path,
                codex_auth_path,
                codex_config_path,
                user,
            }),
    {
        DockerCodexRunner {
            launcher,
            phase,
            image_tag,
            project_path,
            codex_auth_path,
            codex_config_path,
            user,
        }
    }

    /// The labels of a container.
    pub fn standard_labels(
        &self,
        plan_run_id: &str,
        project_id: &str,
        assignment_id: Option<&str>,
        attempt_id: Option<&str>,
    ) -> (labels: Vec<(String, String)>)
        ensures
            pair_views(labels@) == label_pairs(
                self.phase,
                plan_run_id@,
                project_id@,
                match assignment_id {
                    Some(id) => id@,
                    None => ""@,
                },
                match attempt_id {
                    Some(id) => id@,
                    None => ""@,
                },
            ),
    {
        let assignment = match assignment_id {
            Some(id) => id,
            None => "",
        };
        let attempt = match attempt_id {
            Some(id) => id,
            None => "",
        };
        let mut labels: Vec<(String, String)> = Vec::new();
        labels.push(("agentic-afk.plan-run-id".to_owned(), plan_run_id.to_owned()));
        labels.push(("agentic-afk.project-id".to_owned(), project_id.to_owned()));
        labels.push(("agentic-afk.phase".to_owned(), self.phase.as_label().to_owned()));
        labels.push(("agentic-afk.issue-assignment-id".to_owned(), assignment.to_owned()));
        labels.push(("agentic-afk.assignment-attempt-id".to_owned(), attempt.to_owned()));
        assert(pair_views(labels@) =~= label_pairs(
            self.phase,
            plan_run_id@,
            project_id@,
            assignment@,
            attempt@,
        ));
        labels
    }

    /// The mounts of a container.
    pub fn mounts(&self, work_host: &str, work_read_only: bool) -> (mounts: Vec<SandboxMount>)
        ensures
            self.mounts_are(mounts@, work_host@, work_read_only),
    {
        let mut mounts: Vec<SandboxMount> = Vec::new();
        mounts.push(
            SandboxMount::Bind {
                host_path: work_host.to_owned(),
                container_path: "/work".to_owned(),
                read_only: work_read_only,
            },
        );
        mounts.push(
            SandboxMount::Bind {
                host_path: self.codex_auth_path.clone(),
                container_path: "/tmp/codex-home/.codex/auth.json".to_owned(),
                read_only: false,
            },
        );
        mounts.push(
            SandboxMount::Bind {
                host_path: self.codex_config_path.clone(),
                container_path: "/tmp/codex-home/.codex/config.toml".to_owned(),
                read_only: true,
            },
        );
        mounts.push(
            SandboxMount::Volume {
                name: MISE_CACHE_VOLUME.to_owned(),
                container_path: "/cache/mise".to_owned(),
                read_only: false,
            },
        );
        mounts
    }

    fn launch_with(
        &self,
        prompt: &str,
        container_name: String,
        labels: Vec<(String, String)>,
        mounts: Vec<SandboxMount>,
    ) -> (spec: SandboxLaunchSpec)
        ensures
            self.is_phase_launch(spec, prompt@),
            spec.container_name == container_name,
            spec.labels == labels,
            spec.mounts == mounts,
    {
        let (memory, cpus, pids_limit) = SandboxLaunchSpec::default_caps();
        let mut env: Vec<(String, String)> = Vec::new();
        env.push(("HOME".to_owned(), "/tmp/codex-home".to_owned()));
        assert(pair_views(env@) =~= seq![("HOME"@, "/tmp/codex-home"@)]);
        SandboxLaunchSpec {
            image_tag: self.image_tag.clone(),
            container_name,
            phase: self.phase,
            labels,
            mounts,
            workdir: "/work".to_owned(),
            env,
            command: codex_exec_command(prompt, self.phase.codex_model()),
            memory,
            cpus,
            pids_limit,
            user: self.user,
        }
    }

    /// What the container of a Planning Phase is started with.
    pub fn build_spec_planning(&self, prompt: &str, plan_run_id: &str, project_id: &str) -> (spec:
        SandboxLaunchSpec)
        ensures
            self.is_planning_launch(spec, prompt@, plan_run_id@, project_id@),
    {
        self.launch_with(
            prompt,
            concat("agentic-afk-planning-", plan_run_id),
            self.standard_labels(plan_run_id, project_id, None, None),
            self.mounts(self.project_path.as_str(), true),
        )
    }

    /// What the container of an assignment is started with.
    pub fn build_spec_assignment(&self, prompt: &str, context: &AssignmentContext<'_>) -> (spec:
        SandboxLaunchSpec)
        ensures
            self.is_assignment_launch(spec, prompt@, context),
    {
        let attempt_id = match &context.assignment.latest_attempt {
            Some(attempt) => Some(attempt.id.as_str()),
            None => None,
        };
        let labels = self.standard_labels(
            context.plan_run.id.as_str(),
            context.project.id.0.as_str(),
            Some(context.assignment.id.as_str()),
            attempt_id,
        );
        let mut name = concat("agentic-afk-assignment-", context.assignment.id.as_str());
        name.append("-");
        name.append(self.phase.as_label());
        self.launch_with(
            prompt,
            name,
            labels,
            self.mounts(context.assignment.worktree_path.as_str(), false),
        )
    }

    /// Run the Planning Phase: one container, whose output is handed back. A
    /// failed launch is an error of the Planning Phase.
    pub fn run_planning(&mut self, prompt: &str, context: &PlanningContext<'_>) -> (stdout: Result<
        String,
        PlanRunPhaseError,
    >)
        ensures
            final(self).same_setup(old(self)),
            exists|
                spec: SandboxLaunchSpec,
                launcher: &mut L,
                launched: Result<String, SandboxError>,
            |
                old(self).is_planning_launch(
                    spec,
                    prompt@,
                    context.plan_run.id@,
                    context.project.id.0@,
                ) && *launcher == old(self).launcher && *final(launcher)
                    == final(self).launcher && #[trigger] call_ensures(
                    L::launch,
                    (launcher, spec),
                    launched,
                ) && is_phase_result(SandboxPhase::Planning, launched, stdout),
    {
        let spec = self.build_spec_planning(
            prompt,
            context.plan_run.id.as_str(),
            context.project.id.0.as_str(),
        );
        let launched = self.launcher.launch(spec);
        phase_result(SandboxPhase::Planning, launched)
    }

    /// Run the Implementation Phase of an assignment: one container, whose output
    /// is handed back.
    pub fn run_implementation(&mut self, prompt: &str, context: &AssignmentContext<'_>) -> (stdout:
        Result<String, PlanRunPhaseError>)
        ensures
            final(self).same_setup(old(self)),
            exists|
                spec: SandboxLaunchSpec,
                launcher: &mut L,
                launched: Result<String, SandboxError>,
            |
                old(self).is_assignment_launch(spec, prompt@, context) && *launcher == old(self).launcher && *final(launcher)
                    == final(self).launcher && #[trigger] call_ensures(
                    L::launch,
                    (launcher, spec),
                    launched,
                ) && is_phase_result(SandboxPhase::Implementation, launched, stdout),
    {
        let spec = self.build_spec_assignment(prompt, context);
        let launched = self.launcher.launch(spec);
        phase_result(SandboxPhase::Implementation, launched)
    }

    /// Run the Review Phase of an assignment: one container, whose output is
    /// handed back.
    pub fn run_review(&mut self, prompt: &str, context: &AssignmentContext<'_>) -> (stdout: Result<
        String,
        PlanRunPhaseError,
    >)
        ensures
            final(self).same_setup(old(self)),
            exists|
                spec: SandboxLaunchSpec,
                launcher: &mut L,
                launched: Result<String, SandboxError>,
            |
                old(self).is_assignment_launch(spec, prompt@, context) && *launcher == old(self).launcher && *final(launcher)
                    == final(self).launcher && #[trigger] call_ensures(
                    L::launch,
                    (launcher, spec),
                    launched,
                ) && is_phase_result(SandboxPhase::Review, launched, stdout),
    {
        let spec = self.build_spec_assignment(prompt, context);
        let launched = self.launcher.launch(spec);
        phase_result(SandboxPhase::Review, launched)
    }

    /// Run the Merge Phase of an assignment: one container, whose output is
    /// handed back.
    pub fn run_merge(&mut self, prompt: &str, context: &AssignmentContext<'_>) -> (stdout: Result<
        String,
        PlanRunPhaseError,
    >)
        ensures
            final(self).same_setup(old(self)),
            exists|
                spec: SandboxLaunchSpec,
                launcher: &mut L,
                launched: Result<String, SandboxError>,
            |
                old(self).is_assignment_launch(spec, prompt@, context) && *launcher == old(self).launcher && *final(launcher)
                    == final(self).launcher && #[trigger] call_ensures(
                    L::launch,
                    (launcher, spec),
                    launched,
                ) && is_phase_result(SandboxPhase::Merge, launched, stdout),
    {
        let spec = self.build_spec_assignment(prompt, context);
        let launched = self.launcher.launch(spec);
        phase_result(SandboxPhase::Merge, launched)
    }
}

/// What a phase gives for a launch: its output, or its error as an error of the
/// phase.
pub open spec fn is_phase_result(
    phase: SandboxPhase,
    launched: Result<String, SandboxError>,
    result: Result<String, PlanRunPhaseError>,
) -> bool {
    match launched {
        Ok(stdout) => result == Ok::<String, PlanRunPhaseError>(stdout),
        Err(error) => match phase {
            SandboxPhase::Planning => result matches Err(PlanRunPhaseError::Planning(text))
                && text@ == error.text(),
            SandboxPhase::Implementation => result matches Err(
                PlanRunPhaseError::Implementation(text),
            ) && text@ == error.text(),
            SandboxPhase::Review => result matches Err(PlanRunPhaseError::Review(text)) && text@
                == error.text(),
            SandboxPhase::Merge => result matches Err(PlanRunPhaseError::Merge(text)) && text@
                == error.text(),
        },
    }
}

/// What a phase gives for a launch.
pub fn phase_result(phase: SandboxPhase, launched: Result<String, SandboxError>) -> (result: Result<
    String,
    PlanRunPhaseError,
>)
    ensures
        is_phase_result(phase, launched, result),
{
    match launched {
        Ok(stdout) => Ok(stdout),
        Err(error) => {
            let text = error.message();
            match phase {
                SandboxPhase::Planning => Err(PlanRunPhaseError::Planning(text)),
                SandboxPhase::Implementation => Err(PlanRunPhaseError::Implementation(text)),
                SandboxPhase::Review => Err(PlanRunPhaseError::Review(text)),
                SandboxPhase::Merge => Err(PlanRunPhaseError::Merge(text)),
            }
        },
    }
}

/// The container of a Planning Phase cannot write the Project, and that of any
/// other phase does not get the Project but the worktree of its assignment.
pub proof fn law_planning_cannot_write<L: SandboxLauncher>(
    runner: DockerCodexRunner<L>,
    planning: SandboxLaunchSpec,
    assignment: SandboxLaunchSpec,
    prompt: Seq<char>,
    plan_run_id: Seq<char>,
    project_id: Seq<char>,
    context: &AssignmentContext<'_>,
)
    requires
        runner.is_planning_launch(planning, prompt, plan_run_id, project_id),
        runner.is_assignment_launch(assignment, prompt, context),
    ensures
        is_bind(planning.mounts@[0], runner.project_path@, "/work"@, true),
        is_bind(assignment.mounts@[0], context.assignment.worktree_path@, "/work"@, false),
        forall|i: int|
            0 < i < 4 ==> (#[trigger] assignment.mounts@[i]).rendered()
                == planning.mounts@[i].rendered(),
{
    assert forall|i: int| 0 < i < 4 implies (#[trigger] assignment.mounts@[i]).rendered()
        == planning.mounts@[i].rendered() by {
        assert(i == 1 || i == 2 || i == 3);
    }
}

} // verus!
