//! The inputs and seams of a Plan Run, and the order of its batch.

use vstd::prelude::*;

use crate::contracts::{
    copy_git_summary, copy_issue_source, IssueAssignmentResponse, PhaseOutputResponse,
    PlanRunResponse, ProjectExecutionConfigResponse, ProjectId, ProjectResponse,
};
use crate::json::JsonDocument;
use crate::lifecycle::GhLifecycleWriter;
use crate::merge_driver::MergeItem;
use crate::plan_run::RefreshedBaseline;
use crate::problem::CoordinatorError;
use crate::production::WorktrunkAssignmentWorktreeProvisioner;
use crate::text::{clone_option, concat, same_text};
#[allow(unused_imports)]
use crate::text::views;

verus! {

// --- The seams ---

/// Who refreshes the Integration Branch.
#[derive(Clone, Debug, Eq, PartialEq)]
pub enum RefresherSeam {
    Unimplemented,
    Git,
    Static(RefreshedBaseline),
}

/// Who runs a phase.
#[derive(Clone, Debug, Eq, PartialEq)]
pub enum PhaseSeam {
    Unimplemented,
    /// Answers every prompt with the same output.
    Canned { stdout: String },
    /// Runs the Codex binary in the Project path.
    Codex { binary: String, project_path: String },
}

/// Who provisions Assignment Worktrees.
#[derive(Clone, Debug, Eq, PartialEq)]
pub enum WorktreeSeam {
    Unimplemented,
    Worktrunk(WorktrunkAssignmentWorktreeProvisioner),
    /// Makes up paths below a directory.
    Fake { root: String },
}

/// Who writes Lifecycle Statuses back.
#[derive(Clone, Debug, Eq, PartialEq)]
pub enum LifecycleSeam {
    Unimplemented,
    Gh(GhLifecycleWriter),
    /// Accepts every write.
    Fake,
}

/// Who runs the Git commands of a push or a cleanup.
#[derive(Clone, Copy, Debug, Eq, PartialEq, Structural)]
pub enum GitSeam {
    Unimplemented,
    Git,
    /// Accepts every command.
    Fake,
}

/// The seams of a Plan Run.
#[derive(Clone, Debug, Eq, PartialEq)]
pub struct PlanRunDeps {
    pub refresher: RefresherSeam,
    pub planner: PhaseSeam,
    pub worktree: WorktreeSeam,
    pub lifecycle: LifecycleSeam,
    pub implementation: PhaseSeam,
    pub review: PhaseSeam,
    pub merger: PhaseSeam,
    pub pusher: GitSeam,
    pub cleaner: GitSeam,
    /// The binary of the production phase runners. Without it the phase seams
    /// stay as they are.
    pub production_codex_binary: Option<String>,
    /// The binary of the production lifecycle writer. Without it the lifecycle
    /// seam stays as it is.
    pub production_gh_binary: Option<String>,
}

impl PlanRunDeps {
    /// Seams of which none works.
    pub fn unimplemented() -> (deps: PlanRunDeps)
        ensures
            deps.refresher is Unimplemented,
            deps.planner is Unimplemented,
            deps.worktree is Unimplemented,
            deps.lifecycle is Unimplemented,
            deps.implementation is Unimplemented,
            deps.review is Unimplemented,
            deps.merger is Unimplemented,
            deps.pusher is Unimplemented,
            deps.cleaner is Unimplemented,
            deps.production_codex_binary is None,
            deps.production_gh_binary is None,
    {
        PlanRunDeps {
            refresher: RefresherSeam::Unimplemented,
            planner: PhaseSeam::Unimplemented,
            worktree: WorktreeSeam::Unimplemented,
            lifecycle: LifecycleSeam::Unimplemented,
            implementation: PhaseSeam::Unimplemented,
            review: PhaseSeam::Unimplemented,
            merger: PhaseSeam::Unimplemented,
            pusher: GitSeam::Unimplemented,
            cleaner: GitSeam::Unimplemented,
            production_codex_binary: None,
            production_gh_binary: None,
        }
    }

    /// The production seams. The phase runners and the lifecycle writer wait for
    /// their Project: see [`resolve_deps_for_project`].
    pub fn production(
        worktrunk_binary_path: String,
        codex_binary_path: String,
        gh_binary_path: String,
    ) -> (deps: PlanRunDeps)
        ensures
            deps == (PlanRunDeps {
                refresher: RefresherSeam::Git,
                planner: PhaseSeam::Unimplemented,
                worktree: WorktreeSeam::Worktrunk(
                    WorktrunkAssignmentWorktreeProvisioner { worktrunk_binary_path },
                ),
                lifecycle: LifecycleSeam::Unimplemented,
                implementation: PhaseSeam::Unimplemented,
                review: PhaseSeam::Unimplemented,
                merger: PhaseSeam::Unimplemented,
                pusher: GitSeam::Git,
                cleaner: GitSeam::Git,
                production_codex_binary: Some(codex_binary_path),
                production_gh_binary: Some(gh_binary_path),
            }),
    {
        PlanRunDeps {
            refresher: RefresherSeam::Git,
            planner: PhaseSeam::Unimplemented,
            worktree: WorktreeSeam::Worktrunk(
                WorktrunkAssignmentWorktreeProvisioner::new(worktrunk_binary_path),
            ),
            lifecycle: LifecycleSeam::Unimplemented,
            implementation: PhaseSeam::Unimplemented,
            review: PhaseSeam::Unimplemented,
            merger: PhaseSeam::Unimplemented,
            pusher: GitSeam::Git,
            cleaner: GitSeam::Git,
            production_codex_binary: Some(codex_binary_path),
            production_gh_binary: Some(gh_binary_path),
        }
    }

    /// Seams for tests: an empty plan, and phases that succeed. Worktrees are
    /// made up below `worktree_root`.
    pub fn default_test_deps(worktree_root: String) -> (deps: PlanRunDeps)
        ensures
            deps.refresher matches RefresherSeam::Static(baseline) && baseline.commit_sha@
                == "test-baseline"@,
            deps.planner matches PhaseSeam::Canned { stdout } && stdout@
                == "<plan>{\"issues\":[],\"summary\":\"none\"}</plan>"@,
            deps.worktree == (WorktreeSeam::Fake { root: worktree_root }),
            deps.lifecycle is Fake,
            deps.implementation matches PhaseSeam::Canned { stdout } && stdout@
                == "<impl>{\"outcome\":\"ready_for_review\",\"summary\":\"stub\",\"commits\":[],\"verification\":[],\"gaps\":[]}</impl>"@,
            deps.review matches PhaseSeam::Canned { stdout } && stdout@
                == "<review>{\"outcome\":\"approved\",\"findings\":[],\"summary\":\"stub approved\",\"verification\":[],\"gaps\":[]}</review>"@,
            deps.merger matches PhaseSeam::Canned { stdout } && stdout@
                == "<merge>{\"outcome\":\"merged\",\"summary\":\"stub merged\",\"merged_source_ids\":[],\"verification\":[],\"gaps\":[]}</merge>"@,
            deps.pusher is Fake,
            deps.cleaner is Fake,
            deps.production_codex_binary is None,
            deps.production_gh_binary is None,
    {
        PlanRunDeps {
            refresher: RefresherSeam::Static(
                RefreshedBaseline { commit_sha: "test-baseline".to_owned() },
            ),
            planner: PhaseSeam::Canned {
                stdout: "<plan>{\"issues\":[],\"summary\":\"none\"}</plan>".to_owned(),
            },
            worktree: WorktreeSeam::Fake { root: worktree_root },
            lifecycle: LifecycleSeam::Fake,
            implementation: PhaseSeam::Canned {
                stdout: "<impl>{\"outcome\":\"ready_for_review\",\"summary\":\"stub\",\"commits\":[],\"verification\":[],\"gaps\":[]}</impl>".to_owned(),
            },
            review: PhaseSeam::Canned {
                stdout: "<review>{\"outcome\":\"approved\",\"findings\":[],\"summary\":\"stub approved\",\"verification\":[],\"gaps\":[]}</review>".to_owned(),
            },
            merger: PhaseSeam::Canned {
                stdout: "<merge>{\"outcome\":\"merged\",\"summary\":\"stub merged\",\"merged_source_ids\":[],\"verification\":[],\"gaps\":[]}</merge>".to_owned(),
            },
            pusher: GitSeam::Fake,
            cleaner: GitSeam::Fake,
            production_codex_binary: None,
            production_gh_binary: None,
        }
    }

    /// An equal set of seams.
    pub fn copied(&self) -> (copy: PlanRunDeps)
        ensures
            copy == *self,
    {
        PlanRunDeps {
            refresher: match &self.refresher {
                RefresherSeam::Unimplemented => RefresherSeam::Unimplemented,
                RefresherSeam::Git => RefresherSeam::Git,
                RefresherSeam::Static(baseline) => RefresherSeam::Static(
                    RefreshedBaseline { commit_sha: baseline.commit_sha.clone() },
                ),
            },
            planner: self.planner.copied(),
            worktree: match &self.worktree {
                WorktreeSeam::Unimplemented => WorktreeSeam::Unimplemented,
                WorktreeSeam::Worktrunk(provisioner) => WorktreeSeam::Worktrunk(
                    WorktrunkAssignmentWorktreeProvisioner::new(
                        provisioner.worktrunk_binary_path.clone(),
                    ),
                ),
                WorktreeSeam::Fake { root } => WorktreeSeam::Fake { root: root.clone() },
            },
            lifecycle: match &self.lifecycle {
                LifecycleSeam::Unimplemented => LifecycleSeam::Unimplemented,
                LifecycleSeam::Gh(writer) => LifecycleSeam::Gh(
                    GhLifecycleWriter::for_project(
                        writer.gh_binary_path.clone(),
                        copy_project(&writer.project),
                        copy_issue_source(&writer.source),
                    ),
                ),
                LifecycleSeam::Fake => LifecycleSeam::Fake,
            },
            implementation: self.implementation.copied(),
            review: self.review.copied(),
            merger: self.merger.copied(),
            pusher: self.pusher,
            cleaner: self.cleaner,
            production_codex_binary: clone_option(&self.production_codex_binary),
            production_gh_binary: clone_option(&self.production_gh_binary),
        }
    }
}

impl PhaseSeam {
    /// An equal seam.
    pub fn copied(&self) -> (copy: PhaseSeam)
        ensures
            copy == *self,
    {
        match self {
            PhaseSeam::Unimplemented => PhaseSeam::Unimplemented,
            PhaseSeam::Canned { stdout } => PhaseSeam::Canned { stdout: stdout.clone() },
            PhaseSeam::Codex { binary, project_path } => PhaseSeam::Codex {
                binary: binary.clone(),
                project_path: project_path.clone(),
            },
        }
    }
}

/// An equal Project.
pub fn copy_project(project: &ProjectResponse) -> (copy: ProjectResponse)
    ensures
        copy == *project,
{
    ProjectResponse {
        id: ProjectId(project.id.0.clone()),
        path: project.path.clone(),
        trusted: project.trusted,
        git_summary: match &project.git_summary {
            Some(summary) => Some(copy_git_summary(summary)),
            None => None,
        },
        enabled_issue_source: match &project.enabled_issue_source {
            Some(source) => Some(copy_issue_source(source)),
            None => None,
        },
    }
}

/// The phase runner of a Project: the production one where there is a binary for
/// it, and otherwise the one that was there.
pub open spec fn resolved_phase(seam: PhaseSeam, binary: Option<String>, path: String) -> PhaseSeam {
    match binary {
        Some(binary) => PhaseSeam::Codex { binary, project_path: path },
        None => seam,
    }
}

/// The seams of a Project. Where there are production binaries, the phase runners
/// run in the Project path, and the lifecycle writer writes to the Project's
/// Issue Source if it has one enabled.
pub open spec fn resolved_deps(deps: PlanRunDeps, project: ProjectResponse) -> PlanRunDeps {
    PlanRunDeps {
        planner: resolved_phase(deps.planner, deps.production_codex_binary, project.path),
        implementation: resolved_phase(
            deps.implementation,
            deps.production_codex_binary,
            project.path,
        ),
        review: resolved_phase(deps.review, deps.production_codex_binary, project.path),
        merger: resolved_phase(deps.merger, deps.production_codex_binary, project.path),
        lifecycle: match (deps.production_gh_binary, project.enabled_issue_source) {
            (Some(gh_binary_path), Some(source)) => LifecycleSeam::Gh(
                GhLifecycleWriter { gh_binary_path, project, source },
            ),
            _ => deps.lifecycle,
        },
        ..deps
    }
}

/// The seams of a Project.
pub fn resolve_deps_for_project(deps: &PlanRunDeps, project: &ProjectResponse) -> (resolved:
    PlanRunDeps)
    ensures
        resolved == resolved_deps(*deps, *project),
{
    let mut resolved = deps.copied();
    match &deps.production_codex_binary {
        Some(binary) => {
            resolved.planner =
            PhaseSeam::Codex { binary: binary.clone(), project_path: project.path.clone() };
            resolved.implementation =
            PhaseSeam::Codex { binary: binary.clone(), project_path: project.path.clone() };
            resolved.review =
            PhaseSeam::Codex { binary: binary.clone(), project_path: project.path.clone() };
            resolved.merger =
            PhaseSeam::Codex { binary: binary.clone(), project_path: project.path.clone() };
        },
        None => {},
    }
    match (&deps.production_gh_binary, &project.enabled_issue_source) {
        (Some(gh_binary), Some(source)) => {
            resolved.lifecycle =
            LifecycleSeam::Gh(
                GhLifecycleWriter::for_project(
                    gh_binary.clone(),
                    copy_project(project),
                    copy_issue_source(source),
                ),
            );
        },
        _ => {},
    }
    resolved
}

/// Without production binaries the seams stay as they are.
pub proof fn law_resolve_keeps_injected_seams(deps: PlanRunDeps, project: ProjectResponse)
    requires
        deps.production_codex_binary is None,
        deps.production_gh_binary is None,
    ensures
        resolved_deps(deps, project) == deps,
{
}

/// Resolving the seams of a Project a second time changes nothing.
pub proof fn law_resolve_is_idempotent(deps: PlanRunDeps, project: ProjectResponse)
    ensures
        resolved_deps(resolved_deps(deps, project), project) == resolved_deps(deps, project),
{
}

// --- Events ---

/// Where the events of a Plan Run go.
pub trait EventPublisher {
    fn plan_run_started(&self, project_id: &str, plan_run: PlanRunResponse);

    fn plan_run_completed(&self, project_id: &str, plan_run: PlanRunResponse);

    fn plan_run_phase_completed(
        &self,
        project_id: &str,
        plan_run_id: &str,
        phase_output: PhaseOutputResponse,
    );

    fn assignment_created(&self, project_id: &str, assignment: IssueAssignmentResponse);

    fn assignment_status_changed(&self, project_id: &str, assignment: IssueAssignmentResponse);

    fn record_activity(
        &self,
        project_id: &str,
        assignment_id: Option<&str>,
        kind: &str,
        detail: Option<&str>,
    );
}

/// A publisher that drops every event.
pub struct NoopEventPublisher;

impl EventPublisher for NoopEventPublisher {
    fn plan_run_started(&self, _project_id: &str, _plan_run: PlanRunResponse) {
    }

    fn plan_run_completed(&self, _project_id: &str, _plan_run: PlanRunResponse) {
    }

    fn plan_run_phase_completed(
        &self,
        _project_id: &str,
        _plan_run_id: &str,
        _phase_output: PhaseOutputResponse,
    ) {
    }

    fn assignment_created(&self, _project_id: &str, _assignment: IssueAssignmentResponse) {
    }

    fn assignment_status_changed(&self, _project_id: &str, _assignment: IssueAssignmentResponse) {
    }

    fn record_activity(
        &self,
        _project_id: &str,
        _assignment_id: Option<&str>,
        _kind: &str,
        _detail: Option<&str>,
    ) {
    }
}

// --- The inputs ---

/// The inputs of a Plan Run, fixed when it starts.
#[derive(Clone, Debug, Eq, PartialEq)]
pub struct PlanRunInputs {
    pub project: ProjectResponse,
    pub plan_run: PlanRunResponse,
    pub baseline: RefreshedBaseline,
    pub exec_config: ProjectExecutionConfigResponse,
    /// The text of the Project's instructions file.
    pub project_instructions: String,
}

impl PlanRunInputs {
    /// `instructions` are the texts of the files of [`instruction_file_names`].
    pub fn new(
        project: ProjectResponse,
        plan_run: PlanRunResponse,
        baseline: RefreshedBaseline,
        exec_config: ProjectExecutionConfigResponse,
        instructions: Vec<Option<String>>,
    ) -> (inputs: PlanRunInputs)
        ensures
            inputs.project == project,
            inputs.plan_run == plan_run,
            inputs.baseline == baseline,
            inputs.exec_config == exec_config,
            inputs.project_instructions@ == first_read(instructions@),
    {
        PlanRunInputs {
            project,
            plan_run,
            baseline,
            exec_config,
            project_instructions: load_project_instructions(instructions),
        }
    }

    /// The identifier of the Project.
    pub fn project_id(&self) -> (id: &str)
        ensures
            id@ == self.project.id.0@,
    {
        self.project.id.0.as_str()
    }
}

/// The names of the files of a Project that may hold its instructions, the one
/// that is preferred first. The name between the two fixed ones is that of the
/// agent in use, and is handed in.
pub fn instruction_file_names(agent_file: String) -> (names: Vec<String>)
    ensures
        views(names@) == seq!["AGENTS.md"@, agent_file@, "PROJECT.md"@],
{
    let mut names: Vec<String> = Vec::new();
    names.push("AGENTS.md".to_owned());
    names.push(agent_file);
    names.push("PROJECT.md".to_owned());
    assert(views(names@) =~= seq!["AGENTS.md"@, agent_file@, "PROJECT.md"@]);
    names
}

/// The first text that could be read, or nothing.
pub open spec fn first_read(texts: Seq<Option<String>>) -> Seq<char>
    decreases texts.len(),
{
    if texts.len() == 0 {
        ""@
    } else {
        match texts[0] {
            Some(text) => text@,
            None => first_read(texts.skip(1)),
        }
    }
}

/// The instructions of a Project: the first of its files that could be read.
/// `texts` are the texts of the files of [`instruction_file_names`]; `None` for one
/// that could not be read.
pub fn load_project_instructions(texts: Vec<Option<String>>) -> (text: String)
    ensures
        text@ == first_read(texts@),
{
    let mut i: usize = 0;
    assert(texts@.skip(0) =~= texts@);
    while i < texts.len()
        invariant
            i <= texts.len(),
            first_read(texts@) == first_read(texts@.skip(i as int)),
        decreases texts.len() - i,
    {
        if let Some(text) = &texts[i] {
            assert(texts@.skip(i as int)[0] == texts@[i as int]);
            return text.clone();
        }
        proof {
            assert(texts@.skip(i as int)[0] == texts@[i as int]);
            assert(texts@.skip(i as int).skip(1) =~= texts@.skip(i + 1));
        }
        i += 1;
    }
    "".to_owned()
}

// --- The batch ---

/// What implementing and reviewing one assignment gave.
#[derive(Clone, Debug, Eq, PartialEq)]
pub struct AssignmentBatchOutcome {
    pub assignment: IssueAssignmentResponse,
    /// The body of the approving review; `None` where the assignment was
    /// blocked.
    pub review_body: Option<JsonDocument>,
}

/// How a task of the batch ended.
pub enum TaskJoin {
    Panicked { error: String },
    Ended(Result<Option<JsonDocument>, CoordinatorError>),
}

/// What a task of the batch gave. A panic is reported as an internal error.
pub fn join_task(join: TaskJoin) -> (result: Result<Option<JsonDocument>, CoordinatorError>)
    ensures
        match join {
            TaskJoin::Panicked { error } => result matches Err(reported) && reported.is(
                500,
                "urn:agentic-afk:assignment-task-panic"@,
                "assignment task panicked: "@ + error@,
            ),
            TaskJoin::Ended(ended) => result == ended,
        },
{
    match join {
        TaskJoin::Panicked { error } => Err(
            CoordinatorError::new(
                500,
                "urn:agentic-afk:assignment-task-panic",
                concat("assignment task panicked: ", error.as_str()),
            ),
        ),
        TaskJoin::Ended(ended) => ended,
    }
}

/// The last position at which the identifier stands, if it does.
pub open spec fn last_position(ids: Seq<Seq<char>>, id: Seq<char>) -> Option<int>
    decreases ids.len(),
{
    if ids.len() == 0 {
        None
    } else if ids.last() == id {
        Some(ids.len() - 1)
    } else {
        last_position(ids.drop_last(), id)
    }
}

/// The completed assignments, by position, in the order in which they were
/// claimed. Of assignments with one identifier the last one completed counts, and
/// it counts once.
pub open spec fn claim_positions(claimed: Seq<Seq<char>>, completed: Seq<Seq<char>>) -> Seq<int>
    decreases claimed.len(),
{
    if claimed.len() == 0 {
        seq![]
    } else {
        let before = claim_positions(claimed.drop_last(), completed);
        match last_position(completed, claimed.last()) {
            Some(at) => if claimed.drop_last().contains(claimed.last()) {
                before
            } else {
                before.push(at)
            },
            None => before,
        }
    }
}

/// The identifiers of the Source Issues of the assignments.
pub open spec fn source_ids(assignments: Seq<IssueAssignmentResponse>) -> Seq<Seq<char>> {
    Seq::new(assignments.len(), |i: int| assignments[i].source_id@)
}

/// The identifiers of the Source Issues of the outcomes.
pub open spec fn outcome_ids(outcomes: Seq<AssignmentBatchOutcome>) -> Seq<Seq<char>> {
    Seq::new(outcomes.len(), |i: int| outcomes[i].assignment.source_id@)
}

proof fn lemma_last_position(ids: Seq<Seq<char>>, id: Seq<char>)
    ensures
        match last_position(ids, id) {
            Some(at) => 0 <= at < ids.len() && ids[at] == id && forall|k: int|
                at < k < ids.len() ==> ids[k] != id,
            None => forall|k: int| 0 <= k < ids.len() ==> ids[k] != id,
        },
    decreases ids.len(),
{
    if ids.len() > 0 && ids.last() != id {
        lemma_last_position(ids.drop_last(), id);
        assert forall|k: int| 0 <= k < ids.len() - 1 implies ids[k] == ids.drop_last()[k] by {}
    }
}

fn find_last(outcomes: &Vec<AssignmentBatchOutcome>, id: &str) -> (at: Option<usize>)
    ensures
        match last_position(outcome_ids(outcomes@), id@) {
            Some(place) => at == Some(place as usize) && 0 <= place < outcomes.len(),
            None => at is None,
        },
{
    let ghost ids = outcome_ids(outcomes@);
    let mut left: usize = outcomes.len();
    assert(ids.take(left as int) =~= ids);
    while left > 0
        invariant
            left <= outcomes.len(),
            ids == outcome_ids(outcomes@),
            last_position(ids, id@) == last_position(ids.take(left as int), id@),
        decreases left,
    {
        assert(ids.take(left as int).last() == ids[left - 1]);
        assert(ids.take(left as int).drop_last() =~= ids.take(left - 1));
        if same_text(outcomes[left - 1].assignment.source_id.as_str(), id) {
            return Some(left - 1);
        }
        left -= 1;
    }
    None
}

/// The positions of the completed assignments in the order in which they were
/// claimed.
pub fn claim_order(
    claimed: &Vec<IssueAssignmentResponse>,
    completed: &Vec<AssignmentBatchOutcome>,
) -> (order: Vec<usize>)
    ensures
        order@.map_values(|at: usize| at as int) == claim_positions(
            source_ids(claimed@),
            outcome_ids(completed@),
        ),
        forall|i: int| 0 <= i < order.len() ==> order[i] < completed.len(),
{
    let ghost ids = source_ids(claimed@);
    let ghost done = outcome_ids(completed@);
    let mut order: Vec<usize> = Vec::new();
    let mut i: usize = 0;
    while i < claimed.len()
        invariant
            i <= claimed.len(),
            ids == source_ids(claimed@),
            done == outcome_ids(completed@),
            order@.map_values(|at: usize| at as int) =~= claim_positions(
                ids.take(i as int),
                done,
            ),
            forall|k: int| 0 <= k < order.len() ==> order[k] < completed.len(),
        decreases claimed.len() - i,
    {
        let id = claimed[i].source_id.as_str();
        let mut seen: bool = false;
        let mut k: usize = 0;
        while k < i
            invariant
                k <= i <= claimed.len(),
                ids == source_ids(claimed@),
                seen == ids.take(k as int).contains(id@),
            decreases i - k,
        {
            let ghost front = ids.take(k as int);
            assert(ids.take(k + 1) =~= front.push(ids[k as int]));
            if same_text(claimed[k].source_id.as_str(), id) {
                seen = true;
                assert(ids.take(k + 1)[k as int] == id@);
            } else if seen {
                proof {
                    let at = choose|at: int| 0 <= at < front.len() && front[at] == id@;
                    assert(ids.take(k + 1)[at] == id@);
                }
            }
            k += 1;
        }
        let ghost upto = ids.take(i + 1);
        assert(upto.drop_last() =~= ids.take(i as int));
        assert(upto.last() == id@);
        let found = find_last(completed, id);
        match found {
            Some(at) => {
                if !seen {
                    order.push(at);
                }
            },
            None => {},
        }
        i += 1;
    }
    assert(ids.take(i as int) =~= ids);
    order
}

/// Where no two claimed assignments have one identifier and each of them
/// completed, every one of them is there, in the order in which they were
/// claimed, however their tasks finished.
pub proof fn law_batch_keeps_claim_order(claimed: Seq<Seq<char>>, completed: Seq<Seq<char>>)
    requires
        claimed.no_duplicates(),
        forall|id: Seq<char>| claimed.contains(id) ==> completed.contains(id),
    ensures
        claim_positions(claimed, completed).len() == claimed.len(),
        forall|i: int|
            0 <= i < claimed.len() ==> 0 <= #[trigger] claim_positions(claimed, completed)[i]
                < completed.len() && completed[claim_positions(claimed, completed)[i]]
                == claimed[i],
    decreases claimed.len(),
{
    if claimed.len() > 0 {
        let front = claimed.drop_last();
        assert forall|id: Seq<char>| front.contains(id) implies completed.contains(id) by {
            let k = choose|k: int| 0 <= k < front.len() && front[k] == id;
            assert(claimed[k] == id);
        }
        law_batch_keeps_claim_order(front, completed);
        let id = claimed.last();
        assert(claimed[claimed.len() - 1] == id);
        assert(claimed.contains(id));
        lemma_last_position(completed, id);
        if front.contains(id) {
            let k = choose|k: int| 0 <= k < front.len() && front[k] == id;
            assert(claimed[k] == id);
        }
        assert(forall|i: int| 0 <= i < front.len() ==> front[i] == claimed[i]);
    }
}

/// What the Merge Phase needs to know of each assignment: whether it was
/// reviewed, and whether it has a worktree.
pub fn merge_items(batch: &Vec<AssignmentBatchOutcome>) -> (items: Vec<MergeItem>)
    ensures
        items.len() == batch.len(),
        forall|i: int|
            0 <= i < batch.len() ==> #[trigger] items[i] == (MergeItem {
                has_review: batch[i].review_body is Some,
                has_worktree: batch[i].assignment.worktree_path@.len() > 0,
            }),
{
    let mut items: Vec<MergeItem> = Vec::new();
    let mut i: usize = 0;
    while i < batch.len()
        invariant
            i <= batch.len(),
            items.len() == i,
            forall|k: int|
                0 <= k < i ==> #[trigger] items[k] == (MergeItem {
                    has_review: batch[k].review_body is Some,
                    has_worktree: batch[k].assignment.worktree_path@.len() > 0,
                }),
        decreases batch.len() - i,
    {
        items.push(
            MergeItem {
                has_review: batch[i].review_body.is_some(),
                has_worktree: !batch[i].assignment.worktree_path.as_str().is_empty(),
            },
        );
        i += 1;
    }
    items
}

} // verus!
