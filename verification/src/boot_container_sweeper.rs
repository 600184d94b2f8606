//! Clearing away the containers that an earlier process left behind.

use vstd::prelude::*;

use crate::boot_recovery_scanner::ACTIVITY_KIND_ASSIGNMENT_BLOCKED_ON_RESTART;
use crate::command::CommandRun;
use crate::contracts::BlockReason;
use crate::problem::{PersistenceError, PersistenceErrorKind};
#[allow(unused_imports)]
use crate::sandbox::labelled_phase;
use crate::sandbox::SandboxPhase;
use crate::text::{concat, same_text, trimmed};
#[allow(unused_imports)]
use crate::text::{opt_view, trim, views};
use crate::text_parts::{split_char, split_lines};
#[allow(unused_imports)]
use crate::text_parts::{lines, split_at_char};

verus! {

/// The label by which the containers are found.
pub const SWEEP_LABEL: &'static str = "agentic-afk.plan-run-id";

/// A container that was found.
#[derive(Clone, Debug, Eq, PartialEq)]
pub struct SandboxContainer {
    pub name: String,
    pub phase: SandboxPhase,
    pub plan_run_id: String,
    pub assignment_id: Option<String>,
    pub project_id: Option<String>,
}

/// What a container is, in texts.
pub struct ContainerModel {
    pub name: Seq<char>,
    pub phase: SandboxPhase,
    pub plan_run_id: Seq<char>,
    pub assignment_id: Option<Seq<char>>,
    pub project_id: Option<Seq<char>>,
}

impl View for SandboxContainer {
    type V = ContainerModel;

    open spec fn view(&self) -> ContainerModel {
        ContainerModel {
            name: self.name@,
            phase: self.phase,
            plan_run_id: self.plan_run_id@,
            assignment_id: opt_view(self.assignment_id),
            project_id: opt_view(self.project_id),
        }
    }
}

/// What a sweep did.
#[derive(Clone, Debug, Eq, PartialEq)]
pub struct SandboxSweepReport {
    pub containers_inspected: usize,
    pub containers_killed: usize,
    pub containers_removed: usize,
    pub assignments_blocked: usize,
    pub docker_unavailable: bool,
}

impl Default for SandboxSweepReport {
    fn default() -> (report: SandboxSweepReport)
        ensures
            report == (SandboxSweepReport {
                containers_inspected: 0,
                containers_killed: 0,
                containers_removed: 0,
                assignments_blocked: 0,
                docker_unavailable: false,
            }),
    {
        SandboxSweepReport {
            containers_inspected: 0,
            containers_killed: 0,
            containers_removed: 0,
            assignments_blocked: 0,
            docker_unavailable: false,
        }
    }
}

// --- Docker ---

/// Lists and disposes of containers.
pub trait DockerContainerOps {
    /// The containers that carry the label; an error where the daemon cannot be
    /// reached.
    fn list_with_label(&self, label_key: &str) -> (containers: Result<
        Vec<SandboxContainer>,
        String,
    >);

    fn kill(&self, container_name: &str) -> (killed: Result<(), String>);

    fn rm_force(&self, container_name: &str) -> (removed: Result<(), String>);
}

/// A column of a line; none where it is missing or empty.
pub open spec fn filled_column(columns: Seq<Seq<char>>, at: int) -> Option<Seq<char>> {
    if at < columns.len() && columns[at].len() > 0 {
        Some(columns[at])
    } else {
        None
    }
}

/// The container of a line of the listing. A line with too few columns, or with
/// an unknown phase, has none.
pub open spec fn listed_container(line: Seq<char>) -> Option<ContainerModel> {
    let columns = split_at_char(line, '\t');
    if columns.len() < 3 {
        None
    } else {
        match labelled_phase(columns[2]) {
            Some(phase) => Some(
                ContainerModel {
                    name: columns[0],
                    phase,
                    plan_run_id: columns[1],
                    assignment_id: filled_column(columns, 3),
                    project_id: filled_column(columns, 4),
                },
            ),
            None => None,
        }
    }
}

/// The containers of the lines of a listing, in order.
pub open spec fn listed_containers(text_lines: Seq<Seq<char>>) -> Seq<ContainerModel>
    decreases text_lines.len(),
{
    if text_lines.len() == 0 {
        seq![]
    } else {
        let before = listed_containers(text_lines.drop_last());
        match listed_container(text_lines.last()) {
            Some(container) => before.push(container),
            None => before,
        }
    }
}

/// What the containers are, in texts.
pub open spec fn container_models(containers: Seq<SandboxContainer>) -> Seq<ContainerModel> {
    containers.map_values(|container: SandboxContainer| container@)
}

fn filled(columns: &Vec<String>, at: usize) -> (column: Option<String>)
    ensures
        opt_view(column) == filled_column(views(columns@), at as int),
{
    if at < columns.len() && !columns[at].as_str().is_empty() {
        Some(columns[at].clone())
    } else {
        None
    }
}

/// The container of a line of the listing.
pub fn parse_container_line(line: &str) -> (container: Option<SandboxContainer>)
    ensures
        match container {
            Some(container) => listed_container(line@) == Some(container@),
            None => listed_container(line@) is None,
        },
{
    let columns = split_char(line, '\t');
    if columns.len() < 3 {
        return None;
    }
    assert(views(columns@)[0] == columns@[0]@);
    assert(views(columns@)[1] == columns@[1]@);
    assert(views(columns@)[2] == columns@[2]@);
    let phase = match SandboxPhase::from_label(columns[2].as_str()) {
        Some(phase) => phase,
        None => return None,
    };
    Some(
        SandboxContainer {
            name: columns[0].clone(),
            phase,
            plan_run_id: columns[1].clone(),
            assignment_id: filled(&columns, 3),
            project_id: filled(&columns, 4),
        },
    )
}

/// The containers of a listing.
pub fn parse_container_list(stdout: &str) -> (containers: Vec<SandboxContainer>)
    ensures
        container_models(containers@) == listed_containers(lines(stdout@)),
{
    let text_lines = split_lines(stdout);
    let ghost all = views(text_lines@);
    let mut containers: Vec<SandboxContainer> = Vec::new();
    let mut i: usize = 0;
    while i < text_lines.len()
        invariant
            i <= text_lines.len(),
            all == views(text_lines@),
            container_models(containers@) =~= listed_containers(all.take(i as int)),
        decreases text_lines.len() - i,
    {
        assert(all.take(i + 1).drop_last() =~= all.take(i as int));
        assert(all.take(i + 1).last() == text_lines@[i as int]@);
        let ghost before = containers@;
        match parse_container_line(text_lines[i].as_str()) {
            Some(container) => {
                containers.push(container);
                assert(container_models(containers@) =~= container_models(before).push(
                    container@,
                ));
            },
            None => {},
        }
        i += 1;
    }
    assert(all.take(i as int) =~= all);
    containers
}

/// The disposer that runs `docker`.
#[derive(Clone, Debug, Eq, PartialEq)]
pub struct CliDockerOps {
    pub docker_binary: String,
}

/// What disposing of a container gave. `verb` is the command.
pub open spec fn is_disposal_result(
    verb: Seq<char>,
    container_name: Seq<char>,
    run: CommandRun,
    result: Result<(), String>,
) -> bool {
    match run {
        CommandRun::NotStarted { error } => result matches Err(text) && text@ == verb
            + " failed to spawn: "@ + error@,
        CommandRun::Ended { success, status, stdout, stderr } => if success {
            result is Ok
        } else {
            result matches Err(text) && text@ == verb + " "@ + container_name + ": "@ + trim(
                stderr@,
            )
        },
    }
}

fn disposal_result(verb: &str, container_name: &str, run: &CommandRun) -> (result: Result<
    (),
    String,
>)
    ensures
        is_disposal_result(verb@, container_name@, *run, result),
{
    match run {
        CommandRun::NotStarted { error } => {
            let mut text = concat(verb, " failed to spawn: ");
            text.append(error.as_str());
            Err(text)
        },
        CommandRun::Ended { success, status: _, stdout: _, stderr } => {
            if *success {
                return Ok(());
            }
            let mut text = concat(verb, " ");
            text.append(container_name);
            text.append(": ");
            text.append(trimmed(stderr.as_str()).as_str());
            Err(text)
        },
    }
}

impl CliDockerOps {
    pub fn new(docker_binary: String) -> (ops: CliDockerOps)
        ensures
            ops.docker_binary == docker_binary,
    {
        CliDockerOps { docker_binary }
    }

    /// The arguments of `docker` that list the containers with the label.
    pub fn list_args(&self, label_key: &str) -> (args: Vec<String>)
        ensures
            views(args@) == seq![
                "ps"@,
                "-a"@,
                "--filter"@,
                "label="@ + label_key@,
                "--format"@,
                "{{.Names}}\\t{{.Label \"agentic-afk.plan-run-id\"}}\\t{{.Label \"agentic-afk.phase\"}}\\t{{.Label \"agentic-afk.issue-assignment-id\"}}\\t{{.Label \"agentic-afk.project-id\"}}"@,
            ],
    {
        let mut args: Vec<String> = Vec::new();
        args.push("ps".to_owned());
        args.push("-a".to_owned());
        args.push("--filter".to_owned());
        args.push(concat("label=", label_key));
        args.push("--format".to_owned());
        args.push(
            "{{.Names}}\\t{{.Label \"agentic-afk.plan-run-id\"}}\\t{{.Label \"agentic-afk.phase\"}}\\t{{.Label \"agentic-afk.issue-assignment-id\"}}\\t{{.Label \"agentic-afk.project-id\"}}".to_owned(),
        );
        assert(views(args@) =~= seq![
            "ps"@,
            "-a"@,
            "--filter"@,
            "label="@ + label_key@,
            "--format"@,
            "{{.Names}}\\t{{.Label \"agentic-afk.plan-run-id\"}}\\t{{.Label \"agentic-afk.phase\"}}\\t{{.Label \"agentic-afk.issue-assignment-id\"}}\\t{{.Label \"agentic-afk.project-id\"}}"@,
        ]);
        args
    }

    /// What the listing gave.
    pub fn list_result(&self, run: &CommandRun) -> (containers: Result<
        Vec<SandboxContainer>,
        String,
    >)
        ensures
            match run {
                CommandRun::NotStarted { error } => containers matches Err(text) && text@
                    == "docker ps failed to spawn: "@ + error@,
                CommandRun::Ended { success, status, stdout, stderr } => if *success {
                    containers matches Ok(found) && container_models(found@) == listed_containers(
                        lines(stdout@),
                    )
                } else {
                    containers matches Err(text) && text@ == "docker ps exited with "@ + status@
                        + ": "@ + stderr@
                },
            },
    {
        match run {
            CommandRun::NotStarted { error } => Err(
                concat("docker ps failed to spawn: ", error.as_str()),
            ),
            CommandRun::Ended { success, status, stdout, stderr } => {
                if *success {
                    Ok(parse_container_list(stdout.as_str()))
                } else {
                    let mut text = concat("docker ps exited with ", status.as_str());
                    text.append(": ");
                    text.append(stderr.as_str());
                    Err(text)
                }
            },
        }
    }

    /// The arguments of `docker` that kill a container.
    pub fn kill_args(&self, container_name: &str) -> (args: Vec<String>)
        ensures
            views(args@) == seq!["kill"@, container_name@],
    {
        let mut args: Vec<String> = Vec::new();
        args.push("kill".to_owned());
        args.push(container_name.to_owned());
        assert(views(args@) =~= seq!["kill"@, container_name@]);
        args
    }

    /// What killing a container gave.
    pub fn kill_result(&self, container_name: &str, run: &CommandRun) -> (result: Result<
        (),
        String,
    >)
        ensures
            is_disposal_result("docker kill"@, container_name@, *run, result),
    {
        disposal_result("docker kill", container_name, run)
    }

    /// The arguments of `docker` that remove a container.
    pub fn rm_args(&self, container_name: &str) -> (args: Vec<String>)
        ensures
            views(args@) == seq!["rm"@, "-f"@, container_name@],
    {
        let mut args: Vec<String> = Vec::new();
        args.push("rm".to_owned());
        args.push("-f".to_owned());
        args.push(container_name.to_owned());
        assert(views(args@) =~= seq!["rm"@, "-f"@, container_name@]);
        args
    }

    /// What removing a container gave.
    pub fn rm_result(&self, container_name: &str, run: &CommandRun) -> (result: Result<
        (),
        String,
    >)
        ensures
            is_disposal_result("docker rm -f"@, container_name@, *run, result),
    {
        disposal_result("docker rm -f", container_name, run)
    }
}

// --- The sweep ---

/// Where the sweep stands with its container.
#[derive(Clone, Copy, Debug, Eq, PartialEq, Structural)]
pub enum SweepStage {
    /// The assignment that owns the container is read.
    OwnerAssignment,
    /// The Plan Run that owns the container is read.
    OwnerPlanRun,
    /// The container of a settled owner is removed.
    RemovingSettled,
    Killing,
    Removing,
    /// The assignment is read again before it is blocked.
    Rereading,
    Blocking,
    /// The block is published.
    Publishing,
    Finished,
    Failed,
}

/// What the sweep is told.
#[derive(Clone, Debug, Eq, PartialEq)]
pub enum SweepEvent {
    /// The status of the assignment.
    AssignmentRead { status: String },
    AssignmentUnread { error: PersistenceError },
    /// The state of the Plan Run.
    PlanRunRead { state: String },
    PlanRunUnread { error: PersistenceError },
    /// The container was killed, or not.
    Killed { done: bool },
    /// The container was removed, or not.
    Removed { done: bool },
    Blocked,
    NotBlocked { error: PersistenceError },
    Published,
}

/// What the sweep asks for. Each speaks of the container that the sweep stands
/// at.
#[derive(Clone, Debug, Eq, PartialEq)]
pub enum SweepAction {
    ReadAssignment,
    ReadPlanRun,
    Kill,
    Remove,
    Block { reason: BlockReason, detail: String },
    /// Publish the changed assignment, and an activity.
    Publish { kind: String, detail: String },
    Finish,
    Fail { error: PersistenceError },
}

/// A sweep over the containers.
#[derive(Clone, Debug, Eq, PartialEq)]
pub struct Sweep {
    pub containers: Vec<SandboxContainer>,
    /// The container that the sweep stands at.
    pub at: usize,
    pub stage: SweepStage,
    pub report: SandboxSweepReport,
}

/// The container has been killed, or could not be.
pub open spec fn past_killing(stage: SweepStage) -> bool {
    stage == SweepStage::Removing || past_removing(stage)
}

/// The container has been removed, or could not be.
pub open spec fn past_removing(stage: SweepStage) -> bool {
    stage == SweepStage::Rereading || stage == SweepStage::Blocking || stage
        == SweepStage::Publishing
}

impl Sweep {
    /// The sweep stands at a container while it runs, and has not counted more
    /// than the containers that it has dealt with.
    pub open spec fn well_formed(&self) -> bool {
        &&& self.at <= self.containers.len()
        &&& match self.stage {
            SweepStage::Finished => true,
            SweepStage::Failed => true,
            _ => {
                &&& self.at < self.containers.len()
                &&& self.report.containers_killed <= self.at + (if past_killing(self.stage) {
                    1int
                } else {
                    0
                })
                &&& self.report.containers_removed <= self.at + (if past_removing(self.stage) {
                    1int
                } else {
                    0
                })
                &&& self.report.assignments_blocked <= self.at
                &&& (self.stage == SweepStage::OwnerAssignment || past_removing(self.stage))
                    ==> self.containers[self.at as int].assignment_id is Some
            },
        }
    }
}

/// The sweep takes up the container at `at`, or ends behind the last one.
pub open spec fn takes_up(after: Sweep, at: int, action: SweepAction) -> bool {
    after.at == at && if at < after.containers.len() {
        if after.containers[at].assignment_id is Some {
            after.stage == SweepStage::OwnerAssignment && action is ReadAssignment
        } else {
            after.stage == SweepStage::OwnerPlanRun && action is ReadPlanRun
        }
    } else {
        after.stage == SweepStage::Finished && action is Finish
    }
}

/// The sweep goes on with its container.
pub open spec fn goes_to(before: Sweep, after: Sweep, stage: SweepStage) -> bool {
    after.at == before.at && after.stage == stage
}

/// The sweep ends with the error.
pub open spec fn fails_with(
    before: Sweep,
    after: Sweep,
    action: SweepAction,
    error: PersistenceError,
) -> bool {
    &&& goes_to(before, after, SweepStage::Failed)
    &&& after.report == before.report
    &&& action == (SweepAction::Fail { error })
}

/// The assignment needs no block: it is merged, blocked, or waits for its push.
pub open spec fn is_settled(status: Seq<char>) -> bool {
    status == "merged"@ || status == "blocked"@ || status == "merge_staged"@
}

/// The owner of the container has nothing more to do with it, or it has one.
pub open spec fn disposes(before: Sweep, after: Sweep, action: SweepAction, settled: bool) -> bool {
    &&& after.report == before.report
    &&& if settled {
        goes_to(before, after, SweepStage::RemovingSettled) && action is Remove
    } else {
        goes_to(before, after, SweepStage::Killing) && action is Kill
    }
}

/// The detail of the block of an assignment.
pub open spec fn block_detail(container: SandboxContainer) -> Seq<char> {
    "orchestrator restarted; Codex Sandbox container "@ + container.name@
        + " was killed during "@ + container.phase.label() + " phase"@
}

/// The detail of the activity for a blocked assignment.
pub open spec fn activity_detail(container: SandboxContainer) -> Seq<char> {
    "blocked on orchestrator restart during "@ + container.phase.label()
        + " phase (container="@ + container.name@ + ")"@
}

/// What the sweep awaits.
pub open spec fn awaits(stage: SweepStage, event: SweepEvent) -> bool {
    match stage {
        SweepStage::OwnerAssignment | SweepStage::Rereading => event is AssignmentRead
            || event is AssignmentUnread,
        SweepStage::OwnerPlanRun => event is PlanRunRead || event is PlanRunUnread,
        SweepStage::RemovingSettled | SweepStage::Removing => event is Removed,
        SweepStage::Killing => event is Killed,
        SweepStage::Blocking => event is Blocked || event is NotBlocked,
        SweepStage::Publishing => event is Published,
        SweepStage::Finished | SweepStage::Failed => false,
    }
}

/// How the sweep goes on. The container of a settled owner is only removed. Any
/// other one is killed and removed, and the assignment that owned it is blocked,
/// unless it has come to rest meanwhile. That Docker fails does not end the
/// sweep; that the database fails does.
pub open spec fn is_step(
    before: Sweep,
    event: SweepEvent,
    after: Sweep,
    action: SweepAction,
) -> bool {
    let report = before.report;
    let container = before.containers[before.at as int];
    &&& after.containers == before.containers
    &&& match (before.stage, event) {
        (SweepStage::OwnerAssignment, SweepEvent::AssignmentRead { status }) => disposes(
            before,
            after,
            action,
            status@ == "merged"@,
        ),
        (SweepStage::OwnerAssignment, SweepEvent::AssignmentUnread { error }) => if error.kind
            == PersistenceErrorKind::NotFound || error.kind
            == PersistenceErrorKind::AssignmentNotFound {
            disposes(before, after, action, true)
        } else {
            fails_with(before, after, action, error)
        },
        (SweepStage::OwnerPlanRun, SweepEvent::PlanRunRead { state }) => disposes(
            before,
            after,
            action,
            state@ != "running"@,
        ),
        (SweepStage::OwnerPlanRun, SweepEvent::PlanRunUnread { error }) => if error.kind
            == PersistenceErrorKind::NotFound {
            disposes(before, after, action, true)
        } else {
            fails_with(before, after, action, error)
        },
        (SweepStage::RemovingSettled, SweepEvent::Removed { done }) => {
            &&& after.report == (SandboxSweepReport {
                containers_removed: (report.containers_removed + (if done {
                    1int
                } else {
                    0
                })) as usize,
                ..report
            })
            &&& takes_up(after, before.at + 1, action)
        },
        (SweepStage::Killing, SweepEvent::Killed { done }) => {
            &&& after.report == (SandboxSweepReport {
                containers_killed: (report.containers_killed + (if done {
                    1int
                } else {
                    0
                })) as usize,
                ..report
            })
            &&& goes_to(before, after, SweepStage::Removing)
            &&& action is Remove
        },
        (SweepStage::Removing, SweepEvent::Removed { done }) => {
            &&& after.report == (SandboxSweepReport {
                containers_removed: (report.containers_removed + (if done {
                    1int
                } else {
                    0
                })) as usize,
                ..report
            })
            &&& if container.assignment_id is Some {
                goes_to(before, after, SweepStage::Rereading) && action is ReadAssignment
            } else {
                takes_up(after, before.at + 1, action)
            }
        },
        (SweepStage::Rereading, SweepEvent::AssignmentRead { status }) => {
            &&& after.report == report
            &&& if is_settled(status@) {
                takes_up(after, before.at + 1, action)
            } else {
                &&& goes_to(before, after, SweepStage::Blocking)
                &&& action matches SweepAction::Block { reason, detail } && reason
                    == BlockReason::OrchestratorRestart && detail@ == block_detail(container)
            }
        },
        (SweepStage::Rereading, SweepEvent::AssignmentUnread { error }) => fails_with(
            before,
            after,
            action,
            error,
        ),
        (SweepStage::Blocking, SweepEvent::Blocked) => {
            &&& after.report == report
            &&& goes_to(before, after, SweepStage::Publishing)
            &&& action matches SweepAction::Publish { kind, detail } && kind@
                == ACTIVITY_KIND_ASSIGNMENT_BLOCKED_ON_RESTART@ && detail@ == activity_detail(
                container,
            )
        },
        (SweepStage::Blocking, SweepEvent::NotBlocked { error }) => fails_with(
            before,
            after,
            action,
            error,
        ),
        (SweepStage::Publishing, SweepEvent::Published) => {
            &&& after.report == (SandboxSweepReport {
                assignments_blocked: (report.assignments_blocked + 1) as usize,
                ..report
            })
            &&& takes_up(after, before.at + 1, action)
        },
        _ => false,
    }
}

fn take_up(
    containers: Vec<SandboxContainer>,
    at: usize,
    report: SandboxSweepReport,
) -> (next: (Sweep, SweepAction))
    requires
        at <= containers.len(),
        report.containers_killed <= at,
        report.containers_removed <= at,
        report.assignments_blocked <= at,
    ensures
        next.0.containers == containers,
        next.0.report == report,
        takes_up(next.0, at as int, next.1),
        next.0.well_formed(),
{
    if at >= containers.len() {
        return (
            Sweep { containers, at, stage: SweepStage::Finished, report },
            SweepAction::Finish,
        );
    }
    let owned = containers[at].assignment_id.is_some();
    if owned {
        (
            Sweep { containers, at, stage: SweepStage::OwnerAssignment, report },
            SweepAction::ReadAssignment,
        )
    } else {
        (
            Sweep { containers, at, stage: SweepStage::OwnerPlanRun, report },
            SweepAction::ReadPlanRun,
        )
    }
}

/// Begin the sweep with what was listed. Where the daemon cannot be reached,
/// nothing is swept and nothing is written.
pub fn start(listed: Result<Vec<SandboxContainer>, String>) -> (first: (Sweep, SweepAction))
    ensures
        first.0.well_formed(),
        match listed {
            Ok(containers) => {
                &&& first.0.containers == containers
                &&& takes_up(first.0, 0, first.1)
                &&& first.0.report == (SandboxSweepReport {
                    containers_inspected: containers.len(),
                    containers_killed: 0,
                    containers_removed: 0,
                    assignments_blocked: 0,
                    docker_unavailable: false,
                })
            },
            Err(_) => {
                &&& first.0.stage == SweepStage::Finished
                &&& first.1 is Finish
                &&& first.0.report == (SandboxSweepReport {
                    containers_inspected: 0,
                    containers_killed: 0,
                    containers_removed: 0,
                    assignments_blocked: 0,
                    docker_unavailable: true,
                })
            },
        },
{
    let mut report = <SandboxSweepReport as Default>::default();
    match listed {
        Ok(containers) => {
            report.containers_inspected = containers.len();
            take_up(containers, 0, report)
        },
        Err(_) => {
            report.docker_unavailable = true;
            (
                Sweep { containers: Vec::new(), at: 0, stage: SweepStage::Finished, report },
                SweepAction::Finish,
            )
        },
    }
}

/// Whether the sweep awaits the event.
pub fn is_awaited(stage: SweepStage, event: &SweepEvent) -> (yes: bool)
    ensures
        yes == awaits(stage, *event),
{
    match stage {
        SweepStage::OwnerAssignment | SweepStage::Rereading => match event {
            SweepEvent::AssignmentRead { .. } | SweepEvent::AssignmentUnread { .. } => true,
            _ => false,
        },
        SweepStage::OwnerPlanRun => match event {
            SweepEvent::PlanRunRead { .. } | SweepEvent::PlanRunUnread { .. } => true,
            _ => false,
        },
        SweepStage::RemovingSettled | SweepStage::Removing => match event {
            SweepEvent::Removed { .. } => true,
            _ => false,
        },
        SweepStage::Killing => match event {
            SweepEvent::Killed { .. } => true,
            _ => false,
        },
        SweepStage::Blocking => match event {
            SweepEvent::Blocked | SweepEvent::NotBlocked { .. } => true,
            _ => false,
        },
        SweepStage::Publishing => match event {
            SweepEvent::Published => true,
            _ => false,
        },
        SweepStage::Finished | SweepStage::Failed => false,
    }
}

fn dispose(sweep: Sweep, settled: bool) -> (next: (Sweep, SweepAction))
    ensures
        next.0.containers == sweep.containers,
        disposes(sweep, next.0, next.1, settled),
{
    let mut sweep = sweep;
    if settled {
        sweep.stage = SweepStage::RemovingSettled;
        (sweep, SweepAction::Remove)
    } else {
        sweep.stage = SweepStage::Killing;
        (sweep, SweepAction::Kill)
    }
}

fn fail(sweep: Sweep, error: PersistenceError) -> (next: (Sweep, SweepAction))
    ensures
        next.0.containers == sweep.containers,
        fails_with(sweep, next.0, next.1, error),
{
    let mut sweep = sweep;
    sweep.stage = SweepStage::Failed;
    (sweep, SweepAction::Fail { error })
}

fn block_detail_of(container: &SandboxContainer) -> (detail: String)
    ensures
        detail@ == block_detail(*container),
{
    let mut detail = concat(
        "orchestrator restarted; Codex Sandbox container ",
        container.name.as_str(),
    );
    detail.append(" was killed during ");
    detail.append(container.phase.as_label());
    detail.append(" phase");
    detail
}

fn activity_detail_of(container: &SandboxContainer) -> (detail: String)
    ensures
        detail@ == activity_detail(*container),
{
    let mut detail = concat(
        "blocked on orchestrator restart during ",
        container.phase.as_label(),
    );
    detail.append(" phase (container=");
    detail.append(container.name.as_str());
    detail.append(")");
    detail
}

fn settled_status(status: &str) -> (yes: bool)
    ensures
        yes == is_settled(status@),
{
    same_text(status, "merged") || same_text(status, "blocked") || same_text(
        status,
        "merge_staged",
    )
}

/// Go on with the sweep.
pub fn step(sweep: Sweep, event: SweepEvent) -> (next: (Sweep, SweepAction))
    requires
        sweep.well_formed(),
        awaits(sweep.stage, event),
    ensures
        next.0.well_formed(),
        is_step(sweep, event, next.0, next.1),
{
    let at = sweep.at;
    match event {
        SweepEvent::AssignmentRead { status } => {
            if let SweepStage::OwnerAssignment = sweep.stage {
                dispose(sweep, same_text(status.as_str(), "merged"))
            } else if settled_status(status.as_str()) {
                take_up(sweep.containers, at + 1, sweep.report)
            } else {
                let detail = block_detail_of(&sweep.containers[at]);
                let mut sweep = sweep;
                sweep.stage = SweepStage::Blocking;
                (sweep, SweepAction::Block { reason: BlockReason::OrchestratorRestart, detail })
            }
        },
        SweepEvent::AssignmentUnread { error } => {
            let missing = match error.kind {
                PersistenceErrorKind::NotFound | PersistenceErrorKind::AssignmentNotFound => true,
                _ => false,
            };
            match sweep.stage {
                SweepStage::OwnerAssignment => {
                    if missing {
                        dispose(sweep, true)
                    } else {
                        fail(sweep, error)
                    }
                },
                _ => fail(sweep, error),
            }
        },
        SweepEvent::PlanRunRead { state } => dispose(
            sweep,
            !same_text(state.as_str(), "running"),
        ),
        SweepEvent::PlanRunUnread { error } => match error.kind {
            PersistenceErrorKind::NotFound => dispose(sweep, true),
            _ => fail(sweep, error),
        },
        SweepEvent::Killed { done } => {
            let mut sweep = sweep;
            if done {
                sweep.report.containers_killed += 1;
            }
            sweep.stage = SweepStage::Removing;
            (sweep, SweepAction::Remove)
        },
        SweepEvent::Removed { done } => {
            let mut sweep = sweep;
            if done {
                sweep.report.containers_removed += 1;
            }
            let owned = sweep.containers[at].assignment_id.is_some();
            match sweep.stage {
                SweepStage::Removing => {
                    if owned {
                        sweep.stage = SweepStage::Rereading;
                        (sweep, SweepAction::ReadAssignment)
                    } else {
                        take_up(sweep.containers, at + 1, sweep.report)
                    }
                },
                _ => take_up(sweep.containers, at + 1, sweep.report),
            }
        },
        SweepEvent::Blocked => {
            let detail = activity_detail_of(&sweep.containers[at]);
            let mut sweep = sweep;
            sweep.stage = SweepStage::Publishing;
            (
                sweep,
                SweepAction::Publish {
                    kind: ACTIVITY_KIND_ASSIGNMENT_BLOCKED_ON_RESTART.to_owned(),
                    detail,
                },
            )
        },
        SweepEvent::NotBlocked { error } => fail(sweep, error),
        SweepEvent::Published => {
            let mut sweep = sweep;
            sweep.report.assignments_blocked += 1;
            take_up(sweep.containers, at + 1, sweep.report)
        },
    }
}

// --- Laws ---

/// The container of a settled owner is removed, and neither killed nor is
/// anything blocked for it.
pub proof fn law_settled_owner_is_left_alone(
    before: Sweep,
    event: SweepEvent,
    after: Sweep,
    action: SweepAction,
)
    requires
        before.well_formed(),
        is_step(before, event, after, action),
        before.stage == SweepStage::RemovingSettled || (before.stage
            == SweepStage::OwnerAssignment && (event matches SweepEvent::AssignmentRead { status }
            && status@ == "merged"@)),
    ensures
        !(action is Kill),
        !(action is Block),
        after.report.containers_killed == before.report.containers_killed,
        after.report.assignments_blocked == before.report.assignments_blocked,
{
}

/// An assignment that is blocked already is not blocked again: a second sweep
/// over the same container counts no block.
pub proof fn law_no_double_block(
    before: Sweep,
    event: SweepEvent,
    after: Sweep,
    action: SweepAction,
)
    requires
        before.well_formed(),
        is_step(before, event, after, action),
        before.stage == SweepStage::Rereading,
        event matches SweepEvent::AssignmentRead { status } && is_settled(status@),
    ensures
        !(action is Block),
        after.report == before.report,
        after.at == before.at + 1,
{
}

/// A sweep from its start: the states that it went through, the result that ended each
/// state but the last, and the action that each state began with.
pub open spec fn is_run(
    runs: Seq<Sweep>,
    events: Seq<SweepEvent>,
    actions: Seq<SweepAction>,
) -> bool {
    &&& runs.len() == events.len() + 1
    &&& actions.len() == events.len() + 1
    &&& takes_up(runs[0], 0, actions[0])
    &&& forall|k: int| 0 <= k < runs.len() ==> (#[trigger] runs[k]).well_formed()
    &&& forall|k: int|
        0 <= k < events.len() ==> is_step(
            runs[k],
            #[trigger] events[k],
            runs[k + 1],
            actions[k + 1],
        )
}

/// An assignment is blocked only after its container was to be killed and
/// removed, and after it was read as one that has not come to rest.
pub proof fn law_block_follows_reread(
    runs: Seq<Sweep>,
    events: Seq<SweepEvent>,
    actions: Seq<SweepAction>,
    k: int,
)
    requires
        is_run(runs, events, actions),
        0 <= k < actions.len(),
        actions[k] is Block,
    ensures
        k >= 3,
        actions[k - 3] is Kill,
        actions[k - 2] is Remove,
        actions[k - 1] is ReadAssignment,
        events[k - 1] matches SweepEvent::AssignmentRead { status } && !is_settled(status@),
        runs[k - 3].at == runs[k].at,
        runs[k - 2].at == runs[k].at,
        runs[k - 1].at == runs[k].at,
{
    assert(k > 0);
    assert(is_step(runs[k - 1], events[k - 1], runs[k], actions[k]));
    assert(k > 1);
    assert(is_step(runs[k - 2], events[k - 2], runs[k - 1], actions[k - 1]));
    assert(k > 2);
    assert(is_step(runs[k - 3], events[k - 3], runs[k - 2], actions[k - 2]));
    assert(k > 3);
    assert(is_step(runs[k - 4], events[k - 4], runs[k - 3], actions[k - 3]));
}

/// When a sweep has come past a container, it has asked for its removal.
proof fn lemma_passed_containers_are_removed(
    runs: Seq<Sweep>,
    events: Seq<SweepEvent>,
    actions: Seq<SweepAction>,
    k: int,
    container: int,
) -> (m: int)
    requires
        is_run(runs, events, actions),
        0 <= k < runs.len(),
        0 <= container < runs[k].at || (container == runs[k].at && past_removing(runs[k].stage)),
    ensures
        0 <= m < k,
        actions[m] is Remove,
        events[m] is Removed,
        runs[m].at == container,
    decreases k,
{
    assert(k > 0);
    assert(is_step(runs[k - 1], events[k - 1], runs[k], actions[k]));
    let before = runs[k - 1];
    if container < before.at || (container == before.at && past_removing(before.stage)) {
        lemma_passed_containers_are_removed(runs, events, actions, k - 1, container)
    } else {
        assert(before.stage == SweepStage::Removing || before.stage == SweepStage::RemovingSettled);
        assert(k - 1 > 0);
        assert(is_step(runs[k - 2], events[k - 2], runs[k - 1], actions[k - 1]));
        k - 1
    }
}

/// A sweep that finishes has asked for the removal of each container.
pub proof fn law_each_container_is_removed(
    runs: Seq<Sweep>,
    events: Seq<SweepEvent>,
    actions: Seq<SweepAction>,
    container: int,
)
    requires
        is_run(runs, events, actions),
        actions.last() is Finish,
        0 <= container < runs.last().containers@.len(),
    ensures
        exists|m: int|
            0 <= m < events.len() && actions[m] is Remove && (#[trigger] events[m]) is Removed
                && runs[m].at == container,
{
    let n = events.len() as int;
    if n > 0 {
        assert(is_step(runs[n - 1], events[n - 1], runs[n], actions[n]));
    }
    let m = lemma_passed_containers_are_removed(runs, events, actions, n, container);
    assert(events[m] is Removed);
}

/// That Docker cannot kill or remove a container does not end the sweep.
pub proof fn law_docker_failure_is_not_fatal(
    before: Sweep,
    event: SweepEvent,
    after: Sweep,
    action: SweepAction,
)
    requires
        before.well_formed(),
        is_step(before, event, after, action),
        event is Killed || event is Removed,
    ensures
        !(action is Fail),
        after.stage != SweepStage::Failed,
{
}

/// How many stages the sweep has before it in its container.
pub open spec fn stages_left(stage: SweepStage) -> int {
    match stage {
        SweepStage::OwnerAssignment => 6,
        SweepStage::OwnerPlanRun => 6,
        SweepStage::Killing => 5,
        SweepStage::Removing => 4,
        SweepStage::Rereading => 3,
        SweepStage::Blocking => 2,
        SweepStage::Publishing => 1,
        SweepStage::RemovingSettled => 1,
        SweepStage::Finished => 0,
        SweepStage::Failed => 0,
    }
}

/// How many steps the sweep has before it at most.
pub open spec fn steps_left(sweep: Sweep) -> int {
    7 * (sweep.containers.len() - sweep.at) + stages_left(sweep.stage)
}

/// Each step brings the sweep nearer to its end.
pub proof fn law_sweep_ends(before: Sweep, event: SweepEvent, after: Sweep, action: SweepAction)
    requires
        before.well_formed(),
        after.well_formed(),
        is_step(before, event, after, action),
    ensures
        0 <= steps_left(after) < steps_left(before),
{
}

} // verus!
