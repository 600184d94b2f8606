//! The Git commands behind the seams of a Plan Run.

use vstd::prelude::*;

use crate::command::{describe_exit, CommandRun};
#[allow(unused_imports)]
use crate::command::exit_text;
use crate::plan_run::{PlanRunPhaseError, RefreshedBaseline};
use crate::push_attempt::is_non_fast_forward_stderr;
#[allow(unused_imports)]
use crate::push_attempt::reports_divergence;
use crate::text::{concat, trimmed};
#[allow(unused_imports)]
use crate::text::{trim, views};

verus! {

// --- Refreshing the Integration Branch ---

/// The commands of a refresh, in their order.
#[derive(Clone, Copy, Debug, Eq, PartialEq, Structural)]
pub enum RefreshStep {
    Fetch,
    Checkout,
    Pull,
    Head,
}

/// What follows a command of a refresh.
#[derive(Clone, Debug, Eq, PartialEq)]
pub enum RefreshNext {
    Run(RefreshStep),
    Done(RefreshedBaseline),
}

impl RefreshStep {
    /// The arguments of `git`.
    pub open spec fn argv(self, branch: Seq<char>) -> Seq<Seq<char>> {
        match self {
            RefreshStep::Fetch => seq!["fetch"@, "origin"@, branch],
            RefreshStep::Checkout => seq!["checkout"@, branch],
            RefreshStep::Pull => seq!["pull"@, "--ff-only"@, "origin"@, branch],
            RefreshStep::Head => seq!["rev-parse"@, "HEAD"@],
        }
    }

    /// How a report of a failed command begins.
    pub open spec fn label(self, branch: Seq<char>) -> Seq<char> {
        match self {
            RefreshStep::Fetch => "git fetch origin "@ + branch,
            RefreshStep::Checkout => "git checkout "@ + branch,
            RefreshStep::Pull => "git pull --ff-only origin "@ + branch,
            RefreshStep::Head => "git rev-parse HEAD"@,
        }
    }

    /// How a report of a command that was not started begins.
    pub open spec fn start_label(self) -> Seq<char> {
        match self {
            RefreshStep::Fetch => "git fetch failed: "@,
            RefreshStep::Checkout => "git checkout failed: "@,
            RefreshStep::Pull => "git pull failed: "@,
            RefreshStep::Head => "git rev-parse failed: "@,
        }
    }

    /// The step's place in the order of the commands.
    pub open spec fn place(self) -> int {
        match self {
            RefreshStep::Fetch => 0,
            RefreshStep::Checkout => 1,
            RefreshStep::Pull => 2,
            RefreshStep::Head => 3,
        }
    }

    /// The arguments of `git`.
    pub fn args(self, branch: &str) -> (args: Vec<String>)
        ensures
            views(args@) == self.argv(branch@),
    {
        let mut args: Vec<String> = Vec::new();
        match self {
            RefreshStep::Fetch => {
                args.push("fetch".to_owned());
                args.push("origin".to_owned());
                args.push(branch.to_owned());
            },
            RefreshStep::Checkout => {
                args.push("checkout".to_owned());
                args.push(branch.to_owned());
            },
            RefreshStep::Pull => {
                args.push("pull".to_owned());
                args.push("--ff-only".to_owned());
                args.push("origin".to_owned());
                args.push(branch.to_owned());
            },
            RefreshStep::Head => {
                args.push("rev-parse".to_owned());
                args.push("HEAD".to_owned());
            },
        }
        assert(views(args@) =~= self.argv(branch@));
        args
    }

    fn label_text(self, branch: &str) -> (text: String)
        ensures
            text@ == self.label(branch@),
    {
        match self {
            RefreshStep::Fetch => concat("git fetch origin ", branch),
            RefreshStep::Checkout => concat("git checkout ", branch),
            RefreshStep::Pull => concat("git pull --ff-only origin ", branch),
            RefreshStep::Head => "git rev-parse HEAD".to_owned(),
        }
    }

    fn start_label_text(self) -> (text: &'static str)
        ensures
            text@ == self.start_label(),
    {
        match self {
            RefreshStep::Fetch => "git fetch failed: ",
            RefreshStep::Checkout => "git checkout failed: ",
            RefreshStep::Pull => "git pull failed: ",
            RefreshStep::Head => "git rev-parse failed: ",
        }
    }
}

/// What follows a command of a refresh: the next command, and after the last one
/// the baseline that it printed. A command that fails ends the refresh.
pub open spec fn is_refresh_step(
    step: RefreshStep,
    branch: Seq<char>,
    run: CommandRun,
    next: Result<RefreshNext, PlanRunPhaseError>,
) -> bool {
    match run {
        CommandRun::NotStarted { error } => next matches Err(PlanRunPhaseError::Refresh(text))
            && text@ == step.start_label() + error@,
        CommandRun::Ended { success, status, stdout, stderr } => if !success {
            next matches Err(PlanRunPhaseError::Refresh(text)) && text@ == step.label(branch)
                + ": "@ + exit_text(status@, stderr@)
        } else {
            match step {
                RefreshStep::Fetch => next == Ok::<RefreshNext, PlanRunPhaseError>(
                    RefreshNext::Run(RefreshStep::Checkout),
                ),
                RefreshStep::Checkout => next == Ok::<RefreshNext, PlanRunPhaseError>(
                    RefreshNext::Run(RefreshStep::Pull),
                ),
                RefreshStep::Pull => next == Ok::<RefreshNext, PlanRunPhaseError>(
                    RefreshNext::Run(RefreshStep::Head),
                ),
                RefreshStep::Head => next matches Ok(RefreshNext::Done(baseline))
                    && baseline.commit_sha@ == trim(stdout@),
            }
        },
    }
}

/// The refresh of the Integration Branch: fetch it, check it out, pull it without
/// merging, and read the commit that it stands at.
pub struct GitIntegrationBranchRefresher;

impl GitIntegrationBranchRefresher {
    /// The first command.
    pub fn first(&self) -> (step: RefreshStep)
        ensures
            step == RefreshStep::Fetch,
    {
        RefreshStep::Fetch
    }

    /// What follows a command.
    pub fn advance(&self, step: RefreshStep, branch: &str, run: &CommandRun) -> (next: Result<
        RefreshNext,
        PlanRunPhaseError,
    >)
        ensures
            is_refresh_step(step, branch@, *run, next),
    {
        match run {
            CommandRun::NotStarted { error } => Err(
                PlanRunPhaseError::Refresh(concat(step.start_label_text(), error.as_str())),
            ),
            CommandRun::Ended { success, status, stdout, stderr } => {
                if !*success {
                    let mut text = step.label_text(branch);
                    text.append(": ");
                    text.append(describe_exit(status.as_str(), stderr.as_str()).as_str());
                    return Err(PlanRunPhaseError::Refresh(text));
                }
                match step {
                    RefreshStep::Fetch => Ok(RefreshNext::Run(RefreshStep::Checkout)),
                    RefreshStep::Checkout => Ok(RefreshNext::Run(RefreshStep::Pull)),
                    RefreshStep::Pull => Ok(RefreshNext::Run(RefreshStep::Head)),
                    RefreshStep::Head => Ok(
                        RefreshNext::Done(
                            RefreshedBaseline { commit_sha: trimmed(stdout.as_str()) },
                        ),
                    ),
                }
            },
        }
    }
}

/// A refresh goes on only after a command that succeeded, and each command runs
/// once, in order: the next one is the one that follows, and a baseline comes
/// only from the last.
pub proof fn law_refresh_in_order(
    step: RefreshStep,
    branch: Seq<char>,
    run: CommandRun,
    next: Result<RefreshNext, PlanRunPhaseError>,
)
    requires
        is_refresh_step(step, branch, run, next),
    ensures
        next is Ok <==> (run matches CommandRun::Ended { success, .. } && success),
        next matches Ok(RefreshNext::Run(following)) ==> following.place() == step.place() + 1,
        next matches Ok(RefreshNext::Done(_)) ==> step == RefreshStep::Head,
{
}

// --- Pushing the Integration Branch ---

/// The push of the Integration Branch.
pub struct GitIntegrationBranchPusher;

/// What a push gave.
pub open spec fn is_push_result(
    branch: Seq<char>,
    run: CommandRun,
    result: Result<(), PlanRunPhaseError>,
) -> bool {
    match run {
        CommandRun::NotStarted { error } => result matches Err(
            PlanRunPhaseError::IntegrationPush(text),
        ) && text@ == "git push failed to spawn: "@ + error@,
        CommandRun::Ended { success, status, stdout, stderr } => if success {
            result is Ok
        } else if reports_divergence(stderr@) {
            result matches Err(PlanRunPhaseError::NonFastForward { stderr: said }) && said
                == stderr
        } else {
            result matches Err(PlanRunPhaseError::IntegrationPush(text)) && text@
                == "git push origin "@ + branch + ": "@ + exit_text(status@, stderr@)
        },
    }
}

impl GitIntegrationBranchPusher {
    /// The arguments of `git`.
    pub fn args(&self, branch: &str) -> (args: Vec<String>)
        ensures
            views(args@) == seq!["push"@, "origin"@, branch@],
    {
        let mut args: Vec<String> = Vec::new();
        args.push("push".to_owned());
        args.push("origin".to_owned());
        args.push(branch.to_owned());
        assert(views(args@) =~= seq!["push"@, "origin"@, branch@]);
        args
    }

    /// What the push gave: a rejection because the branch has diverged keeps what
    /// the remote said.
    pub fn result(&self, branch: &str, run: &CommandRun) -> (result: Result<
        (),
        PlanRunPhaseError,
    >)
        ensures
            is_push_result(branch@, *run, result),
    {
        match run {
            CommandRun::NotStarted { error } => Err(
                PlanRunPhaseError::IntegrationPush(
                    concat("git push failed to spawn: ", error.as_str()),
                ),
            ),
            CommandRun::Ended { success, status, stdout: _, stderr } => {
                if *success {
                    Ok(())
                } else if is_non_fast_forward_stderr(stderr.as_str()) {
                    Err(PlanRunPhaseError::NonFastForward { stderr: stderr.clone() })
                } else {
                    let mut text = concat("git push origin ", branch);
                    text.append(": ");
                    text.append(describe_exit(status.as_str(), stderr.as_str()).as_str());
                    Err(PlanRunPhaseError::IntegrationPush(text))
                }
            },
        }
    }
}

// --- Provisioning and cleaning Assignment Worktrees ---

/// The provisioner of Assignment Worktrees.
#[derive(Clone, Debug, Eq, PartialEq)]
pub struct WorktrunkAssignmentWorktreeProvisioner {
    pub worktrunk_binary_path: String,
}

impl WorktrunkAssignmentWorktreeProvisioner {
    pub fn new(worktrunk_binary_path: String) -> (provisioner:
        WorktrunkAssignmentWorktreeProvisioner)
        ensures
            provisioner.worktrunk_binary_path == worktrunk_binary_path,
    {
        WorktrunkAssignmentWorktreeProvisioner { worktrunk_binary_path }
    }

    /// What provisioning gave.
    pub fn result(&self, created: Result<String, String>) -> (path: Result<
        String,
        PlanRunPhaseError,
    >)
        ensures
            match created {
                Ok(worktree) => path == Ok::<String, PlanRunPhaseError>(worktree),
                Err(text) => path == Err::<String, PlanRunPhaseError>(
                    PlanRunPhaseError::WorktreeProvision(text),
                ),
            },
    {
        match created {
            Ok(worktree) => Ok(worktree),
            Err(text) => Err(PlanRunPhaseError::WorktreeProvision(text)),
        }
    }
}

/// The commands of a cleanup, in their order.
#[derive(Clone, Copy, Debug, Eq, PartialEq, Structural)]
pub enum CleanupStep {
    RemoveWorktree,
    DeleteBranch,
}

impl CleanupStep {
    /// The arguments of `git`.
    pub open spec fn argv(self, worktree: Seq<char>, branch: Seq<char>) -> Seq<Seq<char>> {
        match self {
            CleanupStep::RemoveWorktree => seq!["worktree"@, "remove"@, "--force"@, worktree],
            CleanupStep::DeleteBranch => seq!["branch"@, "-D"@, branch],
        }
    }

    /// The arguments of `git`.
    pub fn args(self, worktree: &str, branch: &str) -> (args: Vec<String>)
        ensures
            views(args@) == self.argv(worktree@, branch@),
    {
        let mut args: Vec<String> = Vec::new();
        match self {
            CleanupStep::RemoveWorktree => {
                args.push("worktree".to_owned());
                args.push("remove".to_owned());
                args.push("--force".to_owned());
                args.push(worktree.to_owned());
            },
            CleanupStep::DeleteBranch => {
                args.push("branch".to_owned());
                args.push("-D".to_owned());
                args.push(branch.to_owned());
            },
        }
        assert(views(args@) =~= self.argv(worktree@, branch@));
        args
    }
}

/// What follows a command of a cleanup: after the removal of the worktree the
/// deletion of its branch, and then nothing. A command that fails ends the
/// cleanup.
pub open spec fn is_cleanup_step(
    step: CleanupStep,
    worktree: Seq<char>,
    branch: Seq<char>,
    run: CommandRun,
    next: Result<Option<CleanupStep>, PlanRunPhaseError>,
) -> bool {
    match (step, run) {
        (CleanupStep::RemoveWorktree, CommandRun::NotStarted { error }) => next matches Err(
            PlanRunPhaseError::Cleanup(text),
        ) && text@ == "git worktree remove failed to spawn: "@ + error@,
        (CleanupStep::DeleteBranch, CommandRun::NotStarted { error }) => next matches Err(
            PlanRunPhaseError::Cleanup(text),
        ) && text@ == "git branch -D failed to spawn: "@ + error@,
        (
            CleanupStep::RemoveWorktree,
            CommandRun::Ended { success, status, stdout, stderr },
        ) => if success {
            next == Ok::<Option<CleanupStep>, PlanRunPhaseError>(Some(CleanupStep::DeleteBranch))
        } else {
            next matches Err(PlanRunPhaseError::Cleanup(text)) && text@
                == "git worktree remove --force "@ + worktree + ": "@ + exit_text(
                status@,
                stderr@,
            )
        },
        (
            CleanupStep::DeleteBranch,
            CommandRun::Ended { success, status, stdout, stderr },
        ) => if success {
            next == Ok::<Option<CleanupStep>, PlanRunPhaseError>(None)
        } else {
            next matches Err(PlanRunPhaseError::Cleanup(text)) && text@ == "git branch -D "@
                + branch + ": "@ + exit_text(status@, stderr@)
        },
    }
}

/// The cleanup of an Assignment Worktree and its branch.
pub struct GitAssignmentWorktreeCleaner;

impl GitAssignmentWorktreeCleaner {
    /// The first command.
    pub fn first(&self) -> (step: CleanupStep)
        ensures
            step == CleanupStep::RemoveWorktree,
    {
        CleanupStep::RemoveWorktree
    }

    /// What follows a command.
    pub fn advance(
        &self,
        step: CleanupStep,
        worktree: &str,
        branch: &str,
        run: &CommandRun,
    ) -> (next: Result<Option<CleanupStep>, PlanRunPhaseError>)
        ensures
            is_cleanup_step(step, worktree@, branch@, *run, next),
    {
        match run {
            CommandRun::NotStarted { error } => {
                let begin = match step {
                    CleanupStep::RemoveWorktree => "git worktree remove failed to spawn: ",
                    CleanupStep::DeleteBranch => "git branch -D failed to spawn: ",
                };
                Err(PlanRunPhaseError::Cleanup(concat(begin, error.as_str())))
            },
            CommandRun::Ended { success, status, stdout: _, stderr } => {
                if *success {
                    return match step {
                        CleanupStep::RemoveWorktree => Ok(Some(CleanupStep::DeleteBranch)),
                        CleanupStep::DeleteBranch => Ok(None),
                    };
                }
                let mut text = match step {
                    CleanupStep::RemoveWorktree => concat(
                        "git worktree remove --force ",
                        worktree,
                    ),
                    CleanupStep::DeleteBranch => concat("git branch -D ", branch),
                };
                text.append(": ");
                text.append(describe_exit(status.as_str(), stderr.as_str()).as_str());
                Err(PlanRunPhaseError::Cleanup(text))
            },
        }
    }
}

} // verus!
