//! Removing the worktree of an abandoned assignment.

use vstd::prelude::*;

use crate::command::{command_failure, CommandRun};
#[allow(unused_imports)]
use crate::command::labelled_failure;
use crate::text::concat;
#[allow(unused_imports)]
use crate::text::views;

verus! {

/// The arguments with which Worktrunk removes a worktree and its branch.
pub fn removal_args(branch: &str) -> (args: Vec<String>)
    ensures
        views(args@) == seq!["remove"@, "--branch"@, branch@, "--yes"@, "--force"@],
{
    let mut args: Vec<String> = Vec::new();
    args.push("remove".to_owned());
    args.push("--branch".to_owned());
    args.push(branch.to_owned());
    args.push("--yes".to_owned());
    args.push("--force".to_owned());
    assert(views(args@) =~= seq!["remove"@, "--branch"@, branch@, "--yes"@, "--force"@]);
    args
}

/// What the removal gave.
pub fn remove_assignment_worktree(run: &CommandRun) -> (result: Result<(), String>)
    ensures
        match run {
            CommandRun::NotStarted { error } => result matches Err(text) && text@
                == "failed to start Worktrunk cleanup: "@ + error@,
            CommandRun::Ended { success, status, stdout, stderr } => if *success {
                result is Ok
            } else {
                result matches Err(text) && text@ == labelled_failure(
                    "Worktrunk assignment worktree removal"@,
                    status@,
                    stderr@,
                )
            },
        },
{
    match run {
        CommandRun::NotStarted { error } => Err(
            concat("failed to start Worktrunk cleanup: ", error.as_str()),
        ),
        CommandRun::Ended { success, status, stdout: _, stderr } => {
            if *success {
                Ok(())
            } else {
                Err(
                    command_failure(
                        "Worktrunk assignment worktree removal",
                        status.as_str(),
                        stderr.as_str(),
                    ),
                )
            }
        },
    }
}

} // verus!
