//! The Git Summary of a Project.

use vstd::prelude::*;

use crate::command::CommandRun;
use crate::contracts::GitSummary;
use crate::text::{strip_prefix_or_keep, trimmed};
#[allow(unused_imports)]
use crate::text::{opt_view, trim, views, without_prefix};

verus! {

/// What was read of a repository.
#[derive(Clone, Debug, Eq, PartialEq)]
pub struct RepositoryFacts {
    /// The full name of the branch that is checked out; `None` where the head is
    /// detached.
    pub referent: Option<String>,
    /// The commit that is checked out; `None` before the first one.
    pub head: Option<String>,
    /// Whether something has changed; `None` where this could not be found out.
    pub dirty: Option<bool>,
}

/// The summary of a repository: the branch by its short name, and a repository of
/// which nothing is known as unchanged.
pub fn summarize_project_path(facts: RepositoryFacts, default_branch: Option<String>) -> (summary:
    GitSummary)
    ensures
        opt_view(summary.branch) == (match facts.referent {
            Some(name) => Some(without_prefix(name@, "refs/heads/"@)),
            None => None,
        }),
        summary.head == facts.head,
        summary.dirty == (facts.dirty == Some(true)),
        summary.default_branch == default_branch,
{
    let branch = match facts.referent {
        Some(name) => Some(strip_prefix_or_keep(name.as_str(), "refs/heads/")),
        None => None,
    };
    let dirty = match facts.dirty {
        Some(dirty) => dirty,
        None => false,
    };
    GitSummary { branch, head: facts.head, dirty, default_branch }
}

/// The arguments with which `git` names the default branch.
pub fn default_branch_args() -> (args: Vec<String>)
    ensures
        views(args@) == seq![
            "symbolic-ref"@,
            "--quiet"@,
            "--short"@,
            "refs/remotes/origin/HEAD"@,
        ],
{
    let mut args: Vec<String> = Vec::new();
    args.push("symbolic-ref".to_owned());
    args.push("--quiet".to_owned());
    args.push("--short".to_owned());
    args.push("refs/remotes/origin/HEAD".to_owned());
    assert(views(args@) =~= seq![
        "symbolic-ref"@,
        "--quiet"@,
        "--short"@,
        "refs/remotes/origin/HEAD"@,
    ]);
    args
}

/// The default branch that `git` printed.
pub open spec fn printed_branch(run: CommandRun) -> Option<Seq<char>> {
    match run {
        CommandRun::Ended { success, status, stdout, stderr } => if success && trim(stdout@).len()
            > 0 {
            Some(without_prefix(trim(stdout@), "origin/"@))
        } else {
            None
        },
        CommandRun::NotStarted { error } => None,
    }
}

/// The default branch that `git` printed: none where it has none.
pub fn detect_default_branch(run: &CommandRun) -> (branch: Option<String>)
    ensures
        opt_view(branch) == printed_branch(*run),
{
    match run {
        CommandRun::Ended { success, status: _, stdout, stderr: _ } => {
            let text = trimmed(stdout.as_str());
            if *success && !text.as_str().is_empty() {
                Some(strip_prefix_or_keep(text.as_str(), "origin/"))
            } else {
                None
            }
        },
        CommandRun::NotStarted { .. } => None,
    }
}

} // verus!
