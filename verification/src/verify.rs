//! The checks of a Change Proposal, and whether it was merged.

use vstd::prelude::*;

use crate::command::{CommandRun, RawRun};
use crate::json::{parse_json_bytes, parse_json_list, Json};
#[allow(unused_imports)]
use crate::json::{
    item_models, lemma_item_models, parsed_json_bytes, parsed_json_list, text_field, JsonModel,
};
use crate::numerals::{decimal_u64, parse_u64};
#[allow(unused_imports)]
use crate::numerals::{decimal, read_u64};
use crate::text::{concat, same_text, to_lower, to_upper, trimmed};
#[allow(unused_imports)]
use crate::text::{ascii_lower, ascii_upper, trim, views};
use crate::text_parts::{join_strings, split_char};
#[allow(unused_imports)]
use crate::text_parts::{join, split_at_char};

verus! {

/// What the required checks of a Change Proposal say.
#[derive(Clone, Debug, Eq, PartialEq)]
pub enum CheckState {
    /// A check is still running.
    Pending,
    /// All checks passed.
    Passing,
    /// A check failed; which ones.
    Failing(String),
}

// --- The number of a pull request ---

/// The last of the texts that is a number.
pub open spec fn last_number(texts: Seq<Seq<char>>) -> Option<u64>
    decreases texts.len(),
{
    if texts.len() == 0 {
        None
    } else {
        match read_u64(texts.last()) {
            Some(number) => Some(number),
            None => last_number(texts.drop_last()),
        }
    }
}

/// The number of a pull request: the last part of its URL that is a number.
pub fn parse_pull_request_number(url: &str) -> (number: Option<u64>)
    ensures
        number == last_number(split_at_char(url@, '/')),
{
    let segments = split_char(url, '/');
    let ghost all = views(segments@);
    let mut left: usize = segments.len();
    assert(all.take(left as int) =~= all);
    while left > 0
        invariant
            left <= segments.len(),
            all == views(segments@),
            all == split_at_char(url@, '/'),
            last_number(all) == last_number(all.take(left as int)),
        decreases left,
    {
        assert(all.take(left as int).last() == segments@[left - 1]@);
        assert(all.take(left as int).drop_last() =~= all.take(left - 1));
        let number = parse_u64(segments[left - 1].as_str());
        if number.is_some() {
            return number;
        }
        left -= 1;
    }
    None
}

// --- The required checks ---

/// The text of a field; `fallback` where it is missing or no text.
pub open spec fn text_or(check: JsonModel, key: Seq<char>, fallback: Seq<char>) -> Seq<char> {
    match text_field(check, key) {
        Some(text) => text,
        None => fallback,
    }
}

/// The check is still running.
pub open spec fn is_pending(check: JsonModel) -> bool {
    let state = ascii_upper(text_or(check, "state"@, ""@));
    let bucket = ascii_lower(text_or(check, "bucket"@, ""@));
    state == "IN_PROGRESS"@ || state == "QUEUED"@ || state == "PENDING"@ || state == "WAITING"@
        || bucket == "pending"@
}

/// The check has passed.
pub open spec fn is_passed(check: JsonModel) -> bool {
    let state = ascii_upper(text_or(check, "state"@, ""@));
    let bucket = ascii_lower(text_or(check, "bucket"@, ""@));
    state == "SUCCESS"@ || state == "NEUTRAL"@ || state == "SKIPPED"@ || bucket == "pass"@
}

/// The check has failed.
pub open spec fn is_failed(check: JsonModel) -> bool {
    !is_pending(check) && !is_passed(check)
}

/// The names of the checks that have failed, in order.
pub open spec fn failed_names(checks: Seq<JsonModel>) -> Seq<Seq<char>>
    decreases checks.len(),
{
    if checks.len() == 0 {
        seq![]
    } else if is_failed(checks.last()) {
        failed_names(checks.drop_last()).push(text_or(checks.last(), "name"@, "required check"@))
    } else {
        failed_names(checks.drop_last())
    }
}

/// Some check is still running.
pub open spec fn any_pending(checks: Seq<JsonModel>) -> bool {
    exists|i: int| 0 <= i < checks.len() && is_pending(#[trigger] checks[i])
}

/// What the checks say. A failure counts for more than a check that runs, and
/// without any check nothing has passed.
pub open spec fn is_check_state(state: CheckState, checks: Seq<JsonModel>) -> bool {
    if failed_names(checks).len() > 0 {
        state matches CheckState::Failing(detail) && detail@ == "required GitHub check failing: "@
            + join(failed_names(checks), ", "@)
    } else if any_pending(checks) || checks.len() == 0 {
        state is Pending
    } else {
        state is Passing
    }
}

fn text_of_field(check: &Json, key: &str, fallback: &str) -> (text: String)
    ensures
        text@ == text_or(check@, key@, fallback@),
{
    match check.text_at(key) {
        Some(text) => text.clone(),
        None => fallback.to_owned(),
    }
}

fn check_pending(check: &Json) -> (yes: bool)
    ensures
        yes == is_pending(check@),
{
    let state = to_upper(text_of_field(check, "state", "").as_str());
    let bucket = to_lower(text_of_field(check, "bucket", "").as_str());
    same_text(state.as_str(), "IN_PROGRESS") || same_text(state.as_str(), "QUEUED") || same_text(
        state.as_str(),
        "PENDING",
    ) || same_text(state.as_str(), "WAITING") || same_text(bucket.as_str(), "pending")
}

fn check_passed(check: &Json) -> (yes: bool)
    ensures
        yes == is_passed(check@),
{
    let state = to_upper(text_of_field(check, "state", "").as_str());
    let bucket = to_lower(text_of_field(check, "bucket", "").as_str());
    same_text(state.as_str(), "SUCCESS") || same_text(state.as_str(), "NEUTRAL") || same_text(
        state.as_str(),
        "SKIPPED",
    ) || same_text(bucket.as_str(), "pass")
}

/// What the checks say.
pub fn classify_checks(checks: &Vec<Json>) -> (state: CheckState)
    ensures
        is_check_state(state, item_models(checks@)),
{
    let ghost all = item_models(checks@);
    proof {
        lemma_item_models(checks@);
    }
    let mut pending: bool = false;
    let mut names: Vec<String> = Vec::new();
    let mut i: usize = 0;
    assert(views(names@) =~= failed_names(all.take(0)));
    while i < checks.len()
        invariant
            i <= checks.len(),
            all.len() == checks.len(),
            forall|k: int| 0 <= k < checks.len() ==> #[trigger] all[k] == checks@[k]@,
            pending == exists|k: int| 0 <= k < i && is_pending(#[trigger] all[k]),
            views(names@) == failed_names(all.take(i as int)),
        decreases checks.len() - i,
    {
        assert(all[i as int] == checks@[i as int]@);
        assert(all.take(i + 1).drop_last() =~= all.take(i as int));
        assert(all.take(i + 1).last() == all[i as int]);
        let check = &checks[i];
        if check_pending(check) {
            pending = true;
        } else if !check_passed(check) {
            let ghost before = names@;
            names.push(text_of_field(check, "name", "required check"));
            assert(views(names@) =~= views(before).push(names@.last()@));
        }
        i += 1;
    }
    assert(all.take(i as int) =~= all);
    if names.len() > 0 {
        let listed = join_strings(&names, ", ");
        return CheckState::Failing(concat("required GitHub check failing: ", listed.as_str()));
    }
    if pending || checks.len() == 0 {
        CheckState::Pending
    } else {
        CheckState::Passing
    }
}

/// The arguments with which `gh` lists the required checks.
pub fn checks_args(locator: &str, pull_request_number: u64) -> (args: Vec<String>)
    ensures
        views(args@) == seq![
            "pr"@,
            "checks"@,
            decimal(pull_request_number as nat),
            "--repo"@,
            locator@,
            "--json"@,
            "name,state,bucket"@,
        ],
{
    let mut args: Vec<String> = Vec::new();
    args.push("pr".to_owned());
    args.push("checks".to_owned());
    args.push(decimal_u64(pull_request_number));
    args.push("--repo".to_owned());
    args.push(locator.to_owned());
    args.push("--json".to_owned());
    args.push("name,state,bucket".to_owned());
    assert(views(args@) =~= seq![
        "pr"@,
        "checks"@,
        decimal(pull_request_number as nat),
        "--repo"@,
        locator@,
        "--json"@,
        "name,state,bucket"@,
    ]);
    args
}

/// The checks that `gh` printed: none where it printed nothing.
pub open spec fn printed_checks(stdout: Seq<char>) -> Result<Seq<JsonModel>, Seq<char>> {
    if trim(stdout).len() == 0 {
        Ok(seq![])
    } else {
        parsed_json_list(trim(stdout))
    }
}

/// What `gh` says of the required checks. It fails where a check runs or has
/// failed, so that its failure counts only where it printed no check.
pub open spec fn is_inspection(run: CommandRun, result: Result<CheckState, String>) -> bool {
    match run {
        CommandRun::NotStarted { error } => result matches Err(text) && text@
            == "failed to run gh pr checks: "@ + error@,
        CommandRun::Ended { success, status, stdout, stderr } => match printed_checks(stdout@) {
            Err(message) => result matches Err(text) && text@
                == "failed to parse gh pr checks output: "@ + message,
            Ok(checks) => if checks.len() == 0 && !success {
                result matches Err(text) && text@ == "gh pr checks exited with "@ + status@
                    + ": "@ + trim(stderr@)
            } else {
                result matches Ok(state) && is_check_state(state, checks)
            },
        },
    }
}

/// What `gh` says of the required checks.
pub fn inspect_required_checks(run: &CommandRun) -> (result: Result<CheckState, String>)
    ensures
        is_inspection(*run, result),
{
    match run {
        CommandRun::NotStarted { error } => Err(
            concat("failed to run gh pr checks: ", error.as_str()),
        ),
        CommandRun::Ended { success, status, stdout, stderr } => {
            let printed = trimmed(stdout.as_str());
            let checks: Vec<Json> = if printed.as_str().is_empty() {
                Vec::new()
            } else {
                match parse_json_list(printed.as_str()) {
                    Ok(checks) => checks,
                    Err(message) => {
                        return Err(
                            concat("failed to parse gh pr checks output: ", message.as_str()),
                        );
                    },
                }
            };
            proof {
                lemma_item_models(checks@);
                assert(printed_checks(stdout@) == Ok::<Seq<JsonModel>, Seq<char>>(
                    item_models(checks@),
                ));
            }
            if checks.len() == 0 && !*success {
                let mut text = concat("gh pr checks exited with ", status.as_str());
                text.append(": ");
                text.append(trimmed(stderr.as_str()).as_str());
                return Err(text);
            }
            Ok(classify_checks(&checks))
        },
    }
}

// --- Merged pull requests ---

/// The arguments with which `gh` shows whether the pull request was merged.
pub fn merged_args(locator: &str, pull_request_number: u64) -> (args: Vec<String>)
    ensures
        views(args@) == seq![
            "pr"@,
            "view"@,
            decimal(pull_request_number as nat),
            "--repo"@,
            locator@,
            "--json"@,
            "state,mergedAt,mergeCommit"@,
        ],
{
    let mut args: Vec<String> = Vec::new();
    args.push("pr".to_owned());
    args.push("view".to_owned());
    args.push(decimal_u64(pull_request_number));
    args.push("--repo".to_owned());
    args.push(locator.to_owned());
    args.push("--json".to_owned());
    args.push("state,mergedAt,mergeCommit".to_owned());
    assert(views(args@) =~= seq![
        "pr"@,
        "view"@,
        decimal(pull_request_number as nat),
        "--repo"@,
        locator@,
        "--json"@,
        "state,mergedAt,mergeCommit"@,
    ]);
    args
}

/// The pull request is in the state `MERGED`, or has a time at which it was
/// merged.
pub open spec fn says_merged(view: JsonModel) -> bool {
    ascii_upper(text_or(view, "state"@, ""@)) == "MERGED"@ || text_or(
        view,
        "mergedAt"@,
        ""@,
    ).len() > 0
}

/// Whether the pull request was merged.
pub fn merged_in(view: &Json) -> (yes: bool)
    ensures
        yes == says_merged(view@),
{
    let state = to_upper(text_of_field(view, "state", "").as_str());
    same_text(state.as_str(), "MERGED") || !text_of_field(view, "mergedAt", "").as_str().is_empty()
}

/// What `gh` says of the pull request.
pub fn is_pull_request_merged(run: &RawRun) -> (result: Result<bool, String>)
    ensures
        match run {
            RawRun::NotStarted { error } => result matches Err(text) && text@
                == "failed to run gh pr view: "@ + error@,
            RawRun::Ended { success, status, stdout, stderr } => if !*success {
                result matches Err(text) && text@ == "gh pr view exited with "@ + status@ + ": "@
                    + trim(stderr@)
            } else {
                match parsed_json_bytes(stdout@) {
                    Err(message) => result matches Err(text) && text@
                        == "failed to parse gh pr view output: "@ + message,
                    Ok(view) => result == Ok::<bool, String>(says_merged(view)),
                }
            },
        },
{
    match run {
        RawRun::NotStarted { error } => Err(concat("failed to run gh pr view: ", error.as_str())),
        RawRun::Ended { success, status, stdout, stderr } => {
            if !*success {
                let mut text = concat("gh pr view exited with ", status.as_str());
                text.append(": ");
                text.append(trimmed(stderr.as_str()).as_str());
                return Err(text);
            }
            match parse_json_bytes(stdout) {
                Err(message) => Err(
                    concat("failed to parse gh pr view output: ", message.as_str()),
                ),
                Ok(view) => Ok(merged_in(&view)),
            }
        },
    }
}

// --- Cleaning up ---

/// The commands that clean up behind an accepted assignment, in their order.
#[derive(Clone, Copy, Debug, Eq, PartialEq, Structural)]
pub enum AcceptedCleanup {
    /// Worktrunk removes the worktree of the branch.
    RemoveWorktree,
    /// Git deletes the branch.
    DeleteBranch,
}

impl AcceptedCleanup {
    /// The program, given that of Worktrunk.
    pub fn program(self, worktrunk_binary: &str) -> (program: String)
        ensures
            program@ == (match self {
                AcceptedCleanup::RemoveWorktree => worktrunk_binary@,
                AcceptedCleanup::DeleteBranch => "git"@,
            }),
    {
        match self {
            AcceptedCleanup::RemoveWorktree => worktrunk_binary.to_owned(),
            AcceptedCleanup::DeleteBranch => "git".to_owned(),
        }
    }

    /// The arguments of the program.
    pub fn args(self, branch: &str) -> (args: Vec<String>)
        ensures
            views(args@) == (match self {
                AcceptedCleanup::RemoveWorktree => seq!["remove"@, branch@, "--yes"@],
                AcceptedCleanup::DeleteBranch => seq!["branch"@, "-D"@, branch@],
            }),
    {
        let mut args: Vec<String> = Vec::new();
        match self {
            AcceptedCleanup::RemoveWorktree => {
                args.push("remove".to_owned());
                args.push(branch.to_owned());
                args.push("--yes".to_owned());
                assert(views(args@) =~= seq!["remove"@, branch@, "--yes"@]);
            },
            AcceptedCleanup::DeleteBranch => {
                args.push("branch".to_owned());
                args.push("-D".to_owned());
                args.push(branch.to_owned());
                assert(views(args@) =~= seq!["branch"@, "-D"@, branch@]);
            },
        }
        args
    }
}

/// What follows a command of the clean-up. The branch is deleted only where the
/// worktree was removed; that it cannot be deleted does not count.
pub fn cleanup_assignment_worktree(step: AcceptedCleanup, run: &CommandRun) -> (next: Result<
    Option<AcceptedCleanup>,
    String,
>)
    ensures
        match step {
            AcceptedCleanup::RemoveWorktree => match run {
                CommandRun::NotStarted { error } => next matches Err(text) && text@
                    == "failed to remove Assignment Worktree: "@ + error@,
                CommandRun::Ended { success, status, stdout, stderr } => if *success {
                    next == Ok::<Option<AcceptedCleanup>, String>(
                        Some(AcceptedCleanup::DeleteBranch),
                    )
                } else {
                    next matches Err(text) && text@ == "Worktrunk worktree removal exited with "@
                        + status@ + ": "@ + trim(stderr@)
                },
            },
            AcceptedCleanup::DeleteBranch => next == Ok::<Option<AcceptedCleanup>, String>(None),
        },
{
    match step {
        AcceptedCleanup::RemoveWorktree => match run {
            CommandRun::NotStarted { error } => Err(
                concat("failed to remove Assignment Worktree: ", error.as_str()),
            ),
            CommandRun::Ended { success, status, stdout: _, stderr } => {
                if *success {
                    return Ok(Some(AcceptedCleanup::DeleteBranch));
                }
                let mut text = concat("Worktrunk worktree removal exited with ", status.as_str());
                text.append(": ");
                text.append(trimmed(stderr.as_str()).as_str());
                Err(text)
            },
        },
        AcceptedCleanup::DeleteBranch => Ok(None),
    }
}

// --- Laws ---

proof fn lemma_failed_names(checks: Seq<JsonModel>)
    ensures
        failed_names(checks).len() > 0 <==> exists|i: int|
            0 <= i < checks.len() && is_failed(#[trigger] checks[i]),
    decreases checks.len(),
{
    if checks.len() > 0 {
        let front = checks.drop_last();
        lemma_failed_names(front);
        if is_failed(checks.last()) {
            assert(is_failed(checks[checks.len() - 1]));
        } else {
            if failed_names(front).len() > 0 {
                let i = choose|i: int| 0 <= i < front.len() && is_failed(#[trigger] front[i]);
                assert(is_failed(checks[i]));
            }
            if exists|i: int| 0 <= i < checks.len() && is_failed(#[trigger] checks[i]) {
                let i = choose|i: int| 0 <= i < checks.len() && is_failed(#[trigger] checks[i]);
                assert(front[i] == checks[i]);
            }
        }
    }
}

/// The checks pass if and only if there is one, and each of them has passed and
/// runs no more. One that failed is reported whatever the others say.
pub proof fn law_passing_needs_every_check(state: CheckState, checks: Seq<JsonModel>)
    requires
        is_check_state(state, checks),
    ensures
        state is Passing <==> checks.len() > 0 && forall|i: int|
            0 <= i < checks.len() ==> is_passed(#[trigger] checks[i]) && !is_pending(checks[i]),
        state is Failing <==> exists|i: int|
            0 <= i < checks.len() && is_failed(#[trigger] checks[i]),
{
    lemma_failed_names(checks);
    if state is Passing {
        assert forall|i: int| 0 <= i < checks.len() implies is_passed(#[trigger] checks[i])
            && !is_pending(checks[i]) by {
            assert(!is_failed(checks[i]));
        }
    }
}

} // verus!
