//! Assignment Worktrees, and the programs that work in them.

use vstd::prelude::*;

use crate::command::{command_failure, CommandRun, RawRun};
#[allow(unused_imports)]
use crate::command::labelled_failure;
use crate::contracts::AssignmentTerminalOutcome;
use crate::json::{parse_json_bytes, Json};
#[allow(unused_imports)]
use crate::json::{
    field_models, field_of, item_models, lemma_field_models, lemma_item_models, parsed_json_bytes,
    JsonModel,
};
use crate::text::{chars_of, concat, contains, matches_here, string_of};
#[allow(unused_imports)]
use crate::text::{contains_text, matches_at, opt_view, views};
use crate::text_parts::split_words;
#[allow(unused_imports)]
use crate::text_parts::words;

verus! {

/// A run of Codex that has ended.
#[derive(Clone, Debug, Eq, PartialEq)]
pub struct CodexExecution {
    pub process_id: u32,
    pub process_identity: Option<String>,
    pub terminal_outcome: AssignmentTerminalOutcome,
}

// --- Programs ---

/// What asking a program for its version gave: whether it can be run.
pub fn preflight_binary(name: &str, run: &CommandRun) -> (result: Result<(), String>)
    ensures
        match run {
            CommandRun::NotStarted { error } => result matches Err(text) && text@
                == "failed to run "@ + name@ + " preflight: "@ + error@,
            CommandRun::Ended { success, status, stdout, stderr } => if *success {
                result is Ok
            } else {
                result matches Err(text) && text@ == name@ + " preflight exited with "@ + status@
            },
        },
{
    match run {
        CommandRun::NotStarted { error } => {
            let mut text = concat("failed to run ", name);
            text.append(" preflight: ");
            text.append(error.as_str());
            Err(text)
        },
        CommandRun::Ended { success, status, .. } => {
            if *success {
                return Ok(());
            }
            let mut text = concat(name, " preflight exited with ");
            text.append(status.as_str());
            Err(text)
        },
    }
}

/// The last place at or before `at` where the needle stands.
pub open spec fn last_match(hay: Seq<char>, needle: Seq<char>, at: int) -> Option<int>
    decreases at + 1,
{
    if at < 0 {
        None
    } else if matches_at(hay, needle, at) {
        Some(at)
    } else {
        last_match(hay, needle, at - 1)
    }
}

/// The identity of the process with the status line: when it was started. This is
/// the twentieth word behind the name of the program, which ends in the last
/// closing bracket before a space.
pub open spec fn identity_in(stat: Seq<char>) -> Option<Seq<char>> {
    match last_match(stat, ") "@, stat.len() as int) {
        Some(at) => {
            let facts = words(stat.skip(at + ") "@.len()));
            if facts.len() > 19 {
                Some("procfs-start-time:"@ + facts[19])
            } else {
                None
            }
        },
        None => None,
    }
}

/// The identity of the process with the status line.
pub fn codex_process_identity(stat: &str) -> (identity: Option<String>)
    ensures
        opt_view(identity) == identity_in(stat@),
{
    let chars = chars_of(stat);
    let needle = chars_of(") ");
    let mut left: usize = chars.len();
    proof {
        reveal_strlit(") ");
        assert(!matches_at(stat@, ") "@, stat@.len() as int));
    }
    while left > 0
        invariant
            left <= chars.len(),
            chars@ == stat@,
            needle@ == ") "@,
            needle@.len() == 2,
            last_match(stat@, ") "@, stat@.len() as int) == last_match(stat@, ") "@, left - 1),
        decreases left,
    {
        if matches_here(&chars, &needle, left - 1) {
            let rest = string_of(&chars, left - 1 + needle.len(), chars.len());
            assert(rest@ =~= stat@.skip(left - 1 + ") "@.len()));
            let facts = split_words(rest.as_str());
            if facts.len() > 19 {
                assert(views(facts@)[19] == facts@[19]@);
                return Some(concat("procfs-start-time:", facts[19].as_str()));
            }
            return None;
        }
        left -= 1;
    }
    None
}

// --- The worktree of an assignment ---

/// The path in the fields themselves: that of `path`, or of `worktree_path` where
/// there is no `path`.
pub open spec fn own_path(fields: Seq<(Seq<char>, JsonModel)>) -> Option<Seq<char>> {
    let value = match field_of(fields, "path"@) {
        Some(value) => Some(value),
        None => field_of(fields, "worktree_path"@),
    };
    match value {
        Some(JsonModel::Text(path)) => Some(path),
        _ => None,
    }
}

/// The first path in a value: an object's own one, or else the first one in what
/// it holds.
pub open spec fn path_in(json: JsonModel) -> Option<Seq<char>>
    decreases json,
{
    match json {
        JsonModel::Object(fields) => match own_path(fields) {
            Some(path) => Some(path),
            None => path_in_fields(fields),
        },
        JsonModel::Array(items) => path_in_items(items),
        _ => None,
    }
}

/// The first path in the items.
pub open spec fn path_in_items(items: Seq<JsonModel>) -> Option<Seq<char>>
    decreases items,
{
    if items.len() == 0 {
        None
    } else {
        match path_in(items[0]) {
            Some(path) => Some(path),
            None => path_in_items(items.subrange(1, items.len() as int)),
        }
    }
}

/// The first path in the values of the fields.
pub open spec fn path_in_fields(fields: Seq<(Seq<char>, JsonModel)>) -> Option<Seq<char>>
    decreases fields,
{
    if fields.len() == 0 {
        None
    } else {
        match path_in(fields[0].1) {
            Some(path) => Some(path),
            None => path_in_fields(fields.subrange(1, fields.len() as int)),
        }
    }
}

/// The first path in a value.
pub fn find_path_value(value: &Json) -> (path: Option<&String>)
    ensures
        match path {
            Some(path) => path_in(value@) == Some(path@),
            None => path_in(value@) is None,
        },
    decreases value,
{
    match value {
        Json::Object(fields) => {
            let ghost models = field_models(fields@);
            proof {
                lemma_field_models(fields@);
            }
            let own = match value.get("path") {
                Some(own) => Some(own),
                None => value.get("worktree_path"),
            };
            let own_text = match own {
                Some(own) => own.as_text(),
                None => None,
            };
            if own_text.is_some() {
                return own_text;
            }
            assert(own_path(models) is None);
            let mut i: usize = 0;
            assert(models.subrange(0, models.len() as int) =~= models);
            while i < fields.len()
                invariant
                    i <= fields.len(),
                    *value == Json::Object(*fields),
                    models.len() == fields.len(),
                    value@ == JsonModel::Object(models),
                    own_path(models) is None,
                    forall|k: int|
                        0 <= k < fields.len() ==> #[trigger] models[k] == (
                            fields@[k].0@,
                            fields@[k].1@,
                        ),
                    path_in(value@) == path_in_fields(
                        models.subrange(i as int, models.len() as int),
                    ),
                decreases fields.len() - i,
            {
                let ghost rest = models.subrange(i as int, models.len() as int);
                proof {
                    assert(decreases_to!(fields@ => fields@[i as int]));
                    assert(decreases_to!(fields@[i as int] => fields@[i as int].1));
                    assert(decreases_to!(*value => value->Object_0));
                    assert(rest[0] == models[i as int]);
                    assert(rest.subrange(1, rest.len() as int) =~= models.subrange(
                        i + 1,
                        models.len() as int,
                    ));
                }
                let path = find_path_value(&fields[i].1);
                if path.is_some() {
                    return path;
                }
                i += 1;
            }
            None
        },
        Json::Array(items) => {
            let ghost models = item_models(items@);
            proof {
                lemma_item_models(items@);
            }
            let mut i: usize = 0;
            assert(models.subrange(0, models.len() as int) =~= models);
            while i < items.len()
                invariant
                    i <= items.len(),
                    *value == Json::Array(*items),
                    models.len() == items.len(),
                    value@ == JsonModel::Array(models),
                    forall|k: int| 0 <= k < items.len() ==> #[trigger] models[k] == items@[k]@,
                    path_in(value@) == path_in_items(
                        models.subrange(i as int, models.len() as int),
                    ),
                decreases items.len() - i,
            {
                let ghost rest = models.subrange(i as int, models.len() as int);
                proof {
                    assert(decreases_to!(items@ => items@[i as int]));
                    assert(decreases_to!(*value => value->Array_0));
                    assert(rest[0] == models[i as int]);
                    assert(rest.subrange(1, rest.len() as int) =~= models.subrange(
                        i + 1,
                        models.len() as int,
                    ));
                }
                let path = find_path_value(&items[i]);
                if path.is_some() {
                    return path;
                }
                i += 1;
            }
            None
        },
        _ => None,
    }
}

/// The commands that make a worktree.
#[derive(Clone, Copy, Debug, Eq, PartialEq, Structural)]
pub enum WorktreeStep {
    /// Make the branch and its worktree.
    Create,
    /// Take the branch that is there already.
    Reuse,
}

/// What follows a command.
#[derive(Clone, Debug, Eq, PartialEq)]
pub enum WorktreeNext {
    Run(WorktreeStep),
    /// The path of the worktree.
    Done(String),
}

impl WorktreeStep {
    /// How a report of the command begins.
    pub open spec fn label(self) -> Seq<char> {
        match self {
            WorktreeStep::Create => "Worktrunk assignment worktree creation"@,
            WorktreeStep::Reuse => "Worktrunk assignment worktree switch"@,
        }
    }

    /// The arguments of Worktrunk.
    pub open spec fn argv(self, branch: Seq<char>) -> Seq<Seq<char>> {
        match self {
            WorktreeStep::Create => seq![
                "switch"@,
                "--create"@,
                branch,
                "--yes"@,
                "--no-cd"@,
                "--format"@,
                "json"@,
            ],
            WorktreeStep::Reuse => seq![
                "switch"@,
                branch,
                "--yes"@,
                "--no-cd"@,
                "--format"@,
                "json"@,
            ],
        }
    }

    /// The arguments of Worktrunk.
    pub fn args(self, branch: &str) -> (args: Vec<String>)
        ensures
            views(args@) == self.argv(branch@),
    {
        let mut args: Vec<String> = Vec::new();
        args.push("switch".to_owned());
        match self {
            WorktreeStep::Create => args.push("--create".to_owned()),
            WorktreeStep::Reuse => {},
        }
        args.push(branch.to_owned());
        args.push("--yes".to_owned());
        args.push("--no-cd".to_owned());
        args.push("--format".to_owned());
        args.push("json".to_owned());
        assert(views(args@) =~= self.argv(branch@));
        args
    }
}

/// Worktrunk refuses to make a branch that is there already.
pub open spec fn says_branch_exists(branch: Seq<char>, stderr: Seq<char>) -> bool {
    contains_text(stderr, "already exists"@) && contains_text(stderr, branch)
}

/// Whether Worktrunk refuses to make a branch that is there already.
pub fn worktrunk_branch_exists(branch: &str, stderr: &str) -> (yes: bool)
    ensures
        yes == says_branch_exists(branch@, stderr@),
{
    contains(stderr, "already exists") && contains(stderr, branch)
}

/// What a value that Worktrunk printed says: the path, or that there is none.
pub open spec fn is_path_result(json: JsonModel, result: Result<String, String>) -> bool {
    match path_in(json) {
        Some(path) => result matches Ok(found) && found@ == path,
        None => result matches Err(text) && text@
            == "Worktrunk worktree output did not include a path"@,
    }
}

/// What a value that Worktrunk printed says.
pub fn path_of(value: &Json) -> (result: Result<String, String>)
    ensures
        is_path_result(value@, result),
{
    match find_path_value(value) {
        Some(path) => Ok(path.clone()),
        None => Err("Worktrunk worktree output did not include a path".to_owned()),
    }
}

/// The path that Worktrunk printed.
pub open spec fn is_printed_path(stdout: Seq<u8>, result: Result<String, String>) -> bool {
    match parsed_json_bytes(stdout) {
        Ok(json) => is_path_result(json, result),
        Err(message) => result matches Err(text) && text@
            == "failed to parse Worktrunk worktree output: "@ + message,
    }
}

/// The path that Worktrunk printed.
pub fn parse_worktrunk_path(stdout: &Vec<u8>) -> (result: Result<String, String>)
    ensures
        is_printed_path(stdout@, result),
{
    match parse_json_bytes(stdout) {
        Ok(json) => path_of(&json),
        Err(message) => Err(
            concat("failed to parse Worktrunk worktree output: ", message.as_str()),
        ),
    }
}

/// What follows a command: a branch that is there already is taken as it is; any
/// other failure is reported.
pub open spec fn is_worktree_step(
    step: WorktreeStep,
    branch: Seq<char>,
    run: RawRun,
    next: Result<WorktreeNext, String>,
) -> bool {
    match run {
        RawRun::NotStarted { error } => next matches Err(text) && text@
            == "failed to start Worktrunk: "@ + error@,
        RawRun::Ended { success, status, stdout, stderr } => if success {
            match next {
                Ok(WorktreeNext::Done(path)) => is_printed_path(stdout@, Ok(path)),
                Ok(WorktreeNext::Run(_)) => false,
                Err(text) => is_printed_path(stdout@, Err(text)),
            }
        } else if step == WorktreeStep::Create && says_branch_exists(branch, stderr@) {
            next == Ok::<WorktreeNext, String>(WorktreeNext::Run(WorktreeStep::Reuse))
        } else {
            next matches Err(text) && text@ == labelled_failure(step.label(), status@, stderr@)
        },
    }
}

/// Go on with the worktree of an assignment. The first command is
/// [`WorktreeStep::Create`].
pub fn create_assignment_worktree(step: WorktreeStep, branch: &str, run: &RawRun) -> (next: Result<
    WorktreeNext,
    String,
>)
    ensures
        is_worktree_step(step, branch@, *run, next),
{
    match run {
        RawRun::NotStarted { error } => Err(concat("failed to start Worktrunk: ", error.as_str())),
        RawRun::Ended { success, status, stdout, stderr } => {
            if *success {
                return match parse_worktrunk_path(stdout) {
                    Ok(path) => Ok(WorktreeNext::Done(path)),
                    Err(text) => Err(text),
                };
            }
            match step {
                WorktreeStep::Create => {
                    if worktrunk_branch_exists(branch, stderr.as_str()) {
                        Ok(WorktreeNext::Run(WorktreeStep::Reuse))
                    } else {
                        Err(
                            command_failure(
                                "Worktrunk assignment worktree creation",
                                status.as_str(),
                                stderr.as_str(),
                            ),
                        )
                    }
                },
                WorktreeStep::Reuse => Err(
                    command_failure(
                        "Worktrunk assignment worktree switch",
                        status.as_str(),
                        stderr.as_str(),
                    ),
                ),
            }
        },
    }
}

/// At most two commands are run: taking a branch that is there is tried once, and
/// only where Worktrunk says that it is there.
pub proof fn law_reuse_is_tried_once(
    step: WorktreeStep,
    branch: Seq<char>,
    run: RawRun,
    next: Result<WorktreeNext, String>,
)
    requires
        is_worktree_step(step, branch, run, next),
        next matches Ok(WorktreeNext::Run(_)),
    ensures
        step == WorktreeStep::Create,
        next == Ok::<WorktreeNext, String>(WorktreeNext::Run(WorktreeStep::Reuse)),
        run matches RawRun::Ended { success, status, stdout, stderr } && !success
            && says_branch_exists(branch, stderr@),
{
}

} // verus!
