//! What the worktree of an assignment comes from, and what becomes of its proposal and
//! of its processes.

use vstd::prelude::*;

#[allow(unused_imports)]
use crate::boot_recovery_scanner::InFlightPhaseRowSummary;
#[allow(unused_imports)]
use crate::command::{CommandRun, RawRun};
#[allow(unused_imports)]
use crate::command_laws::{ended_well, ends_with, lemma_middle};
#[allow(unused_imports)]
use crate::contracts::GitSummary;
#[allow(unused_imports)]
use crate::git_summary::{
    default_branch_args, detect_default_branch, summarize_project_path, RepositoryFacts,
};
#[allow(unused_imports)]
use crate::json::{
    field_of, item_models, parsed_json_bytes, parsed_json_list, text_field, Json, JsonModel,
};
#[allow(unused_imports)]
use crate::numerals::decimal;
#[allow(unused_imports)]
use crate::plan_run::PlanRunPhaseError;
#[allow(unused_imports)]
use crate::problem::PersistenceError;
#[allow(unused_imports)]
use crate::production::WorktrunkAssignmentWorktreeProvisioner;
#[allow(unused_imports)]
use crate::recover::{
    judge_prior_process, stop_args, stop_prior_codex_if_owned, PriorProcessOutcome,
};
#[allow(unused_imports)]
use crate::shutdown_coordinator::{processes, send_sigterm, sweep_in_flight, waits, ShutdownReport};
#[allow(unused_imports)]
use crate::text::{
    ascii_lower, ascii_upper, begins_with, contains_text, matches_at, opt_view, trim, views,
};
#[allow(unused_imports)]
use crate::text_parts::{join, words};
#[allow(unused_imports)]
use crate::verify::{
    checks_args, classify_checks, failed_names, inspect_required_checks, is_failed, is_passed,
    is_pending, is_pull_request_merged, merged_args, merged_in, text_or, CheckState,
};
#[allow(unused_imports)]
use crate::worktrunk::{
    codex_process_identity, create_assignment_worktree, last_match, path_in, path_in_fields,
    path_in_items, preflight_binary, WorktreeNext, WorktreeStep,
};

verus! {

// --- Making a worktree ---

/// Worktrunk is asked to switch to the branch, without a question and without changing the
/// directory, and to print JSON. It is told to create the branch by the first command
/// alone.
pub proof fn law_worktree_arguments(step: WorktreeStep, branch: &str, args: Vec<String>)
    requires
        call_ensures(WorktreeStep::args, (step, branch), args),
    ensures
        views(args@)[0] == "switch"@,
        step == WorktreeStep::Create ==> views(args@) == seq!["switch"@, "--create"@, branch@]
            + seq!["--yes"@, "--no-cd"@, "--format"@, "json"@],
        step == WorktreeStep::Reuse ==> views(args@) == seq!["switch"@, branch@] + seq![
            "--yes"@,
            "--no-cd"@,
            "--format"@,
            "json"@,
        ],
{
}

/// A branch that is there already is taken as it is: this is tried if and only if the
/// branch was to be created and Worktrunk said, naming the branch, that it exists. A path
/// comes only from a command that ended well.
pub proof fn law_worktree_of_a_branch(
    step: WorktreeStep,
    branch: &str,
    run: RawRun,
    next: Result<WorktreeNext, String>,
)
    requires
        call_ensures(create_assignment_worktree, (step, branch, &run), next),
    ensures
        (next matches Ok(WorktreeNext::Run(_))) <==> (run matches RawRun::Ended {
            success,
            status,
            stdout,
            stderr,
        } && !success && step == WorktreeStep::Create && contains_text(stderr@, branch@)
            && contains_text(stderr@, "already exists"@)),
        next matches Ok(WorktreeNext::Run(then)) ==> then == WorktreeStep::Reuse,
        (next matches Ok(WorktreeNext::Done(_))) <==> (run matches RawRun::Ended {
            success,
            status,
            stdout,
            stderr,
        } && success && (parsed_json_bytes(stdout@) matches Ok(json) && path_in(json) is Some)),
        next matches Ok(WorktreeNext::Done(path)) ==> path_in(
            parsed_json_bytes(run->stdout@)->Ok_0,
        ) == Some(path@),
        run is NotStarted ==> (next matches Err(text) && ends_with(
            text@,
            run->NotStarted_error@,
        )),
        run matches RawRun::Ended { success, status, stdout, stderr } ==> (!success
            && next is Err ==> contains_text(next->Err_0@, status@) && ends_with(
            next->Err_0@,
            trim(stderr@),
        )),
{
    match run {
        RawRun::NotStarted { error } => {
            lemma_middle("failed to start Worktrunk: "@, error@, seq![]);
        },
        RawRun::Ended { success, status, stdout, stderr } => {
            crate::command_laws::lemma_labelled(step.label(), status@, stderr@);
        },
    }
}

/// The path of an object is that of its field `path`; where it has none of that name, that
/// of `worktree_path`; and where this gives no text, the first path in what it holds, from
/// the front. A list gives the first path in its items. A value that is neither gives none.
pub proof fn law_first_path(
    fields: Seq<(Seq<char>, JsonModel)>,
    items: Seq<JsonModel>,
    i: int,
    path: Seq<char>,
)
    ensures
        field_of(fields, "path"@) == Some(JsonModel::Text(path)) ==> path_in(
            JsonModel::Object(fields),
        ) == Some(path),
        field_of(fields, "path"@) is None && field_of(fields, "worktree_path"@) == Some(
            JsonModel::Text(path),
        ) ==> path_in(JsonModel::Object(fields)) == Some(path),
        0 <= i < items.len() && path_in(items[i]) == Some(path) && (forall|k: int|
            0 <= k < i ==> path_in(#[trigger] items[k]) is None) ==> path_in(
            JsonModel::Array(items),
        ) == Some(path),
        path_in(JsonModel::Array(items)) is None <==> forall|k: int|
            0 <= k < items.len() ==> path_in(#[trigger] items[k]) is None,
        0 <= i < fields.len() && path_in(fields[i].1) == Some(path) && (forall|k: int|
            0 <= k < i ==> path_in((#[trigger] fields[k]).1) is None) && (field_of(fields, "path"@)
            is None) && (field_of(fields, "worktree_path"@) is None) ==> path_in(
            JsonModel::Object(fields),
        ) == Some(path),
        path_in(JsonModel::Text(path)) is None,
        path_in(JsonModel::Null) is None,
{
    lemma_items(items, i, path);
    lemma_fields(fields, i, path);
}

proof fn lemma_items(items: Seq<JsonModel>, i: int, path: Seq<char>)
    ensures
        0 <= i < items.len() && path_in(items[i]) == Some(path) && (forall|k: int|
            0 <= k < i ==> path_in(#[trigger] items[k]) is None) ==> path_in_items(items) == Some(
            path,
        ),
        path_in_items(items) is None <==> forall|k: int|
            0 <= k < items.len() ==> path_in(#[trigger] items[k]) is None,
    decreases items.len(),
{
    if items.len() > 0 {
        let rest = items.subrange(1, items.len() as int);
        lemma_items(rest, i - 1, path);
        assert(forall|k: int| 0 <= k < rest.len() ==> #[trigger] rest[k] == items[k + 1]);
        if path_in(items[0]) is None {
            if forall|k: int| 0 <= k < rest.len() ==> path_in(#[trigger] rest[k]) is None {
                assert forall|k: int| 0 <= k < items.len() implies path_in(#[trigger] items[k])
                    is None by {
                    if k > 0 {
                        assert(path_in(rest[k - 1]) is None);
                    }
                }
            }
            if 0 < i < items.len() && path_in(items[i]) == Some(path) {
                assert(rest[i - 1] == items[i]);
            }
        }
    }
}

proof fn lemma_fields(fields: Seq<(Seq<char>, JsonModel)>, i: int, path: Seq<char>)
    ensures
        0 <= i < fields.len() && path_in(fields[i].1) == Some(path) && (forall|k: int|
            0 <= k < i ==> path_in((#[trigger] fields[k]).1) is None) ==> path_in_fields(fields)
            == Some(path),
    decreases fields.len(),
{
    if fields.len() > 0 && i > 0 {
        let rest = fields.subrange(1, fields.len() as int);
        lemma_fields(rest, i - 1, path);
        assert(forall|k: int| 0 <= k < rest.len() ==> #[trigger] rest[k] == fields[k + 1]);
        if i < fields.len() {
            assert(rest[i - 1] == fields[i]);
        }
    }
}

/// A provisioned worktree is the path that was made, and a failure keeps its text.
pub proof fn law_provisioned_worktree(
    provisioner: WorktrunkAssignmentWorktreeProvisioner,
    created: Result<String, String>,
    path: Result<String, PlanRunPhaseError>,
)
    requires
        call_ensures(WorktrunkAssignmentWorktreeProvisioner::result, (&provisioner, created), path),
    ensures
        path is Ok <==> created is Ok,
        path matches Ok(worktree) ==> created == Ok::<String, String>(worktree),
        path matches Err(error) ==> (error matches PlanRunPhaseError::WorktreeProvision(text)
            && created == Err::<String, String>(text)),
{
}

/// A program can be run if and only if asking for its version ended well; otherwise the
/// report names the program.
pub proof fn law_preflight_of_a_program(name: &str, run: CommandRun, result: Result<(), String>)
    requires
        call_ensures(preflight_binary, (name, &run), result),
    ensures
        result is Ok <==> ended_well(run),
        result matches Err(text) ==> contains_text(text@, name@),
        result matches Err(text) ==> (match run {
            CommandRun::NotStarted { error } => ends_with(text@, error@),
            CommandRun::Ended { success, status, stdout, stderr } => ends_with(text@, status@),
        }),
{
    match run {
        CommandRun::NotStarted { error } => {
            let text = "failed to run "@ + name@ + " preflight: "@ + error@;
            lemma_middle("failed to run "@, name@, " preflight: "@ + error@);
            assert(text =~= "failed to run "@ + name@ + (" preflight: "@ + error@));
            lemma_middle("failed to run "@ + name@, " preflight: "@, error@);
        },
        CommandRun::Ended { success, status, stdout, stderr } => {
            let text = name@ + " preflight exited with "@ + status@;
            lemma_middle(seq![], name@, " preflight exited with "@ + status@);
            assert(text =~= seq![] + name@ + (" preflight exited with "@ + status@));
            lemma_middle(name@, " preflight exited with "@, status@);
        },
    }
}

// --- The identity of a process ---

proof fn lemma_last_match(hay: Seq<char>, needle: Seq<char>, from: int)
    ensures
        match last_match(hay, needle, from) {
            Some(at) => at <= from && matches_at(hay, needle, at) && forall|k: int|
                at < k <= from ==> !#[trigger] matches_at(hay, needle, k),
            None => forall|k: int| k <= from ==> !#[trigger] matches_at(hay, needle, k),
        },
    decreases from + 1,
{
    if from >= 0 {
        lemma_last_match(hay, needle, from - 1);
    }
}

/// The identity of a process is read behind the last closing bracket that a space follows:
/// whatever stands before it, brackets and spaces in the name of the program too, changes
/// nothing. It is the twentieth word there, and there is none where there are fewer.
pub proof fn law_identity_of_a_process(
    stat: &str,
    name: Seq<char>,
    facts: Seq<char>,
    identity: Option<String>,
)
    requires
        call_ensures(codex_process_identity, (stat,), identity),
        stat@ == name + ") "@ + facts,
        !contains_text(facts, ") "@),
    ensures
        words(facts).len() >= 20 ==> opt_view(identity) == Some(
            "procfs-start-time:"@ + words(facts)[19],
        ),
        words(facts).len() < 20 ==> identity is None,
{
    let needle = ") "@;
    reveal_strlit(") ");
    let at = name.len() as int;
    assert(stat@.subrange(at, at + 2) =~= needle);
    assert(matches_at(stat@, needle, at));
    lemma_last_match(stat@, needle, stat@.len() as int);
    let found = last_match(stat@, needle, stat@.len() as int)->0;
    if found > at {
        if found == at + 1 {
            assert(stat@.subrange(found, found + 2)[0] == stat@[found]);
            assert(stat@[found] == ' ');
            assert(false);
        }
        let k = found - at - 2;
        assert(facts.subrange(k, k + 2) =~= stat@.subrange(found, found + 2));
        assert(matches_at(facts, needle, k));
        assert(false);
    }
    assert(stat@.skip(at + 2) =~= facts);
}

// --- The required checks ---

/// How the words of a check are read, whatever the case of their letters: a check that runs
/// or waits is pending, one that succeeded, was skipped or counts neither way has passed,
/// and its bucket says the same.
pub proof fn law_words_of_a_check(check: JsonModel, state: Seq<char>, bucket: Seq<char>)
    requires
        text_field(check, "state"@) == Some(state),
        text_field(check, "bucket"@) == Some(bucket),
    ensures
        is_pending(check) <==> (ascii_upper(state) == "IN_PROGRESS"@ || ascii_upper(state)
            == "QUEUED"@ || ascii_upper(state) == "PENDING"@ || ascii_upper(state) == "WAITING"@
            || ascii_lower(bucket) == "pending"@),
        is_passed(check) <==> (ascii_upper(state) == "SUCCESS"@ || ascii_upper(state)
            == "NEUTRAL"@ || ascii_upper(state) == "SKIPPED"@ || ascii_lower(bucket) == "pass"@),
{
}

proof fn lemma_join_holds(parts: Seq<Seq<char>>, sep: Seq<char>, i: int)
    requires
        0 <= i < parts.len(),
    ensures
        contains_text(join(parts, sep), parts[i]),
    decreases parts.len(),
{
    if parts.len() == 1 {
        lemma_middle(seq![], parts[0], seq![]);
        assert(seq![] + parts[0] =~= parts[0]);
    } else {
        let front = parts.drop_last();
        if i == parts.len() - 1 {
            lemma_middle(join(front, sep) + sep, parts.last(), seq![]);
        } else {
            lemma_join_holds(front, sep, i);
            crate::command_laws::lemma_contains_more(
                seq![],
                join(front, sep),
                sep + parts.last(),
                parts[i],
            );
            assert(join(parts, sep) =~= seq![] + join(front, sep) + (sep + parts.last()));
        }
    }
}

proof fn lemma_failed_is_named(checks: Seq<JsonModel>, i: int) -> (at: int)
    requires
        0 <= i < checks.len(),
        is_failed(checks[i]),
    ensures
        0 <= at < failed_names(checks).len(),
        failed_names(checks)[at] == text_or(checks[i], "name"@, "required check"@),
    decreases checks.len(),
{
    if i == checks.len() - 1 {
        failed_names(checks).len() - 1
    } else {
        let at = lemma_failed_is_named(checks.drop_last(), i);
        at
    }
}

/// A check that neither runs nor has passed is reported by its name, whatever the others
/// say; where it has no name, as a required check.
pub proof fn law_failed_check_is_reported(checks: &Vec<Json>, state: CheckState, i: int)
    requires
        call_ensures(classify_checks, (checks,), state),
        0 <= i < item_models(checks@).len(),
        !is_pending(item_models(checks@)[i]),
        !is_passed(item_models(checks@)[i]),
    ensures
        state matches CheckState::Failing(detail) && match text_field(
            item_models(checks@)[i],
            "name"@,
        ) {
            Some(name) => contains_text(detail@, name),
            None => contains_text(detail@, "required check"@),
        },
{
    let models = item_models(checks@);
    let at = lemma_failed_is_named(models, i);
    lemma_join_holds(failed_names(models), ", "@, at);
    let listed = join(failed_names(models), ", "@);
    crate::command_laws::lemma_contains_more(
        "required GitHub check failing: "@,
        listed,
        seq![],
        failed_names(models)[at],
    );
}

/// Without a check that failed, the checks are pending where one runs or there is none, and
/// else they pass.
pub proof fn law_checks_pass_together(checks: &Vec<Json>, state: CheckState)
    requires
        call_ensures(classify_checks, (checks,), state),
        forall|i: int|
            0 <= i < item_models(checks@).len() ==> is_pending(#[trigger] item_models(checks@)[i])
                || is_passed(item_models(checks@)[i]),
    ensures
        state is Pending <==> item_models(checks@).len() == 0 || exists|i: int|
            0 <= i < item_models(checks@).len() && is_pending(#[trigger] item_models(checks@)[i]),
        state is Passing || state is Pending,
{
    crate::verify::law_passing_needs_every_check(state, item_models(checks@));
}

/// `gh` is asked for the name, the state and the bucket of the checks of this pull request
/// in this repository, and for its state and merge.
pub proof fn law_pull_request_is_asked_for(
    locator: &str,
    number: u64,
    checks: Vec<String>,
    merged: Vec<String>,
)
    requires
        call_ensures(checks_args, (locator, number), checks),
        call_ensures(merged_args, (locator, number), merged),
    ensures
        views(checks@).take(3) == seq!["pr"@, "checks"@, decimal(number as nat)],
        views(merged@).take(3) == seq!["pr"@, "view"@, decimal(number as nat)],
        views(checks@).skip(3) == seq!["--repo"@, locator@, "--json"@, "name,state,bucket"@],
        views(merged@).skip(3) == seq![
            "--repo"@,
            locator@,
            "--json"@,
            "state,mergedAt,mergeCommit"@,
        ],
{
    assert(views(checks@).take(3) =~= seq!["pr"@, "checks"@, decimal(number as nat)]);
    assert(views(merged@).take(3) =~= seq!["pr"@, "view"@, decimal(number as nat)]);
}

/// Checks that were printed count although `gh` failed: it does so where a check runs or
/// has failed. Its failure is reported only where it printed none.
pub proof fn law_printed_checks_count(
    run: CommandRun,
    checks: Seq<JsonModel>,
    result: Result<CheckState, String>,
)
    requires
        call_ensures(inspect_required_checks, (&run,), result),
        run is Ended,
        trim(run->stdout@).len() > 0,
        parsed_json_list(trim(run->stdout@)) == Ok::<Seq<JsonModel>, Seq<char>>(checks),
    ensures
        checks.len() > 0 ==> result is Ok,
        checks.len() == 0 ==> (result is Ok <==> ended_well(run)),
        result matches Ok(state) ==> (state is Failing <==> exists|i: int|
            0 <= i < checks.len() && !is_pending(#[trigger] checks[i]) && !is_passed(checks[i])),
{
    if result is Ok {
        crate::verify::law_passing_needs_every_check(result->Ok_0, checks);
        if exists|i: int| 0 <= i < checks.len() && is_failed(#[trigger] checks[i]) {
            let i = choose|i: int| 0 <= i < checks.len() && is_failed(#[trigger] checks[i]);
            assert(!is_pending(checks[i]) && !is_passed(checks[i]));
        }
        if exists|i: int|
            0 <= i < checks.len() && !is_pending(#[trigger] checks[i]) && !is_passed(checks[i]) {
            let i = choose|i: int|
                0 <= i < checks.len() && !is_pending(#[trigger] checks[i]) && !is_passed(checks[i]);
            assert(is_failed(checks[i]));
        }
    }
}

/// A pull request was merged if and only if its state says so, in whatever case, or it has
/// a time of its merge.
pub proof fn law_merged_pull_request(view: &Json, yes: bool)
    requires
        call_ensures(merged_in, (view,), yes),
    ensures
        text_field(view@, "mergedAt"@) matches Some(time) ==> (time.len() > 0 ==> yes),
        text_field(view@, "state"@) matches Some(state) ==> (ascii_upper(state) == "MERGED"@
            ==> yes),
        yes ==> (text_field(view@, "mergedAt"@) matches Some(time) && time.len() > 0) || (
        text_field(view@, "state"@) matches Some(state) && ascii_upper(state) == "MERGED"@),
{
    reveal_strlit("");
    reveal_strlit("MERGED");
    if text_field(view@, "state"@) is None {
        assert(ascii_upper(""@).len() == 0);
    }
}

// --- Processes ---

/// Only the very process that was recorded is stopped: the one that has its number now and
/// is identified as the same.
pub proof fn law_only_the_recorded_process_is_stopped(
    expected: &str,
    current: Option<String>,
    outcome: PriorProcessOutcome,
    pid: u32,
    args: Vec<String>,
)
    requires
        call_ensures(judge_prior_process, (expected, &current), outcome),
        call_ensures(stop_args, (pid,), args),
    ensures
        outcome == PriorProcessOutcome::Stopped <==> opt_view(current) == Some(expected@),
        outcome != PriorProcessOutcome::Stopped ==> outcome == PriorProcessOutcome::AlreadyStopped,
        views(args@) == seq![decimal(pid as nat)],
{
}

/// A process that was not recorded with its identity is not looked up. One that was is stopped
/// if and only if the process that has its number now is identified as the same.
pub proof fn law_recorded_process_is_looked_up<F: Fn(u32) -> Option<String>>(
    pid: Option<u32>,
    identity: Option<&str>,
    lookup: F,
    outcome: PriorProcessOutcome,
)
    requires
        call_ensures(stop_prior_codex_if_owned::<F>, (pid, identity, lookup), outcome),
    ensures
        outcome == PriorProcessOutcome::NoPriorRecord <==> pid is None || identity is None,
        pid is Some && identity is Some ==> exists|current: Option<String>|
            #[trigger] call_ensures(lookup, (pid->0,), current) && (outcome
                == PriorProcessOutcome::Stopped <==> opt_view(current) == Some(identity->0@)) && (
            outcome == PriorProcessOutcome::Stopped || outcome
                == PriorProcessOutcome::AlreadyStopped),
{
    if pid is Some && identity is Some {
        let current = choose|current: Option<String>|
            #[trigger] call_ensures(lookup, (pid->0,), current) && outcome
                == crate::recover::prior_outcome(identity->0@, current);
        assert(call_ensures(lookup, (pid->0,), current));
    }
}

/// What `gh` printed of a pull request decides whether it was merged, where `gh` ended well and
/// printed JSON. Otherwise nothing is known of it.
pub proof fn law_merge_is_asked_for(run: RawRun, result: Result<bool, String>, view: &Json, yes: bool)
    requires
        call_ensures(is_pull_request_merged, (&run,), result),
        call_ensures(merged_in, (view,), yes),
    ensures
        run is NotStarted ==> result is Err,
        run matches RawRun::Ended { success, status, stdout, stderr } ==> {
            &&& !success ==> (result matches Err(text) && contains_text(text@, status@)
                && ends_with(text@, trim(stderr@)))
            &&& success && parsed_json_bytes(stdout@) is Err ==> result is Err
            &&& success && parsed_json_bytes(stdout@) == Ok::<JsonModel, Seq<char>>(view@)
                ==> result == Ok::<bool, String>(yes)
        },
{
    if let RawRun::Ended { success, status, stdout, stderr } = run {
        let begin = "gh pr view exited with "@;
        let said = ": "@ + trim(stderr@);
        lemma_middle(begin, status@, said);
        assert(begin + status@ + ": "@ + trim(stderr@) =~= begin + status@ + said);
        lemma_middle(begin + status@, ": "@, trim(stderr@));
    }
}

/// A shutdown marks every row, signals the processes that it knows with `TERM`, and waits
/// if and only if there was one. Where the rows could not be marked it does nothing.
pub proof fn law_shutdown_signals_what_it_marked(
    marked: Result<Vec<InFlightPhaseRowSummary>, PersistenceError>,
    report: ShutdownReport,
    waited: bool,
    pid: u32,
    args: Vec<String>,
)
    requires
        call_ensures(sweep_in_flight, (&marked,), report),
        call_ensures(waits, (&report,), waited),
        call_ensures(send_sigterm, (pid,), args),
    ensures
        marked matches Ok(rows) ==> report.rows_marked_interrupted == rows.len(),
        marked matches Ok(rows) ==> (report.pids_signalled@.contains(pid) <==> exists|i: int|
            0 <= i < rows.len() && (#[trigger] rows[i]).process_id == Some(pid)),
        marked is Err ==> report.rows_marked_interrupted == 0 && report.pids_signalled@.len() == 0,
        waited <==> report.pids_signalled@.len() > 0,
        views(args@) == seq!["-TERM"@, decimal(pid as nat)],
{
    match marked {
        Ok(rows) => {
            crate::shutdown_coordinator::law_signals_known_processes(rows@, pid);
            if exists|i: int| 0 <= i < rows.len() && (#[trigger] rows[i]).process_id == Some(pid) {
                let i = choose|i: int|
                    0 <= i < rows.len() && (#[trigger] rows[i]).process_id == Some(pid);
                assert(rows@[i].process_id == Some(pid));
            }
            if exists|i: int| 0 <= i < rows@.len() && (#[trigger] rows@[i]).process_id == Some(pid) {
                let i = choose|i: int|
                    0 <= i < rows@.len() && (#[trigger] rows@[i]).process_id == Some(pid);
                assert(rows[i].process_id == Some(pid));
            }
        },
        Err(_) => {},
    }
}

/// The processes of rows come in the order of the rows: those of more rows begin with those
/// of fewer, and a row adds its own process or nothing.
pub proof fn law_signals_in_order(
    rows: Seq<InFlightPhaseRowSummary>,
    row: InFlightPhaseRowSummary,
)
    ensures
        row.process_id is None ==> processes(rows.push(row)) == processes(rows),
        row.process_id matches Some(pid) ==> processes(rows.push(row)) == processes(rows).push(pid),
        processes(Seq::<InFlightPhaseRowSummary>::empty()).len() == 0,
{
    assert(rows.push(row).drop_last() =~= rows);
}

// --- The summary of a repository ---

/// The summary of a repository names its branch without `refs/heads/`; it is dirty only
/// where a change was seen, and keeps the commit and the default branch.
pub proof fn law_repository_is_summarised(
    facts: RepositoryFacts,
    default_branch: Option<String>,
    summary: GitSummary,
    branch: Seq<char>,
)
    requires
        call_ensures(summarize_project_path, (facts, default_branch), summary),
    ensures
        facts.referent is None <==> summary.branch is None,
        opt_view(facts.referent) == Some("refs/heads/"@ + branch) ==> opt_view(summary.branch)
            == Some(branch),
        opt_view(facts.referent) == Some(branch) && !begins_with(branch, "refs/heads/"@)
            ==> opt_view(summary.branch) == Some(branch),
        summary.head == facts.head,
        summary.dirty <==> facts.dirty == Some(true),
        summary.default_branch == default_branch,
{
    lemma_prefix_is_dropped("refs/heads/"@, branch);
}

proof fn lemma_prefix_is_dropped(prefix: Seq<char>, rest: Seq<char>)
    ensures
        begins_with(prefix + rest, prefix),
        (prefix + rest).skip(prefix.len() as int) == rest,
{
    assert((prefix + rest).subrange(0, prefix.len() as int) =~= prefix);
    assert((prefix + rest).skip(prefix.len() as int) =~= rest);
}

/// The default branch is what `git` printed, without the white space round it and without
/// `origin/`. There is none where `git` failed or printed nothing.
pub proof fn law_default_branch_is_detected(
    args: Vec<String>,
    run: CommandRun,
    branch: Option<String>,
    name: Seq<char>,
)
    requires
        call_ensures(default_branch_args, (), args),
        call_ensures(detect_default_branch, (&run,), branch),
    ensures
        views(args@) == seq![
            "symbolic-ref"@,
            "--quiet"@,
            "--short"@,
            "refs/remotes/origin/HEAD"@,
        ],
        branch is Some <==> ended_well(run) && trim(run->stdout@).len() > 0,
        ended_well(run) && trim(run->stdout@) == "origin/"@ + name ==> opt_view(branch) == Some(
            name,
        ),
        ended_well(run) && trim(run->stdout@) == name && name.len() > 0 && !begins_with(
            name,
            "origin/"@,
        ) ==> opt_view(branch) == Some(name),
{
    reveal_strlit("origin/");
    lemma_prefix_is_dropped("origin/"@, name);
}

} // verus!
