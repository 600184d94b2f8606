//! What is read of the containers that Docker lists, of URLs, and of JSON; and what the prompts
//! of a recovery and of a repair say.

use vstd::prelude::*;

#[allow(unused_imports)]
use crate::boot_container_sweeper::{
    container_models, listed_containers, parse_container_line, parse_container_list, CliDockerOps,
    SandboxContainer,
};
#[allow(unused_imports)]
use crate::command::CommandRun;
#[allow(unused_imports)]
use crate::command_laws::{ended_well, ends_with, lemma_middle};
#[allow(unused_imports)]
use crate::contracts::FailedCheckFact;
#[allow(unused_imports)]
use crate::in_flight_phase_tracker::PhaseProcessRecorder;
#[allow(unused_imports)]
use crate::json::{
    field_of, item_models, json_list_of, json_value_of, json_value_of_bytes, parse_json_bytes,
    parse_json_list, value_contents, value_display, value_pretty, Json, JsonDocument, JsonModel,
};
#[allow(unused_imports)]
use crate::numerals::{decimal, hex, read_u64};
#[allow(unused_imports)]
use crate::problem::PersistenceError;
#[allow(unused_imports)]
use crate::recover::{build_recovery_prompt, RecoveryPromptFacts};
#[allow(unused_imports)]
use crate::repair::{build_repair_prompt, check_lines, RepairPromptFacts};
#[allow(unused_imports)]
use crate::sandbox::{SandboxLaunchSpec, SandboxPhase};
#[allow(unused_imports)]
use crate::text::{contains_text, trim, trim_end_char, views};
#[allow(unused_imports)]
use crate::text_parts::{index_of_char, lemma_index_of_char, lines, split_at_char};
#[allow(unused_imports)]
use crate::verify::{last_number, parse_pull_request_number};

verus! {

// --- Containers ---

proof fn lemma_split_first(first: Seq<char>, rest: Seq<char>, ch: char)
    requires
        !first.contains(ch),
    ensures
        split_at_char(first + seq![ch] + rest, ch) == seq![first] + split_at_char(rest, ch),
        split_at_char(first, ch) == seq![first],
{
    let text = first + seq![ch] + rest;
    lemma_index_of_char(text, ch);
    lemma_index_of_char(first, ch);
    let at = index_of_char(text, ch);
    assert(text[first.len() as int] == ch);
    assert(forall|k: int| 0 <= k < first.len() ==> text[k] == first[k]);
    if at < first.len() {
        assert(first[at] == ch);
    }
    assert(at == first.len());
    assert(text.take(at) =~= first);
    assert(text.skip(at + 1) =~= rest);
    if index_of_char(first, ch) < first.len() {
        assert(first[index_of_char(first, ch)] == ch);
    }
}

/// The word for a phase.
pub open spec fn word_of(phase: SandboxPhase) -> Seq<char> {
    if phase is Planning {
        "planning"@
    } else if phase is Implementation {
        "implementation"@
    } else if phase is Review {
        "review"@
    } else {
        "merge"@
    }
}

/// A line of the listing holds a container as its columns say: the name, the Plan Run, the
/// phase, the assignment and the Project, with a tab between each two. An empty column stands
/// for nothing.
pub proof fn law_container_is_read(
    line: &str,
    name: Seq<char>,
    plan_run: Seq<char>,
    phase: SandboxPhase,
    assignment: Seq<char>,
    project: Seq<char>,
    container: Option<SandboxContainer>,
)
    requires
        call_ensures(parse_container_line, (line,), container),
        !name.contains('\t'),
        !plan_run.contains('\t'),
        !assignment.contains('\t'),
        !project.contains('\t'),
        line@ == name + seq!['\t'] + (plan_run + seq!['\t'] + (word_of(phase) + seq!['\t'] + (
        assignment + seq!['\t'] + project))),
    ensures
        container matches Some(found) && found.name@ == name && found.plan_run_id@ == plan_run
            && found.phase == phase && (found.assignment_id is Some <==> assignment.len() > 0) && (
        found.assignment_id matches Some(id) ==> id@ == assignment) && (found.project_id is Some
            <==> project.len() > 0) && (found.project_id matches Some(id) ==> id@ == project),
{
    lemma_words_of_phases(phase);
    let last = assignment + seq!['\t'] + project;
    let third = word_of(phase) + seq!['\t'] + last;
    let second = plan_run + seq!['\t'] + third;
    lemma_split_first(name, second, '\t');
    lemma_split_first(plan_run, third, '\t');
    lemma_split_first(word_of(phase), last, '\t');
    lemma_split_first(assignment, project, '\t');
    lemma_split_first(project, seq![], '\t');
    let columns = split_at_char(line@, '\t');
    assert(columns =~= seq![name, plan_run, word_of(phase), assignment, project]);
    crate::sandbox::law_phase_is_read_back(phase, word_of(phase));
    assert(phase.label() == word_of(phase));
}

proof fn lemma_words_of_phases(phase: SandboxPhase)
    ensures
        !word_of(phase).contains('\t'),
{
    reveal_strlit("planning");
    reveal_strlit("implementation");
    reveal_strlit("review");
    reveal_strlit("merge");
    if word_of(phase).contains('\t') {
        let k = choose|k: int| 0 <= k < word_of(phase).len() && word_of(phase)[k] == '\t';
        assert(word_of(phase)[k] != '\t');
    }
}

/// A container without the two last columns is of no assignment and no known Project; a line
/// with fewer than three columns, or with an unknown phase, is no container.
pub proof fn law_short_line_is_read(
    line: &str,
    name: Seq<char>,
    plan_run: Seq<char>,
    phase: Seq<char>,
    container: Option<SandboxContainer>,
)
    requires
        call_ensures(parse_container_line, (line,), container),
        !name.contains('\t'),
        !plan_run.contains('\t'),
        !phase.contains('\t'),
    ensures
        line@ == name + seq!['\t'] + (plan_run + seq!['\t'] + phase) ==> (container is Some <==> (
        phase == "planning"@ || phase == "implementation"@ || phase == "review"@ || phase
            == "merge"@)),
        line@ == name + seq!['\t'] + (plan_run + seq!['\t'] + phase) && container is Some
            ==> container->0.assignment_id is None && container->0.project_id is None,
        line@ == name + seq!['\t'] + plan_run ==> container is None,
        line@ == name ==> container is None,
{
    lemma_split_first(name, plan_run + seq!['\t'] + phase, '\t');
    lemma_split_first(plan_run, phase, '\t');
    lemma_split_first(phase, seq![], '\t');
    lemma_split_first(name, plan_run, '\t');
    lemma_split_first(plan_run, seq![], '\t');
    if line@ == name + seq!['\t'] + (plan_run + seq!['\t'] + phase) {
        assert(split_at_char(line@, '\t') =~= seq![name, plan_run, phase]);
    }
    if line@ == name + seq!['\t'] + plan_run {
        assert(split_at_char(line@, '\t') =~= seq![name, plan_run]);
    }
}

/// The containers of a listing come in the order of their lines: one line more adds its
/// container behind the others, or nothing where it holds none.
pub proof fn law_listing_in_order(
    stdout: &str,
    containers: Vec<SandboxContainer>,
    text_lines: Seq<Seq<char>>,
    line: &str,
    container: Option<SandboxContainer>,
)
    requires
        call_ensures(parse_container_list, (stdout,), containers),
        call_ensures(parse_container_line, (line,), container),
        lines(stdout@) == text_lines.push(line@),
    ensures
        container is None ==> container_models(containers@) == listed_containers(text_lines),
        container matches Some(last) ==> container_models(containers@) == listed_containers(
            text_lines,
        ).push(last@),
        listed_containers(Seq::<Seq<char>>::empty()).len() == 0,
{
    assert(text_lines.push(line@).drop_last() =~= text_lines);
}

/// All containers with the label are listed, ended ones too, with the columns in the order in
/// which they are read. A container is killed and removed by its name, and removed by force.
pub proof fn law_docker_commands(
    ops: CliDockerOps,
    label_key: &str,
    container_name: &str,
    listing: Vec<String>,
    killing: Vec<String>,
    removing: Vec<String>,
)
    requires
        call_ensures(CliDockerOps::list_args, (&ops, label_key), listing),
        call_ensures(CliDockerOps::kill_args, (&ops, container_name), killing),
        call_ensures(CliDockerOps::rm_args, (&ops, container_name), removing),
    ensures
        views(listing@).take(5) == seq![
            "ps"@,
            "-a"@,
            "--filter"@,
            "label="@ + label_key@,
            "--format"@,
        ],
        views(listing@).len() == 6,
        views(listing@)[5]
            == "{{.Names}}\\t{{.Label \"agentic-afk.plan-run-id\"}}\\t{{.Label \"agentic-afk.phase\"}}\\t{{.Label \"agentic-afk.issue-assignment-id\"}}\\t{{.Label \"agentic-afk.project-id\"}}"@,
        views(killing@) == seq!["kill"@, container_name@],
        views(removing@) == seq!["rm"@, "-f"@, container_name@],
        crate::boot_container_sweeper::SWEEP_LABEL@ == "agentic-afk.plan-run-id"@,
{
    assert(views(listing@).take(5) =~= seq![
        "ps"@,
        "-a"@,
        "--filter"@,
        "label="@ + label_key@,
        "--format"@,
    ]);
}

/// A listing that ended well gives the containers of its lines. Any command of Docker that did
/// not is reported, with what it said; that of one container names the container.
pub proof fn law_docker_results(
    ops: CliDockerOps,
    run: CommandRun,
    container_name: &str,
    listed: Result<Vec<SandboxContainer>, String>,
    killed: Result<(), String>,
    removed: Result<(), String>,
)
    requires
        call_ensures(CliDockerOps::list_result, (&ops, &run), listed),
        call_ensures(CliDockerOps::kill_result, (&ops, container_name, &run), killed),
        call_ensures(CliDockerOps::rm_result, (&ops, container_name, &run), removed),
    ensures
        listed is Ok <==> ended_well(run),
        killed is Ok <==> ended_well(run),
        removed is Ok <==> ended_well(run),
        listed matches Ok(containers) ==> container_models(containers@) == listed_containers(
            lines(run->stdout@),
        ),
        run is NotStarted ==> ends_with(listed->Err_0@, run->NotStarted_error@) && ends_with(
            killed->Err_0@,
            run->NotStarted_error@,
        ) && ends_with(removed->Err_0@, run->NotStarted_error@),
        run is Ended && !ended_well(run) ==> ends_with(listed->Err_0@, run->stderr@)
            && contains_text(listed->Err_0@, run->status@) && ends_with(
            killed->Err_0@,
            trim(run->stderr@),
        ) && contains_text(killed->Err_0@, container_name@) && ends_with(
            removed->Err_0@,
            trim(run->stderr@),
        ) && contains_text(removed->Err_0@, container_name@),
{
    match run {
        CommandRun::NotStarted { error } => {
            lemma_middle("docker ps failed to spawn: "@, error@, seq![]);
            lemma_middle("docker kill"@, " failed to spawn: "@, error@);
            lemma_middle("docker rm -f"@, " failed to spawn: "@, error@);
        },
        CommandRun::Ended { success, status, stdout, stderr } => {
            let said = ": "@ + trim(stderr@);
            lemma_middle("docker ps exited with "@, status@, ": "@ + stderr@);
            assert("docker ps exited with "@ + status@ + ": "@ + stderr@
                =~= "docker ps exited with "@ + status@ + (": "@ + stderr@));
            lemma_middle("docker ps exited with "@ + status@, ": "@, stderr@);
            let killing = "docker kill"@ + " "@;
            let removing = "docker rm -f"@ + " "@;
            lemma_middle(killing, container_name@, said);
            assert(killing + container_name@ + ": "@ + trim(stderr@) =~= killing + container_name@
                + said);
            lemma_middle(killing + container_name@, ": "@, trim(stderr@));
            lemma_middle(removing, container_name@, said);
            assert(removing + container_name@ + ": "@ + trim(stderr@) =~= removing
                + container_name@ + said);
            lemma_middle(removing + container_name@, ": "@, trim(stderr@));
        },
    }
}

/// A phase is read from its own label alone.
pub proof fn law_phase_labels(
    phase: SandboxPhase,
    label: &'static str,
    text: &str,
    read: Option<SandboxPhase>,
    caps: (String, String, u32),
)
    requires
        call_ensures(SandboxPhase::as_label, (&phase,), label),
        call_ensures(SandboxPhase::from_label, (text,), read),
        call_ensures(SandboxLaunchSpec::default_caps, (), caps),
    ensures
        label@ == word_of(phase),
        read == Some(phase) <==> text@ == word_of(phase),
        caps.0@ == "8g"@ && caps.1@ == "2.0"@ && caps.2 == 512,
{
    crate::sandbox::law_phase_is_read_back(phase, text@);
}

// --- URLs ---

proof fn lemma_last_number(texts: Seq<Seq<char>>, i: int)
    requires
        0 <= i < texts.len(),
        read_u64(texts[i]) is Some,
        forall|k: int| i < k < texts.len() ==> read_u64(#[trigger] texts[k]) is None,
    ensures
        last_number(texts) == read_u64(texts[i]),
    decreases texts.len(),
{
    if i < texts.len() - 1 {
        assert(read_u64(texts[texts.len() - 1]) is None);
        let front = texts.drop_last();
        assert forall|k: int| i < k < front.len() implies read_u64(#[trigger] front[k]) is None by {
            assert(front[k] == texts[k]);
        }
        lemma_last_number(front, i);
    }
}

proof fn lemma_no_number(texts: Seq<Seq<char>>)
    requires
        forall|k: int| 0 <= k < texts.len() ==> read_u64(#[trigger] texts[k]) is None,
    ensures
        last_number(texts) is None,
    decreases texts.len(),
{
    if texts.len() > 0 {
        let front = texts.drop_last();
        assert forall|k: int| 0 <= k < front.len() implies read_u64(#[trigger] front[k])
            is None by {
            assert(front[k] == texts[k]);
        }
        lemma_no_number(front);
    }
}

/// The number of a pull request is the last part of its URL that is a number: parts behind it
/// that are none change nothing. A URL without a number has none.
pub proof fn law_pull_request_number(url: &str, number: Option<u64>, i: int)
    requires
        call_ensures(parse_pull_request_number, (url,), number),
    ensures
        0 <= i < split_at_char(url@, '/').len() && read_u64(split_at_char(url@, '/')[i]) is Some && (
        forall|k: int|
            i < k < split_at_char(url@, '/').len() ==> read_u64(
                #[trigger] split_at_char(url@, '/')[k],
            ) is None) ==> number == read_u64(split_at_char(url@, '/')[i]),
        (forall|k: int|
            0 <= k < split_at_char(url@, '/').len() ==> read_u64(
                #[trigger] split_at_char(url@, '/')[k],
            ) is None) ==> number is None,
{
    let parts = split_at_char(url@, '/');
    if 0 <= i < parts.len() && read_u64(parts[i]) is Some && (forall|k: int|
        i < k < parts.len() ==> read_u64(#[trigger] parts[k]) is None) {
        lemma_last_number(parts, i);
    }
    if forall|k: int| 0 <= k < parts.len() ==> read_u64(#[trigger] parts[k]) is None {
        lemma_no_number(parts);
    }
}

/// The number at the end of a URL is the number of its pull request.
pub proof fn law_number_at_the_end(url: &str, begin: Seq<char>, n: u64, number: Option<u64>)
    requires
        call_ensures(parse_pull_request_number, (url,), number),
        url@ == begin + seq!['/'] + decimal(n as nat),
    ensures
        number == Some(n),
{
    crate::numerals::law_read_decimal(n);
    crate::numerals::lemma_decimal_is_numeral(n as nat);
    assert(!decimal(n as nat).contains('/')) by {
        if decimal(n as nat).contains('/') {
            let k = choose|k: int|
                0 <= k < decimal(n as nat).len() && decimal(n as nat)[k] == '/';
            assert(crate::numerals::is_digit(decimal(n as nat)[k]));
        }
    }
    lemma_split_last(begin, decimal(n as nat), '/');
    let parts = split_at_char(url@, '/');
    lemma_last_number(parts, parts.len() - 1);
}

proof fn lemma_split_last(begin: Seq<char>, last: Seq<char>, ch: char)
    requires
        !last.contains(ch),
    ensures
        split_at_char(begin + seq![ch] + last, ch).len() > 0,
        split_at_char(begin + seq![ch] + last, ch).last() == last,
    decreases begin.len(),
{
    let text = begin + seq![ch] + last;
    lemma_index_of_char(begin, ch);
    let at = index_of_char(begin, ch);
    if at < begin.len() {
        let first = begin.take(at);
        let rest = begin.skip(at + 1);
        assert(!first.contains(ch)) by {
            if first.contains(ch) {
                let k = choose|k: int| 0 <= k < first.len() && first[k] == ch;
                assert(begin[k] == ch);
            }
        }
        assert(text =~= first + seq![ch] + (rest + seq![ch] + last));
        lemma_split_first(first, rest + seq![ch] + last, ch);
        lemma_split_last(rest, last, ch);
    } else {
        assert(!begin.contains(ch));
        lemma_split_first(begin, last, ch);
        lemma_split_first(last, seq![], ch);
    }
}

// --- JSON ---

proof fn lemma_field(fields: Seq<(Seq<char>, JsonModel)>, key: Seq<char>, i: int)
    ensures
        0 <= i < fields.len() && fields[i].0 == key && (forall|k: int|
            0 <= k < i ==> (#[trigger] fields[k]).0 != key) ==> field_of(fields, key) == Some(
            fields[i].1,
        ),
        (forall|k: int| 0 <= k < fields.len() ==> (#[trigger] fields[k]).0 != key) ==> field_of(
            fields,
            key,
        ) is None,
    decreases fields.len(),
{
    if fields.len() > 0 {
        let rest = fields.skip(1);
        lemma_field(rest, key, i - 1);
        assert(forall|k: int| 0 <= k < rest.len() ==> #[trigger] rest[k] == fields[k + 1]);
        if 0 < i < fields.len() {
            assert(rest[i - 1] == fields[i]);
        }
    }
}

/// The field of an object is the first one with its name, and there is one if and only if a
/// field has the name. What is no object has no fields.
pub proof fn law_field_is_found(
    json: &Json,
    key: &str,
    value: Option<&Json>,
    fields: Seq<(Seq<char>, JsonModel)>,
    i: int,
)
    requires
        call_ensures(Json::get, (json, key), value),
    ensures
        json@ == JsonModel::Object(fields) && 0 <= i < fields.len() && fields[i].0 == key@ && (
        forall|k: int| 0 <= k < i ==> (#[trigger] fields[k]).0 != key@) ==> (value matches Some(
            found,
        ) && found@ == fields[i].1),
        json@ == JsonModel::Object(fields) && (forall|k: int|
            0 <= k < fields.len() ==> (#[trigger] fields[k]).0 != key@) ==> value is None,
        !(json@ is Object) ==> value is None,
{
    lemma_field(fields, key@, i);
}

/// A text, a list and a number are read of a field of their kind alone.
pub proof fn law_kinds_of_fields(
    json: &Json,
    key: &str,
    value: Option<&Json>,
    text: Option<&String>,
    items: Option<&Vec<Json>>,
    number: Option<u64>,
)
    requires
        call_ensures(Json::get, (json, key), value),
        call_ensures(Json::text_at, (json, key), text),
        call_ensures(Json::array_at, (json, key), items),
        call_ensures(Json::unsigned_at, (json, key), number),
    ensures
        text is Some <==> (value matches Some(found) && found@ is Text),
        text matches Some(read) ==> value->0@ == JsonModel::Text(read@),
        items is Some <==> (value matches Some(found) && found@ is Array),
        number is Some <==> (value matches Some(found) && found@ is Unsigned),
        number matches Some(read) ==> value->0@ == JsonModel::Unsigned(read),
{
}

/// Bytes are written as two hexadecimal digits each, the higher one first, in their order.
pub proof fn law_hexadecimal(bytes: Seq<u8>, byte: u8)
    ensures
        hex(bytes.push(byte)).len() == hex(bytes).len() + 2,
        hex(bytes.push(byte)).take(hex(bytes).len() as int) == hex(bytes),
        hex(bytes.push(byte))[hex(bytes).len() as int] == hex_digit_of((byte / 16) as int),
        hex(bytes.push(byte))[hex(bytes).len() + 1int] == hex_digit_of((byte % 16) as int),
        hex(Seq::<u8>::empty()).len() == 0,
{
    reveal_strlit("0123456789abcdef");
    assert(bytes.push(byte).drop_last() =~= bytes);
    assert(hex(bytes.push(byte)).take(hex(bytes).len() as int) =~= hex(bytes));
}

/// The hexadecimal digit with the value.
pub open spec fn hex_digit_of(value: int) -> char {
    "0123456789abcdef"@[value]
}

// --- The prompts of a recovery and of a repair ---

/// The line with the fact, where it is known.
pub open spec fn fact_line(label: Seq<char>, fact: Option<&str>) -> Seq<char> {
    if fact is Some {
        label + fact->0@ + "\n"@
    } else {
        seq![]
    }
}

/// The prompt of a recovery names the issue, its worktree and its branch, and, where they are
/// known, the process that was stopped and why it was blocked; the issue follows word for word.
pub proof fn law_recovery_prompt(facts: RecoveryPromptFacts<'_>, prompt: String)
    requires
        call_ensures(build_recovery_prompt, (facts,), prompt),
    ensures
        ends_with(
            prompt@,
            "Source Issue: "@ + facts.source_id@ + "\n"@ + "Assignment Worktree: "@
                + facts.assignment_worktree_path@ + "\n"@ + "Assignment Branch: "@
                + facts.assignment_branch@ + "\n"@ + fact_line(
                "Prior Codex process identity (now stopped): "@,
                facts.prior_process_identity,
            ) + fact_line("Prior block reason: "@, facts.prior_block_reason)
                + "\n--- Source Issue (verbatim) ---\n"@ + facts.source_issue_raw_text@,
        ),
{
    reveal_strlit("");
    let begin =
        "This is a recovery Assignment Attempt: a prior Codex process was blocked while implementing this Issue Assignment. Continue the work in the existing Assignment Worktree. Do not restart from a clean checkout.\n\n"@;
    let rest = "Source Issue: "@ + facts.source_id@ + "\n"@ + "Assignment Worktree: "@
        + facts.assignment_worktree_path@ + "\n"@ + "Assignment Branch: "@
        + facts.assignment_branch@ + "\n"@ + fact_line(
        "Prior Codex process identity (now stopped): "@,
        facts.prior_process_identity,
    ) + fact_line("Prior block reason: "@, facts.prior_block_reason)
        + "\n--- Source Issue (verbatim) ---\n"@ + facts.source_issue_raw_text@;
    assert(fact_line(
        "Prior Codex process identity (now stopped): "@,
        facts.prior_process_identity,
    ) =~= crate::recover::optional_line(
        "Prior Codex process identity (now stopped): "@,
        facts.prior_process_identity,
    ));
    assert(fact_line("Prior block reason: "@, facts.prior_block_reason)
        =~= crate::recover::optional_line("Prior block reason: "@, facts.prior_block_reason));
    assert(prompt@ =~= begin + rest);
    lemma_middle(begin, rest, seq![]);
}

/// The prompt of a repair names the issue, its proposal and its branch, what is known of the
/// worktree, and the checks that failed, and ends in the brief of the issue.
pub proof fn law_repair_prompt(facts: RepairPromptFacts<'_>, prompt: String)
    requires
        call_ensures(build_repair_prompt, (&facts,), prompt),
    ensures
        ends_with(
            prompt@,
            "Source Issue: "@ + facts.source_id@ + " "@ + facts.source_title@ + "\n"@
                + "Change Proposal: "@ + facts.change_proposal_url@ + "\nAssignment branch: "@
                + facts.branch@ + "\n\n"@ + (if facts.verified_worktree_facts is Some {
                "Verified worktree facts:\n"@ + trim_end_char(
                    facts.verified_worktree_facts->0@,
                    '\n',
                ) + "\n\n"@
            } else {
                seq![]
            }) + "Failed required checks:\n"@ + (if facts.failed_checks@.len() == 0 {
                "- (none reported)\n"@
            } else {
                check_lines(facts.failed_checks@)
            }) + "\nOriginal Source Issue brief:\n"@ + trim_end_char(facts.source_raw_text@, '\n')
                + "\n"@,
        ),
{
    reveal_strlit("");
    let begin =
        "Repair this Change Proposal's failed required checks inside the existing Assignment Worktree.\n"@
        + "Do not start fresh; keep prior assignment work and only address the failed checks.\n\n"@;
    let rest = "Source Issue: "@ + facts.source_id@ + " "@ + facts.source_title@ + "\n"@
        + "Change Proposal: "@ + facts.change_proposal_url@ + "\nAssignment branch: "@
        + facts.branch@ + "\n\n"@ + (if facts.verified_worktree_facts is Some {
        "Verified worktree facts:\n"@ + trim_end_char(facts.verified_worktree_facts->0@, '\n')
            + "\n\n"@
    } else {
        seq![]
    }) + "Failed required checks:\n"@ + (if facts.failed_checks@.len() == 0 {
        "- (none reported)\n"@
    } else {
        check_lines(facts.failed_checks@)
    }) + "\nOriginal Source Issue brief:\n"@ + trim_end_char(facts.source_raw_text@, '\n') + "\n"@;
    assert(prompt@ =~= begin + rest);
    lemma_middle(begin, rest, seq![]);
}

/// Each failed check has a line of its own, in their order: its name, where it can be looked at
/// and what it said, as far as this is known.
pub proof fn law_failed_checks_are_listed(checks: Seq<FailedCheckFact>, last: FailedCheckFact)
    ensures
        check_lines(checks.push(last)) == check_lines(checks) + ("- "@ + last.name@ + (
        if last.url is Some {
            " ("@ + last.url->0@ + ")"@
        } else {
            seq![]
        }) + (if last.summary is Some {
            ": "@ + last.summary->0@
        } else {
            seq![]
        }) + "\n"@),
        check_lines(Seq::<FailedCheckFact>::empty()).len() == 0,
{
    reveal_strlit("");
    assert(checks.push(last).drop_last() =~= checks);
    assert(crate::repair::check_line(last) =~= "- "@ + last.name@ + (if last.url is Some {
        " ("@ + last.url->0@ + ")"@
    } else {
        seq![]
    }) + (if last.summary is Some {
        ": "@ + last.summary->0@
    } else {
        seq![]
    }) + "\n"@);
}

// --- Processes ---

/// A process is recorded by the first write that succeeds; from then on nothing is written, and
/// recording succeeds. A write that failed is handed back, and may be tried again.
pub proof fn law_process_is_recorded(
    recorder: &mut PhaseProcessRecorder,
    written: Result<(), PersistenceError>,
    result: Result<(), PersistenceError>,
    wanted: bool,
    wanted_next: bool,
)
    requires
        call_ensures(PhaseProcessRecorder::record, (recorder, written), result),
        call_ensures(PhaseProcessRecorder::wants_write, (&*old(recorder),), wanted),
        call_ensures(PhaseProcessRecorder::wants_write, (&*final(recorder),), wanted_next),
    ensures
        !wanted ==> result is Ok && !wanted_next,
        wanted ==> result == written,
        wanted && written is Ok ==> !wanted_next,
        wanted && written is Err ==> wanted_next,
        final(recorder).row_id == old(recorder).row_id,
{
}

// --- Documents ---

/// A document keeps its text, and holds what the text parses to; where the text does not parse,
/// the message of the parser is the error.
pub proof fn law_document_is_parsed(
    text: &str,
    result: Result<JsonDocument, String>,
    bytes: &Vec<u8>,
    read: Result<Json, String>,
    list: Result<Vec<Json>, String>,
)
    requires
        call_ensures(JsonDocument::parse, (text,), result),
        call_ensures(parse_json_bytes, (bytes,), read),
        call_ensures(parse_json_list, (text,), list),
    ensures
        match json_value_of(text@) {
            Ok(value) => result matches Ok(document) && document.text@ == text@
                && document.value@ == value_contents(value),
            Err(message) => result matches Err(said) && said@ == message,
        },
        match json_value_of_bytes(bytes@) {
            Ok(value) => read matches Ok(json) && json@ == value_contents(value),
            Err(message) => read matches Err(said) && said@ == message,
        },
        json_list_of(text@) matches Ok(values) ==> (list matches Ok(items) && items@.len()
            == values.len() && forall|i: int|
            0 <= i < values.len() ==> (#[trigger] items@[i])@ == value_contents(values[i])),
        json_list_of(text@) matches Err(message) ==> (list matches Err(said) && said@ == message),
{
    if let Ok(values) = json_list_of(text@) {
        if let Ok(items) = list {
            crate::json::lemma_item_models(items@);
            assert forall|i: int| 0 <= i < values.len() implies (#[trigger] items@[i])@
                == value_contents(values[i]) by {
                assert(item_models(items@)[i] == items@[i]@);
            }
        }
    }
}

/// A document prints as its text parses: with indentation and without. A copy prints as the
/// document does.
pub proof fn law_document_is_printed(
    document: JsonDocument,
    value: serde_json::Value,
    printed: Seq<char>,
    pretty: String,
    compact: String,
    copy: JsonDocument,
)
    requires
        call_ensures(JsonDocument::pretty, (&document,), pretty),
        call_ensures(JsonDocument::compact, (&document,), compact),
        call_ensures(JsonDocument::copied, (&document,), copy),
        json_value_of(document.text@) == Ok::<serde_json::Value, Seq<char>>(value),
    ensures
        value_pretty(value) == Ok::<Seq<char>, Seq<char>>(printed) ==> pretty@ == printed,
        compact@ == value_display(value),
        copy.text == document.text && copy.value@ == document.value@,
{
}

} // verus!
