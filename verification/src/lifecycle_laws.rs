//! What writing a Lifecycle Status back does to an issue.

use vstd::prelude::*;

#[allow(unused_imports)]
use crate::command::CommandRun;
#[allow(unused_imports)]
use crate::command_laws::{ended_well, ends_with, lemma_middle};
#[allow(unused_imports)]
use crate::contracts::{IssueSource, SourceIssueSnapshot};
#[allow(unused_imports)]
use crate::lifecycle::{
    github_args, github_write_result, insertion_point, is_inside, issue_file_name,
    parse_local_markdown_issue_minimal, update_markdown_lifecycle_status,
    write_assignment_lifecycle, write_github_lifecycle, GhLifecycleWriter, LifecycleWrite,
    LocalWriteFailure,
};
#[allow(unused_imports)]
use crate::plan_run::{LifecycleStatus, PlanRunPhaseError};
#[allow(unused_imports)]
use crate::text::{
    ascii_lower, begins_with, contains_text, is_white_space, leading_space, lemma_leading_space,
    trim, trim_end_char, trim_start, views,
};
#[allow(unused_imports)]
use crate::text_parts::{join, lines};

verus! {

// --- What `gh issue edit` does ---

/// The option with the number `j`: its name and its value.
pub open spec fn option_at(args: Seq<Seq<char>>, j: int) -> (Seq<char>, Seq<char>) {
    (args[3 + 2 * j], args[4 + 2 * j])
}

/// The command gives the option with the value. Behind the three words that name the
/// command and the issue, names and values of options alternate.
pub open spec fn gives_option(args: Seq<Seq<char>>, name: Seq<char>, value: Seq<char>) -> bool {
    exists|j: int|
        0 <= j && 4 + 2 * j < args.len() && #[trigger] option_at(args, j) == (name, value)
}

/// The labels of the issue after `gh issue edit`: those that are to be removed are gone,
/// and those that are to be added are there.
pub open spec fn labels_after(had: Set<Seq<char>>, args: Seq<Seq<char>>) -> Set<Seq<char>> {
    Set::new(
        |label: Seq<char>|
            gives_option(args, "--add-label"@, label) || (had.contains(label) && !gives_option(
                args,
                "--remove-label"@,
                label,
            )),
    )
}

/// The command edits this issue of this repository.
pub open spec fn edits_issue(args: Seq<Seq<char>>, source_id: Seq<char>, locator: Seq<char>) -> bool {
    &&& args.len() >= 3
    &&& args[0] == "issue"@
    &&& args[1] == "edit"@
    &&& args[2] == source_id
    &&& gives_option(args, "--repo"@, locator)
    &&& forall|other: Seq<char>| #[trigger]
        gives_option(args, "--repo"@, other) ==> other == locator
}

/// The label is one that a Lifecycle Status has on GitHub.
pub open spec fn is_lifecycle_label(label: Seq<char>) -> bool {
    ||| label == "agentic-afk:claimed"@
    ||| label == "agentic-afk:running"@
    ||| label == "agentic-afk:blocked"@
    ||| label == "agentic-afk:completed"@
}

/// The issue carries the label of the status, and no other lifecycle label; all its other
/// labels are as they were.
pub open spec fn carries_status(
    had: Set<Seq<char>>,
    now: Set<Seq<char>>,
    status: Seq<char>,
) -> bool {
    &&& now.contains("agentic-afk:"@ + status)
    &&& forall|label: Seq<char>|
        #![trigger is_lifecycle_label(label)]
        is_lifecycle_label(label) && label != "agentic-afk:"@ + status ==> !now.contains(label)
    &&& forall|label: Seq<char>|
        !is_lifecycle_label(label) && label != "agentic-afk:"@ + status ==> (#[trigger] now.contains(
            label,
        ) <==> had.contains(label))
}

proof fn lemma_option_names()
    ensures
        "--repo"@ != "--add-label"@,
        "--repo"@ != "--remove-label"@,
        "--add-label"@ != "--remove-label"@,
{
    reveal_strlit("--repo");
    reveal_strlit("--add-label");
    reveal_strlit("--remove-label");
    assert("--repo"@.len() == 6 && "--add-label"@.len() == 11 && "--remove-label"@.len() == 14);
}

/// Whatever labels the issue had, after a status was written back to GitHub it has the
/// label of that status and no other one of the lifecycle; its other labels stay. It is
/// the issue that was meant, in the repository that was meant.
pub proof fn law_github_issue_carries_the_status(
    locator: &str,
    source_id: &str,
    status: &str,
    args: Vec<String>,
    had: Set<Seq<char>>,
)
    requires
        call_ensures(write_github_lifecycle, (locator, source_id, status), args),
    ensures
        edits_issue(views(args@), source_id@, locator@),
        carries_status(had, labels_after(had, views(args@)), status@),
{
    lemma_edits(locator@, source_id@, status@, views(args@), had);
}

proof fn lemma_edits(
    locator: Seq<char>,
    source_id: Seq<char>,
    status: Seq<char>,
    args: Seq<Seq<char>>,
    had: Set<Seq<char>>,
)
    requires
        args == github_args(locator, source_id, status),
    ensures
        edits_issue(args, source_id, locator),
        carries_status(had, labels_after(had, args), status),
{
    lemma_option_names();
    let new = "agentic-afk:"@ + status;
    assert(args.len() == 15);
    assert(option_at(args, 0) == ("--repo"@, locator));
    assert(option_at(args, 1) == ("--remove-label"@, "agentic-afk:claimed"@));
    assert(option_at(args, 2) == ("--remove-label"@, "agentic-afk:running"@));
    assert(option_at(args, 3) == ("--remove-label"@, "agentic-afk:blocked"@));
    assert(option_at(args, 4) == ("--remove-label"@, "agentic-afk:completed"@));
    assert(option_at(args, 5) == ("--add-label"@, new));
    assert forall|label: Seq<char>| #[trigger]
        gives_option(args, "--remove-label"@, label) <==> is_lifecycle_label(label) by {
        if gives_option(args, "--remove-label"@, label) {
            let j = choose|j: int|
                0 <= j && 4 + 2 * j < args.len() && #[trigger] option_at(args, j) == ("--remove-label"@, label);
            assert(j == 0 || j == 1 || j == 2 || j == 3 || j == 4 || j == 5);
        }
    }
    assert forall|label: Seq<char>| #[trigger]
        gives_option(args, "--add-label"@, label) <==> label == new by {
        if gives_option(args, "--add-label"@, label) {
            let j = choose|j: int|
                0 <= j && 4 + 2 * j < args.len() && #[trigger] option_at(args, j) == ("--add-label"@, label);
            assert(j == 0 || j == 1 || j == 2 || j == 3 || j == 4 || j == 5);
        }
    }
    assert forall|other: Seq<char>| #[trigger]
        gives_option(args, "--repo"@, other) implies other == locator by {
        let j = choose|j: int|
                0 <= j && 4 + 2 * j < args.len() && #[trigger] option_at(args, j) == ("--repo"@, other);
        assert(j == 0 || j == 1 || j == 2 || j == 3 || j == 4 || j == 5);
    }
}

/// The word that a Lifecycle Status is written as.
pub open spec fn status_word(status: LifecycleStatus) -> Seq<char> {
    match status {
        LifecycleStatus::Ready => "ready"@,
        LifecycleStatus::Claimed => "claimed"@,
        LifecycleStatus::Running => "running"@,
        LifecycleStatus::Blocked => "blocked"@,
        LifecycleStatus::Completed => "completed"@,
    }
}

/// The writer of a Project writes the status that it was given, to the Issue Source that
/// it was made for: on GitHub the issue carries it afterwards, and a local markdown issue
/// is rewritten. Other Issue Sources are refused.
pub proof fn law_writer_writes_the_status(
    writer: GhLifecycleWriter,
    source_id: &str,
    status: LifecycleStatus,
    write: Result<LifecycleWrite, PlanRunPhaseError>,
    had: Set<Seq<char>>,
)
    requires
        call_ensures(GhLifecycleWriter::plan_write, (&writer, source_id, status), write),
    ensures
        writer.source.kind@ == "github"@ ==> (write matches Ok(LifecycleWrite::Github { args })
            && edits_issue(views(args@), source_id@, writer.source.locator@) && carries_status(
            had,
            labels_after(had, views(args@)),
            status_word(status),
        )),
        writer.source.kind@ == "local_markdown"@ ==> (write matches Ok(
            LifecycleWrite::LocalMarkdown,
        )),
        writer.source.kind@ != "github"@ && writer.source.kind@ != "local_markdown"@ ==> write
            is Err,
{
    reveal_strlit("github");
    reveal_strlit("local_markdown");
    assert("github"@.len() == 6 && "local_markdown"@.len() == 14);
    if let Ok(LifecycleWrite::Github { args }) = write {
        lemma_edits(writer.source.locator@, source_id@, status.wire(), views(args@), had);
    }
}

/// A status is written back to the kind of Issue Source that the issue comes from.
pub proof fn law_write_fits_the_source(
    source: IssueSource,
    source_id: &str,
    status: &str,
    write: Result<LifecycleWrite, String>,
    had: Set<Seq<char>>,
)
    requires
        call_ensures(write_assignment_lifecycle, (&source, source_id, status), write),
    ensures
        source.kind@ == "github"@ ==> (write matches Ok(LifecycleWrite::Github { args })
            && edits_issue(views(args@), source_id@, source.locator@) && carries_status(
            had,
            labels_after(had, views(args@)),
            status@,
        )),
        source.kind@ == "local_markdown"@ ==> (write matches Ok(LifecycleWrite::LocalMarkdown)),
        source.kind@ != "github"@ && source.kind@ != "local_markdown"@ ==> write is Err,
{
    reveal_strlit("github");
    reveal_strlit("local_markdown");
    assert("github"@.len() == 6 && "local_markdown"@.len() == 14);
    if let Ok(LifecycleWrite::Github { args }) = write {
        lemma_edits(source.locator@, source_id@, status@, views(args@), had);
    }
}

// --- Local markdown ---

/// The line states a Lifecycle Status.
pub open spec fn states_status(line: Seq<char>) -> bool {
    begins_with(ascii_lower(trim_start(line)), "lifecycle status"@) && contains_text(
        trim_start(line),
        ":"@,
    )
}

/// The line is the old one as far as its indentation goes, and states the status behind it.
pub open spec fn states_anew(old_line: Seq<char>, line: Seq<char>, status: Seq<char>) -> bool {
    exists|space: int|
        0 <= space <= old_line.len() && (forall|k: int|
            0 <= k < space ==> is_white_space(#[trigger] old_line[k])) && (space < old_line.len()
            ==> !is_white_space(old_line[space])) && line == #[trigger] old_line.take(space) + (
        "Lifecycle Status: "@ + status)
}

/// A text that states a status is rewritten line by line: the lines that state one state the
/// new one, at their indentation, and all others stay as they are.
pub proof fn law_stated_status_is_rewritten(
    raw_text: String,
    status: &str,
    text: String,
    stated: int,
)
    requires
        call_ensures(update_markdown_lifecycle_status, (raw_text, status), text),
        0 <= stated < lines(raw_text@).len(),
        states_status(lines(raw_text@)[stated]),
    ensures
        exists|new: Seq<Seq<char>>| #[trigger]
            join(new, "\n"@) == text@ && new.len() == lines(raw_text@).len() && (forall|i: int|
                #![trigger new[i]]
                0 <= i < new.len() ==> if states_status(lines(raw_text@)[i]) {
                    states_anew(lines(raw_text@)[i], new[i], status@)
                } else {
                    new[i] == lines(raw_text@)[i]
                }),
{
    let old_lines = lines(raw_text@);
    assert(crate::lifecycle::is_status_line(old_lines[stated]));
    let new = crate::lifecycle::updated_lines(old_lines, status@);
    assert(join(new, "\n"@) == text@);
    assert forall|i: int| #![trigger new[i]] 0 <= i < new.len() implies if states_status(
        old_lines[i],
    ) {
        states_anew(old_lines[i], new[i], status@)
    } else {
        new[i] == old_lines[i]
    } by {
        if states_status(old_lines[i]) {
            let line = old_lines[i];
            lemma_leading_space(line);
            let space = leading_space(line);
            assert(new[i] == line.take(space) + ("Lifecycle Status: "@ + status@));
            assert(states_anew(line, new[i], status@));
        }
    }
}

/// What is put behind a statement that another line follows: the white space that this line
/// begins with, or an empty line more where it begins with none. At the end nothing is.
pub open spec fn is_gap(text_lines: Seq<Seq<char>>, at: int, gap: Seq<Seq<char>>) -> bool {
    if at >= text_lines.len() {
        gap.len() == 0
    } else {
        let line = text_lines[at];
        &&& gap.len() == 1
        &&& if line.len() == 0 || !is_white_space(line[0]) {
            gap[0] == "\n"@
        } else {
            &&& gap[0].len() <= line.len()
            &&& gap[0] == line.take(gap[0].len() as int)
            &&& forall|k: int| 0 <= k < gap[0].len() ==> is_white_space(#[trigger] gap[0][k])
            &&& gap[0].len() < line.len() ==> !is_white_space(line[gap[0].len() as int])
        }
    }
}

/// A text that states no status keeps every line in its place and gets the statement between
/// two of them, or at an end: behind the first heading, at the first empty line behind it where
/// there is one, and at the top without a heading.
pub proof fn law_new_status_is_inserted(
    raw_text: String,
    status: &str,
    text: String,
)
    requires
        call_ensures(update_markdown_lifecycle_status, (raw_text, status), text),
        forall|i: int|
            0 <= i < lines(raw_text@).len() ==> !states_status(#[trigger] lines(raw_text@)[i]),
    ensures
        exists|at: int, gap: Seq<Seq<char>>|
            0 <= at <= lines(raw_text@).len() && is_gap(lines(raw_text@), at, gap)
                && #[trigger] join(
                lines(raw_text@).take(at) + seq!["Lifecycle Status: "@ + status@] + gap + lines(
                    raw_text@,
                ).skip(at),
                "\n"@,
            ) == text@ && goes_behind_the_title(lines(raw_text@), at),
{
    let old_lines = lines(raw_text@);
    let at = insertion_point(old_lines);
    let stated = "Lifecycle Status: "@ + status@;
    assert(!crate::lifecycle::has_status_line(old_lines)) by {
        if crate::lifecycle::has_status_line(old_lines) {
            let i = choose|i: int|
                0 <= i < old_lines.len() && crate::lifecycle::is_status_line(
                    #[trigger] old_lines[i],
                );
            assert(!states_status(old_lines[i]));
        }
    }
    lemma_heading(old_lines, 0);
    let heading = crate::lifecycle::heading_from(old_lines, 0);
    if heading < old_lines.len() {
        lemma_blank(old_lines, heading + 1);
    }
    let new = crate::lifecycle::updated_lines(old_lines, status@);
    if at < old_lines.len() {
        let gap = seq![crate::lifecycle::spacer(old_lines[at])];
        lemma_leading_space(old_lines[at]);
        let line = old_lines[at];
        let space = leading_space(line);
        if line.len() > 0 && is_white_space(line[0]) {
            assert(space > 0);
            assert(gap[0] =~= line.take(space));
            assert(forall|k: int| 0 <= k < space ==> gap[0][k] == line[k]);
        } else {
            assert(space == 0);
        }
        assert(is_gap(old_lines, at, gap));
        assert(new =~= old_lines.take(at) + seq![stated] + gap + old_lines.skip(at));
        assert(join(old_lines.take(at) + seq![stated] + gap + old_lines.skip(at), "\n"@) == text@);
    } else {
        let gap = Seq::<Seq<char>>::empty();
        assert(new =~= old_lines.take(at) + seq![stated] + gap + old_lines.skip(at));
        assert(join(old_lines.take(at) + seq![stated] + gap + old_lines.skip(at), "\n"@) == text@);
    }
}

/// The line is a title.
pub open spec fn is_title(line: Seq<char>) -> bool {
    begins_with(trim_start(line), "# "@)
}

/// The place is the one behind the title: that of the first empty line behind the first title,
/// or right behind the title where no empty line follows; the first place without a title.
pub open spec fn goes_behind_the_title(text_lines: Seq<Seq<char>>, at: int) -> bool {
    ||| at == 0 && forall|i: int| 0 <= i < text_lines.len() ==> !is_title(#[trigger] text_lines[i])
    ||| exists|title: int|
        0 <= title < at && is_title(#[trigger] text_lines[title]) && (forall|i: int|
            0 <= i < title ==> !is_title(#[trigger] text_lines[i])) && (if at < text_lines.len()
            && trim(text_lines[at]).len() == 0 {
            forall|i: int| title < i < at ==> trim(#[trigger] text_lines[i]).len() > 0
        } else {
            at == title + 1 && forall|i: int|
                title < i < text_lines.len() ==> trim(#[trigger] text_lines[i]).len() > 0
        })
}

proof fn lemma_heading(text_lines: Seq<Seq<char>>, from: int)
    requires
        0 <= from <= text_lines.len(),
    ensures
        from <= crate::lifecycle::heading_from(text_lines, from) <= text_lines.len(),
        forall|i: int|
            from <= i < crate::lifecycle::heading_from(text_lines, from) ==> !is_title(
                #[trigger] text_lines[i],
            ),
        crate::lifecycle::heading_from(text_lines, from) < text_lines.len() ==> is_title(
            text_lines[crate::lifecycle::heading_from(text_lines, from)],
        ),
    decreases text_lines.len() - from,
{
    if from < text_lines.len() && !crate::lifecycle::is_heading(text_lines[from]) {
        lemma_heading(text_lines, from + 1);
    }
}

proof fn lemma_blank(text_lines: Seq<Seq<char>>, from: int)
    requires
        0 <= from <= text_lines.len(),
    ensures
        from <= crate::lifecycle::blank_from(text_lines, from) <= text_lines.len(),
        forall|i: int|
            from <= i < crate::lifecycle::blank_from(text_lines, from) ==> trim(
                #[trigger] text_lines[i],
            ).len() > 0,
        crate::lifecycle::blank_from(text_lines, from) < text_lines.len() ==> trim(
            text_lines[crate::lifecycle::blank_from(text_lines, from)],
        ).len() == 0,
    decreases text_lines.len() - from,
{
    if from < text_lines.len() && !crate::lifecycle::is_blank(text_lines[from]) {
        lemma_blank(text_lines, from + 1);
    }
}

/// The issue whose status was just written has its text and its identifier, and is ready. Its
/// file is named after it.
pub proof fn law_written_issue_is_ready(
    source_id: String,
    raw_text: String,
    issue: SourceIssueSnapshot,
    id: &str,
    name: String,
)
    requires
        call_ensures(parse_local_markdown_issue_minimal, (source_id, raw_text), issue),
        call_ensures(issue_file_name, (id,), name),
    ensures
        issue.source_id == source_id,
        issue.title == source_id,
        issue.raw_text == raw_text,
        issue.readiness@ == "ready"@,
        issue.lifecycle_status@ == "ready"@,
        issue.parent_issue is None,
        issue.issue_dependencies@.len() == 0,
        issue.source_order == 0,
        name@ == id@ + ".md"@,
{
}

/// A directory is inside its root if it is the root or lies below it. One whose path only
/// begins with the same letters is not.
pub proof fn law_inside(root: &str, directory: &str, rest: Seq<char>, yes: bool)
    requires
        call_ensures(is_inside, (root, directory), yes),
        root@.len() > 0,
        root@.last() != '/',
    ensures
        directory@ == root@ ==> yes,
        directory@ == root@ + "/"@ + rest ==> yes,
        directory@ == root@ + rest && rest.len() > 0 && rest[0] != '/' ==> !yes,
        yes && directory@ != root@ ==> directory@.len() > root@.len() && directory@.take(
            root@.len() as int,
        ) == root@ && directory@[root@.len() as int] == '/',
{
    reveal_strlit("/");
    let below = trim_end_char(root@, '/') + "/"@;
    assert(trim_end_char(root@, '/') == root@);
    assert(below.len() == root@.len() + 1);
    if directory@ == root@ + "/"@ + rest {
        assert(directory@.subrange(0, below.len() as int) =~= below);
    }
    if begins_with(directory@, below) {
        let head = directory@.subrange(0, below.len() as int);
        assert(head == below);
        assert(head[root@.len() as int] == '/');
        assert(directory@[root@.len() as int] == '/');
        assert(directory@.take(root@.len() as int) =~= head.take(root@.len() as int));
        assert(below.take(root@.len() as int) =~= root@);
    }
}

/// A status that could not be written is reported by what failed.
pub proof fn law_local_failure_text(failure: LocalWriteFailure, text: String)
    requires
        call_ensures(LocalWriteFailure::message, (&failure,), text),
    ensures
        match failure {
            LocalWriteFailure::ProjectPath { error } => text@ == "failed to resolve Project path: "@
                + error@,
            LocalWriteFailure::SourceDirectory { error } => text@
                == "failed to read local markdown Issue Source: "@ + error@,
            LocalWriteFailure::OutsideProject => text@
                == "local markdown Issue Source must be inside the Project path"@,
            LocalWriteFailure::IssueMissing { source_id } => text@ == "Source Issue not found: "@
                + source_id@,
            LocalWriteFailure::Write { error } => text@ == "failed to write Source Issue file: "@
                + error@,
            LocalWriteFailure::ReadBack { error } => text@
                == "failed to read updated Source Issue file: "@ + error@,
        },
{
}

/// A write-back to GitHub succeeds if and only if `gh` ended well. Its error says what `gh`
/// said; and the writer of a Project reports that error as one of the lifecycle.
pub proof fn law_github_write_result(
    run: CommandRun,
    result: Result<(), String>,
    writer: GhLifecycleWriter,
    reported: Result<(), PlanRunPhaseError>,
)
    requires
        call_ensures(github_write_result, (&run,), result),
        call_ensures(GhLifecycleWriter::result, (&writer, result), reported),
    ensures
        result is Ok <==> ended_well(run),
        reported is Ok <==> ended_well(run),
        result matches Err(message) ==> (match run {
            CommandRun::NotStarted { error } => ends_with(message@, error@),
            CommandRun::Ended { success, status, stdout, stderr } => {
                &&& trim(stderr@).len() > 0 ==> ends_with(message@, trim(stderr@))
                &&& trim(stderr@).len() == 0 && trim(stdout@).len() > 0 ==> ends_with(
                    message@,
                    trim(stdout@),
                )
                &&& trim(stderr@).len() == 0 && trim(stdout@).len() == 0 ==> ends_with(
                    message@,
                    "gh exited with status "@ + status@,
                )
            },
        }),
        reported matches Err(error) ==> (error matches PlanRunPhaseError::LifecycleWrite(message)
            && result == Err::<(), String>(message)),
{
    match run {
        CommandRun::NotStarted { error } => {
            lemma_middle("failed to run GitHub lifecycle write-back: "@, error@, seq![]);
        },
        CommandRun::Ended { success, status, stdout, stderr } => {
            let begin = "failed to write GitHub Issue lifecycle: "@;
            lemma_middle(begin, trim(stderr@), seq![]);
            lemma_middle(begin, trim(stdout@), seq![]);
            lemma_middle(begin, "gh exited with status "@ + status@, seq![]);
        },
    }
}

} // verus!
