//! Writing a Lifecycle Status back to the Issue Source.

use vstd::prelude::*;

use crate::command::{failure_text, CommandRun};
#[allow(unused_imports)]
use crate::command::said;
use crate::contracts::{IssueSource, ProjectResponse, SourceIssueSnapshot};
use crate::plan_run::{LifecycleStatus, PlanRunPhaseError};
use crate::text::{
    chars_of, concat, contains, count_leading_space, same_text, starts_with, string_of, to_lower,
    trimmed, trimmed_end_char, trimmed_start,
};
#[allow(unused_imports)]
use crate::text::{
    ascii_lower, ascii_lower_char, begins_with, contains_text, is_white_space, leading_space,
    lemma_leading_space, matches_at, trim, trim_end_char, trim_start, views,
};
use crate::text_parts::{join_strings, split_lines};
#[allow(unused_imports)]
use crate::text_parts::{
    join, lemma_join_append, lemma_lines_are_plain, lemma_lines_of_join, lemma_lines_within,
    line_content, lines, reread,
};

verus! {

// --- Local markdown ---

/// The line states a Lifecycle Status: it begins, after white space, with
/// `lifecycle status` in any case, and holds a colon.
pub open spec fn is_status_line(line: Seq<char>) -> bool {
    &&& begins_with(ascii_lower(trim_start(line)), "lifecycle status"@)
    &&& contains_text(trim_start(line), ":"@)
}

/// The line is a level-one heading.
pub open spec fn is_heading(line: Seq<char>) -> bool {
    begins_with(trim_start(line), "# "@)
}

/// The line holds nothing but white space.
pub open spec fn is_blank(line: Seq<char>) -> bool {
    trim(line).len() == 0
}

/// The white space that the line begins with.
pub open spec fn indentation(line: Seq<char>) -> Seq<char> {
    line.take(leading_space(line))
}

/// The statement of a status.
pub open spec fn status_text(status: Seq<char>) -> Seq<char> {
    "Lifecycle Status: "@ + status
}

/// A line that states a status, with its indentation and the new status; any
/// other line as it is.
pub open spec fn restated(line: Seq<char>, status: Seq<char>) -> Seq<char> {
    if is_status_line(line) {
        indentation(line) + status_text(status)
    } else {
        line
    }
}

/// Some line states a status.
pub open spec fn has_status_line(text_lines: Seq<Seq<char>>) -> bool {
    exists|i: int| 0 <= i < text_lines.len() && is_status_line(#[trigger] text_lines[i])
}

/// The first heading from `from` on, or the number of lines.
pub open spec fn heading_from(text_lines: Seq<Seq<char>>, from: int) -> int
    decreases text_lines.len() - from,
{
    if from < 0 || from >= text_lines.len() {
        text_lines.len() as int
    } else if is_heading(text_lines[from]) {
        from
    } else {
        heading_from(text_lines, from + 1)
    }
}

/// The first blank line from `from` on, or the number of lines.
pub open spec fn blank_from(text_lines: Seq<Seq<char>>, from: int) -> int
    decreases text_lines.len() - from,
{
    if from < 0 || from >= text_lines.len() {
        text_lines.len() as int
    } else if is_blank(text_lines[from]) {
        from
    } else {
        blank_from(text_lines, from + 1)
    }
}

/// Where a statement goes that the text does not have yet: at the first blank
/// line after the first heading, behind the heading where no blank line follows,
/// and at the top without a heading.
pub open spec fn insertion_point(text_lines: Seq<Seq<char>>) -> int {
    let heading = heading_from(text_lines, 0);
    if heading >= text_lines.len() {
        0
    } else {
        let blank = blank_from(text_lines, heading + 1);
        if blank < text_lines.len() {
            blank
        } else {
            heading + 1
        }
    }
}

/// The line that is put behind an inserted statement: the indentation of the
/// line that stood there, or a line feed where it had none.
pub open spec fn spacer(line: Seq<char>) -> Seq<char> {
    if indentation(line).len() == 0 {
        "\n"@
    } else {
        indentation(line)
    }
}

/// The lines of the text with the new status.
pub open spec fn updated_lines(text_lines: Seq<Seq<char>>, status: Seq<char>) -> Seq<Seq<char>> {
    let at = insertion_point(text_lines);
    if has_status_line(text_lines) {
        text_lines.map_values(|line: Seq<char>| restated(line, status))
    } else if at < text_lines.len() {
        text_lines.insert(at, status_text(status)).insert(at + 1, spacer(text_lines[at]))
    } else {
        text_lines.push(status_text(status))
    }
}

/// The text with the new status.
pub open spec fn with_status(raw_text: Seq<char>, status: Seq<char>) -> Seq<char> {
    join(updated_lines(lines(raw_text), status), "\n"@)
}

fn states_status(line: &str) -> (yes: bool)
    ensures
        yes == is_status_line(line@),
{
    let rest = trimmed_start(line);
    starts_with(to_lower(rest.as_str()).as_str(), "lifecycle status") && contains(
        rest.as_str(),
        ":",
    )
}

fn indentation_of(line: &str) -> (space: String)
    ensures
        space@ == indentation(line@),
{
    let chars = chars_of(line);
    let count = count_leading_space(&chars);
    let space = string_of(&chars, 0, count);
    assert(space@ =~= indentation(line@));
    space
}

fn find_insertion(text_lines: &Vec<String>) -> (at: usize)
    ensures
        at == insertion_point(views(text_lines@)),
        at <= text_lines.len(),
{
    let ghost all = views(text_lines@);
    let mut heading: usize = 0;
    while heading < text_lines.len() && !starts_with(
        trimmed_start(text_lines[heading].as_str()).as_str(),
        "# ",
    )
        invariant
            heading <= text_lines.len(),
            all == views(text_lines@),
            heading_from(all, 0) == heading_from(all, heading as int),
        decreases text_lines.len() - heading,
    {
        assert(all[heading as int] == text_lines@[heading as int]@);
        heading += 1;
    }
    if heading < text_lines.len() {
        assert(all[heading as int] == text_lines@[heading as int]@);
    }
    if heading >= text_lines.len() {
        return 0;
    }
    let mut blank: usize = heading + 1;
    while blank < text_lines.len() && !trimmed(text_lines[blank].as_str()).as_str().is_empty()
        invariant
            heading < blank <= text_lines.len(),
            all == views(text_lines@),
            blank_from(all, heading + 1) == blank_from(all, blank as int),
        decreases text_lines.len() - blank,
    {
        assert(all[blank as int] == text_lines@[blank as int]@);
        blank += 1;
    }
    if blank < text_lines.len() {
        assert(all[blank as int] == text_lines@[blank as int]@);
        blank
    } else {
        heading + 1
    }
}

/// State the Lifecycle Status in the text of a Source Issue: rewrite the lines
/// that state one, or insert a statement behind the title.
pub fn update_markdown_lifecycle_status(raw_text: String, lifecycle_status: &str) -> (text: String)
    ensures
        text@ == with_status(raw_text@, lifecycle_status@),
{
    let text_lines = split_lines(raw_text.as_str());
    let ghost all = views(text_lines@);
    let mut found: bool = false;
    let mut result: Vec<String> = Vec::new();
    let ghost mapped = all.map_values(|line: Seq<char>| restated(line, lifecycle_status@));
    let mut i: usize = 0;
    while i < text_lines.len()
        invariant
            i <= text_lines.len(),
            all == views(text_lines@),
            mapped == all.map_values(|line: Seq<char>| restated(line, lifecycle_status@)),
            found == exists|k: int| 0 <= k < i && is_status_line(#[trigger] all[k]),
            views(result@) == mapped.take(i as int),
        decreases text_lines.len() - i,
    {
        let line = text_lines[i].as_str();
        assert(all[i as int] == line@);
        let ghost before = result@;
        if states_status(line) {
            found = true;
            let mut stated = indentation_of(line);
            let statement = concat("Lifecycle Status: ", lifecycle_status);
            stated.append(statement.as_str());
            result.push(stated);
        } else {
            result.push(text_lines[i].clone());
        }
        proof {
            assert(mapped[i as int] == result@.last()@);
            assert(views(result@) =~= views(before).push(result@.last()@));
            assert(mapped.take(i + 1) =~= mapped.take(i as int).push(mapped[i as int]));
        }
        i += 1;
    }
    assert(mapped.take(i as int) =~= mapped);
    assert(found == has_status_line(all));
    if !found {
        assert(mapped =~= all) by {
            assert forall|k: int| 0 <= k < all.len() implies mapped[k] == all[k] by {
                assert(!is_status_line(all[k]));
            }
        }
        let at = find_insertion(&text_lines);
        let statement = concat("Lifecycle Status: ", lifecycle_status);
        let ghost plain = result@;
        if at < result.len() {
            let space = indentation_of(result[at].as_str());
            assert(plain[at as int]@ == views(plain)[at as int]);
            let behind = if space.as_str().is_empty() { "\n".to_owned() } else { space };
            result.insert(at, statement);
            let ghost with_statement = result@;
            result.insert(at + 1, behind);
            proof {
                assert(views(with_statement) =~= views(plain).insert(at as int, statement@));
                assert(views(result@) =~= views(with_statement).insert(at + 1, behind@));
            }
        } else {
            result.push(statement);
            assert(views(result@) =~= views(plain).push(statement@));
        }
    }
    join_strings(&result, "\n")
}

/// A joined text holds each of its parts.
pub proof fn lemma_join_contains(parts: Seq<Seq<char>>, sep: Seq<char>, i: int)
    requires
        0 <= i < parts.len(),
    ensures
        contains_text(join(parts, sep), parts[i]),
    decreases parts.len(),
{
    let whole = join(parts, sep);
    if parts.len() == 1 {
        assert(whole.subrange(0, parts[0].len() as int) =~= parts[0]);
        assert(matches_at(whole, parts[i], 0));
    } else if i == parts.len() - 1 {
        let front = join(parts.drop_last(), sep) + sep;
        let at = front.len() as int;
        assert(whole.subrange(at, at + parts[i].len()) =~= parts[i]);
        assert(matches_at(whole, parts[i], at));
    } else {
        lemma_join_contains(parts.drop_last(), sep, i);
        let front = join(parts.drop_last(), sep);
        let at = choose|at: int| #[trigger] matches_at(front, parts[i], at);
        assert(parts.drop_last()[i] == parts[i]);
        assert(whole.subrange(at, at + parts[i].len()) =~= front.subrange(
            at,
            at + parts[i].len(),
        ));
        assert(matches_at(whole, parts[i], at));
    }
}

/// Whatever the text was, the updated text states the new status.
pub proof fn law_update_states_status(raw_text: Seq<char>, status: Seq<char>)
    ensures
        contains_text(with_status(raw_text, status), status_text(status)),
{
    let all = lines(raw_text);
    let updated = updated_lines(all, status);
    let whole = join(updated, "\n"@);
    lemma_heading_from(all, 0);
    if has_status_line(all) {
        let i = choose|i: int| 0 <= i < all.len() && is_status_line(#[trigger] all[i]);
        lemma_join_contains(updated, "\n"@, i);
        lemma_leading_space(all[i]);
        let at = choose|at: int| #[trigger] matches_at(whole, updated[i], at);
        let inner = at + indentation(all[i]).len();
        assert(updated[i] == indentation(all[i]) + status_text(status));
        assert(whole.subrange(inner as int, inner + status_text(status).len())
            =~= updated[i].subrange(
            indentation(all[i]).len() as int,
            updated[i].len() as int,
        ));
        assert(updated[i].subrange(indentation(all[i]).len() as int, updated[i].len() as int)
            =~= status_text(status));
        assert(matches_at(whole, status_text(status), inner as int));
    } else {
        let at = insertion_point(all);
        if at < all.len() {
            assert(updated[at] == status_text(status));
            lemma_join_contains(updated, "\n"@, at);
        } else {
            assert(updated[all.len() as int] == status_text(status));
            lemma_join_contains(updated, "\n"@, all.len() as int);
        }
    }
}

proof fn lemma_heading_from(text_lines: Seq<Seq<char>>, from: int)
    requires
        0 <= from <= text_lines.len(),
    ensures
        from <= heading_from(text_lines, from) <= text_lines.len(),
        0 <= insertion_point(text_lines),
    decreases text_lines.len() - from,
{
    if from < text_lines.len() && !is_heading(text_lines[from]) {
        lemma_heading_from(text_lines, from + 1);
    }
    lemma_insertion_point(text_lines, 0);
}

proof fn lemma_insertion_point(text_lines: Seq<Seq<char>>, from: int)
    requires
        0 <= from <= text_lines.len(),
    ensures
        0 <= heading_from(text_lines, from),
        0 <= blank_from(text_lines, from),
        0 <= insertion_point(text_lines) || from > 0,
    decreases text_lines.len() - from,
{
    if from < text_lines.len() {
        lemma_insertion_point(text_lines, from + 1);
    }
    if from == 0 {
        let heading = heading_from(text_lines, 0);
        if heading < text_lines.len() {
            lemma_insertion_point(text_lines, heading + 1);
        }
    }
}

/// The lines that are put behind an inserted statement.
spec fn spacer_lines(line: Seq<char>) -> Seq<Seq<char>> {
    if indentation(line).len() == 0 {
        seq![seq![], seq![]]
    } else {
        seq![indentation(line)]
    }
}

/// The lines of [`updated_lines`], none of them with a line feed in it.
spec fn flat_lines(text_lines: Seq<Seq<char>>, status: Seq<char>) -> Seq<Seq<char>> {
    let at = insertion_point(text_lines);
    if !has_status_line(text_lines) && at < text_lines.len() {
        text_lines.take(at) + seq![status_text(status)] + spacer_lines(text_lines[at])
            + text_lines.skip(at)
    } else {
        updated_lines(text_lines, status)
    }
}

proof fn lemma_flat_lines(text_lines: Seq<Seq<char>>, status: Seq<char>)
    ensures
        join(updated_lines(text_lines, status), "\n"@) == join(
            flat_lines(text_lines, status),
            "\n"@,
        ),
{
    let sep = "\n"@;
    let at = insertion_point(text_lines);
    lemma_insertion_point(text_lines, 0);
    if !has_status_line(text_lines) && at < text_lines.len() {
        let front = text_lines.take(at) + seq![status_text(status)];
        let back = text_lines.skip(at);
        let line = text_lines[at];
        assert(updated_lines(text_lines, status) =~= front + (seq![spacer(line)] + back));
        assert(flat_lines(text_lines, status) =~= front + (spacer_lines(line) + back));
        lemma_join_append(front, seq![spacer(line)] + back, sep);
        lemma_join_append(front, spacer_lines(line) + back, sep);
        lemma_join_append(seq![spacer(line)], back, sep);
        lemma_join_append(spacer_lines(line), back, sep);
        if indentation(line).len() == 0 {
            let empty: Seq<char> = seq![];
            assert(spacer_lines(line).drop_last() =~= seq![empty]);
            assert(join(seq![empty], sep) == empty);
            assert(join(spacer_lines(line), sep) =~= sep);
        }
    }
}

/// White space and a statement behind it are a line that states a status, and
/// read as one.
proof fn lemma_statement(space: Seq<char>, status: Seq<char>, next: Seq<char>)
    requires
        forall|k: int| 0 <= k < space.len() ==> is_white_space(#[trigger] space[k]),
    ensures
        is_status_line(space + status_text(status)),
        restated(space + status_text(status), next) == space + status_text(next),
{
    let line = space + status_text(status);
    reveal_strlit("Lifecycle Status: ");
    reveal_strlit("lifecycle status");
    reveal_strlit(":");
    lemma_leading_space(line);
    let n = leading_space(line);
    assert(line[space.len() as int] == 'L');
    assert(!is_white_space('L'));
    assert(n == space.len()) by {
        if n < space.len() {
            assert(line[n] == space[n]);
        }
    }
    assert(trim_start(line) =~= status_text(status));
    assert(indentation(line) =~= space);
    let lower = ascii_lower(trim_start(line));
    assert(lower.subrange(0, 16) =~= "lifecycle status"@);
    assert(matches_at(lower, "lifecycle status"@, 0));
    assert(trim_start(line).subrange(16, 17) =~= ":"@);
    assert(matches_at(trim_start(line), ":"@, 16));
}

/// A line of white space states no status.
proof fn lemma_space_states_nothing(line: Seq<char>)
    requires
        forall|k: int| 0 <= k < line.len() ==> is_white_space(#[trigger] line[k]),
    ensures
        !is_status_line(line),
{
    reveal_strlit("lifecycle status");
    lemma_leading_space(line);
}

/// The line loses nothing where a line end is written behind it.
pub open spec fn is_kept(line: Seq<char>) -> bool {
    line_content(line) == line
}

/// Of the lines that are written, only those that state the status depend on it.
proof fn lemma_flat_at(
    text_lines: Seq<Seq<char>>,
    first: Seq<char>,
    second: Seq<char>,
    i: int,
)
    requires
        0 <= i < flat_lines(text_lines, first).len(),
        forall|k: int| 0 <= k < text_lines.len() ==> !(#[trigger] text_lines[k]).contains('\n'),
        !first.contains('\n'),
    ensures
        flat_lines(text_lines, first).len() == flat_lines(text_lines, second).len(),
        !flat_lines(text_lines, first)[i].contains('\n'),
        is_status_line(flat_lines(text_lines, first)[i]) ==> {
            let line = flat_lines(text_lines, first)[i];
            &&& line.len() > 0
            &&& is_status_line(line_content(line))
            &&& restated(line, second) == flat_lines(text_lines, second)[i]
            &&& restated(line_content(line), second) == flat_lines(text_lines, second)[i]
        },
        !is_status_line(flat_lines(text_lines, first)[i]) ==> flat_lines(text_lines, first)[i]
            == flat_lines(text_lines, second)[i],
{
    let at = insertion_point(text_lines);
    lemma_insertion_point(text_lines, 0);
    let line = flat_lines(text_lines, first)[i];
    if has_status_line(text_lines) {
        let was = text_lines[i];
        lemma_leading_space(was);
        assert(!was.contains('\n'));
        if is_status_line(was) {
            let space = indentation(was);
            assert forall|k: int| 0 <= k < space.len() implies is_white_space(
                #[trigger] space[k],
            ) && space[k] != '\n' by {
                assert(space[k] == was[k]);
                assert(was.contains(was[k]));
            }
            lemma_statement_line(space, first, second);
        }
    } else if at < text_lines.len() {
        let spacers = spacer_lines(text_lines[at]);
        if i < at {
            assert(line == text_lines[i]);
            assert(!is_status_line(text_lines[i]));
        } else if i == at {
            let space: Seq<char> = seq![];
            lemma_statement_line(space, first, second);
            assert(space + status_text(first) =~= status_text(first));
            assert(space + status_text(second) =~= status_text(second));
        } else if i < at + 1 + spacers.len() {
            assert(line == spacers[i - at - 1]);
            lemma_leading_space(text_lines[at]);
            assert forall|k: int| 0 <= k < line.len() implies is_white_space(#[trigger] line[k])
                && line[k] != '\n' by {
                assert(line[k] == text_lines[at][k]);
                assert(text_lines[at].contains(text_lines[at][k]));
            }
            lemma_space_states_nothing(line);
        } else {
            let k = i - 1 - spacers.len();
            assert(line == text_lines[k]);
            assert(!is_status_line(text_lines[k]));
        }
    } else if i < text_lines.len() {
        assert(line == text_lines[i]);
        assert(!is_status_line(text_lines[i]));
    } else {
        let space: Seq<char> = seq![];
        lemma_statement_line(space, first, second);
        assert(space + status_text(first) =~= status_text(first));
        assert(space + status_text(second) =~= status_text(second));
    }
}

/// The next statement takes the place of one that was read.
proof fn lemma_statement_line(space: Seq<char>, first: Seq<char>, second: Seq<char>)
    requires
        forall|k: int|
            0 <= k < space.len() ==> is_white_space(#[trigger] space[k]) && space[k] != '\n',
        !first.contains('\n'),
    ensures
        ({
            let line = space + status_text(first);
            &&& line.len() > 0
            &&& !line.contains('\n')
            &&& is_status_line(line)
            &&& is_status_line(line_content(line))
            &&& restated(line, second) == space + status_text(second)
            &&& restated(line_content(line), second) == space + status_text(second)
        }),
{
    let line = space + status_text(first);
    reveal_strlit("Lifecycle Status: ");
    lemma_statement(space, first, second);
    if line.contains('\n') {
        let k = choose|k: int| 0 <= k < line.len() && line[k] == '\n';
        if k >= space.len() + 18 {
            assert(first[k - space.len() - 18] == '\n');
        }
    }
    if line.last() == '\r' {
        assert(first.len() > 0);
        assert(line_content(line) =~= space + status_text(first.drop_last()));
        lemma_statement(space, first.drop_last(), second);
    }
}

/// The last status that is written wins: it does not show in the text that there
/// was another one before. Writing the same status again changes nothing more.
///
/// A text whose last line is empty loses that line when it is written again, and a
/// line that does not state the status loses a carriage return at its end.
pub proof fn law_last_status_wins(raw_text: Seq<char>, first: Seq<char>, second: Seq<char>)
    requires
        !first.contains('\n'),
        lines(raw_text).len() > 0 ==> lines(raw_text).last().len() > 0,
        ({
            let written = updated_lines(lines(raw_text), first);
            forall|i: int|
                0 <= i < written.len() - 1 ==> is_status_line(#[trigger] written[i]) || is_kept(
                    written[i],
                )
        }),
    ensures
        with_status(with_status(raw_text, first), second) == with_status(raw_text, second),
{
    let all = lines(raw_text);
    let flat = flat_lines(all, first);
    let next = flat_lines(all, second);
    lemma_lines_are_plain(raw_text);
    lemma_flat_lines(all, first);
    lemma_flat_lines(all, second);
    assert forall|i: int| 0 <= i < flat.len() implies !(#[trigger] flat[i]).contains('\n') by {
        lemma_flat_at(all, first, second, i);
    }
    lemma_flat_states_status(all, first);
    lemma_lines_of_join(flat);
    let read = reread(flat);
    assert(lines(with_status(raw_text, first)) == read);
    assert forall|i: int| 0 <= i < flat.len() implies restated(#[trigger] read[i], second)
        == next[i] by {
        lemma_flat_at(all, first, second, i);
        if i < flat.len() - 1 && !is_status_line(flat[i]) {
            lemma_flat_kept(all, first, i);
        }
    }
    lemma_flat_at(all, first, second, 0);
    let s = choose|s: int| 0 <= s < flat.len() && is_status_line(#[trigger] flat[s]);
    lemma_flat_at(all, first, second, s);
    assert(is_status_line(read[s]));
    assert(has_status_line(read));
    assert(updated_lines(read, second) =~= next);
}

/// What is written states the status, and its last line is not empty where that of
/// the text was not.
proof fn lemma_flat_states_status(text_lines: Seq<Seq<char>>, status: Seq<char>)
    requires
        !status.contains('\n'),
        text_lines.len() > 0 ==> text_lines.last().len() > 0,
        forall|k: int| 0 <= k < text_lines.len() ==> !(#[trigger] text_lines[k]).contains('\n'),
    ensures
        flat_lines(text_lines, status).len() > 0,
        flat_lines(text_lines, status).last().len() > 0,
        has_status_line(flat_lines(text_lines, status)),
{
    let at = insertion_point(text_lines);
    let flat = flat_lines(text_lines, status);
    let space: Seq<char> = seq![];
    lemma_insertion_point(text_lines, 0);
    lemma_statement_line(space, status, status);
    assert(space + status_text(status) =~= status_text(status));
    if has_status_line(text_lines) {
        let s = choose|s: int|
            0 <= s < text_lines.len() && is_status_line(#[trigger] text_lines[s]);
        let was = text_lines[s];
        let indent = indentation(was);
        lemma_leading_space(was);
        assert forall|k: int| 0 <= k < indent.len() implies is_white_space(#[trigger] indent[k])
            && indent[k] != '\n' by {
            assert(indent[k] == was[k]);
            assert(was.contains(was[k]));
        }
        lemma_statement_line(indent, status, status);
        assert(is_status_line(flat[s]));
    } else if at < text_lines.len() {
        assert(flat[at] == status_text(status));
        assert(flat.last() == text_lines.last());
    } else {
        assert(flat[text_lines.len() as int] == status_text(status));
    }
}

/// What is kept of the written lines is kept where no line feed stands in them.
proof fn lemma_flat_kept(text_lines: Seq<Seq<char>>, status: Seq<char>, i: int)
    requires
        0 <= i < flat_lines(text_lines, status).len() - 1,
        !is_status_line(flat_lines(text_lines, status)[i]),
        ({
            let written = updated_lines(text_lines, status);
            forall|i: int|
                0 <= i < written.len() - 1 ==> is_status_line(#[trigger] written[i]) || is_kept(
                    written[i],
                )
        }),
    ensures
        is_kept(flat_lines(text_lines, status)[i]),
{
    let at = insertion_point(text_lines);
    let flat = flat_lines(text_lines, status);
    let written = updated_lines(text_lines, status);
    lemma_insertion_point(text_lines, 0);
    if !has_status_line(text_lines) && at < text_lines.len() {
        let spacers = spacer_lines(text_lines[at]);
        if i <= at {
            assert(flat[i] == written[i]);
        } else if i < at + 1 + spacers.len() {
            assert(flat[i] == spacers[i - at - 1]);
            if spacers.len() == 1 {
                assert(flat[i] == written[i]);
            }
        } else {
            assert(flat[i] == written[i + 1 - spacers.len()]);
        }
    }
}

/// In a text without carriage returns whose last line is not empty, the last
/// status that is written wins.
pub proof fn law_last_status_wins_in_plain_text(
    raw_text: Seq<char>,
    first: Seq<char>,
    second: Seq<char>,
)
    requires
        !raw_text.contains('\r'),
        !first.contains('\n'),
        lines(raw_text).len() > 0 ==> lines(raw_text).last().len() > 0,
    ensures
        with_status(with_status(raw_text, first), second) == with_status(raw_text, second),
{
    let all = lines(raw_text);
    let at = insertion_point(all);
    let written = updated_lines(all, first);
    lemma_insertion_point(all, 0);
    lemma_lines_are_plain(raw_text);
    lemma_lines_within(raw_text, '\r');
    reveal_strlit("\n");
    assert forall|i: int| 0 <= i < written.len() - 1 implies is_status_line(#[trigger] written[i])
        || is_kept(written[i]) by {
        let line = written[i];
        if has_status_line(all) {
            let was = all[i];
            assert(!was.contains('\r'));
            if is_status_line(was) {
                lemma_leading_space(was);
                lemma_statement(indentation(was), first, first);
            } else if was.len() > 0 {
                assert(was.contains(was.last()));
            }
        } else if at < all.len() && i == at + 1 {
            let space = indentation(all[at]);
            lemma_leading_space(all[at]);
            if space.len() > 0 {
                assert(all[at].contains(space.last()));
            }
        } else if at < all.len() && i == at || i == all.len() {
            let space: Seq<char> = seq![];
            lemma_statement(space, first, first);
            assert(space + status_text(first) =~= status_text(first));
        } else {
            let k = if at < all.len() && i > at {
                i - 2
            } else {
                i
            };
            assert(line == all[k]);
            assert(!all[k].contains('\r'));
            if line.len() > 0 {
                assert(line.contains(line.last()));
            }
        }
    }
    law_last_status_wins(raw_text, first, second);
}

/// The snapshot of an issue whose status was just written.
pub fn parse_local_markdown_issue_minimal(source_id: String, raw_text: String) -> (issue:
    SourceIssueSnapshot)
    ensures
        issue.source_id == source_id,
        issue.title == source_id,
        issue.readiness@ == "ready"@,
        issue.lifecycle_status@ == "ready"@,
        issue.parent_issue is None,
        issue.issue_dependencies@.len() == 0,
        issue.source_order == 0,
        issue.raw_text == raw_text,
{
    SourceIssueSnapshot {
        source_id: source_id.clone(),
        title: source_id,
        readiness: "ready".to_owned(),
        lifecycle_status: "ready".to_owned(),
        parent_issue: None,
        issue_dependencies: Vec::new(),
        source_order: 0,
        raw_text,
    }
}

/// Whether the directory is the root or lies below it. Both are absolute paths
/// without links, `.` or `..`.
pub open spec fn inside(root: Seq<char>, directory: Seq<char>) -> bool {
    directory == root || begins_with(directory, trim_end_char(root, '/') + "/"@)
}

/// Whether the directory is the root or lies below it.
pub fn is_inside(root: &str, directory: &str) -> (yes: bool)
    ensures
        yes == inside(root@, directory@),
{
    let below = concat(trimmed_end_char(root, '/').as_str(), "/");
    same_text(directory, root) || starts_with(directory, below.as_str())
}

/// Why a status could not be written to a local markdown Issue Source.
#[derive(Clone, Debug, Eq, PartialEq)]
pub enum LocalWriteFailure {
    /// The Project path could not be resolved.
    ProjectPath { error: String },
    /// The directory of the Issue Source could not be resolved.
    SourceDirectory { error: String },
    /// The directory lies outside the Project path.
    OutsideProject,
    /// The issue has no file.
    IssueMissing { source_id: String },
    /// The file could not be written.
    Write { error: String },
    /// The file could not be read again.
    ReadBack { error: String },
}

impl LocalWriteFailure {
    /// The text of the failure.
    pub open spec fn text(&self) -> Seq<char> {
        match self {
            LocalWriteFailure::ProjectPath { error } => "failed to resolve Project path: "@
                + error@,
            LocalWriteFailure::SourceDirectory { error } =>
                "failed to read local markdown Issue Source: "@ + error@,
            LocalWriteFailure::OutsideProject =>
                "local markdown Issue Source must be inside the Project path"@,
            LocalWriteFailure::IssueMissing { source_id } => "Source Issue not found: "@
                + source_id@,
            LocalWriteFailure::Write { error } => "failed to write Source Issue file: "@ + error@,
            LocalWriteFailure::ReadBack { error } =>
                "failed to read updated Source Issue file: "@ + error@,
        }
    }

    /// The text of the failure.
    pub fn message(&self) -> (text: String)
        ensures
            text@ == self.text(),
    {
        match self {
            LocalWriteFailure::ProjectPath { error } => concat(
                "failed to resolve Project path: ",
                error.as_str(),
            ),
            LocalWriteFailure::SourceDirectory { error } => concat(
                "failed to read local markdown Issue Source: ",
                error.as_str(),
            ),
            LocalWriteFailure::OutsideProject => {
                "local markdown Issue Source must be inside the Project path".to_owned()
            },
            LocalWriteFailure::IssueMissing { source_id } => concat(
                "Source Issue not found: ",
                source_id.as_str(),
            ),
            LocalWriteFailure::Write { error } => concat(
                "failed to write Source Issue file: ",
                error.as_str(),
            ),
            LocalWriteFailure::ReadBack { error } => concat(
                "failed to read updated Source Issue file: ",
                error.as_str(),
            ),
        }
    }
}

/// The file of an issue in the directory of its Issue Source.
pub fn issue_file_name(source_id: &str) -> (name: String)
    ensures
        name@ == source_id@ + ".md"@,
{
    concat(source_id, ".md")
}

// --- The write-back ---

/// How a status is written back.
#[derive(Debug, Eq, PartialEq)]
pub enum LifecycleWrite {
    /// Rewrite the issue's file.
    LocalMarkdown,
    /// Run `gh` with these arguments.
    Github { args: Vec<String> },
}

/// The arguments with which `gh` replaces the lifecycle label of an issue.
pub open spec fn github_args(
    locator: Seq<char>,
    source_id: Seq<char>,
    lifecycle_status: Seq<char>,
) -> Seq<Seq<char>> {
    seq![
        "issue"@,
        "edit"@,
        source_id,
        "--repo"@,
        locator,
        "--remove-label"@,
        "agentic-afk:claimed"@,
        "--remove-label"@,
        "agentic-afk:running"@,
        "--remove-label"@,
        "agentic-afk:blocked"@,
        "--remove-label"@,
        "agentic-afk:completed"@,
        "--add-label"@,
        "agentic-afk:"@ + lifecycle_status,
    ]
}

/// The arguments with which `gh` replaces the lifecycle label of an issue.
pub fn write_github_lifecycle(locator: &str, source_id: &str, lifecycle_status: &str) -> (args: Vec<
    String,
>)
    ensures
        views(args@) == github_args(locator@, source_id@, lifecycle_status@),
{
    let mut args: Vec<String> = Vec::new();
    args.push("issue".to_owned());
    args.push("edit".to_owned());
    args.push(source_id.to_owned());
    args.push("--repo".to_owned());
    args.push(locator.to_owned());
    args.push("--remove-label".to_owned());
    args.push("agentic-afk:claimed".to_owned());
    args.push("--remove-label".to_owned());
    args.push("agentic-afk:running".to_owned());
    args.push("--remove-label".to_owned());
    args.push("agentic-afk:blocked".to_owned());
    args.push("--remove-label".to_owned());
    args.push("agentic-afk:completed".to_owned());
    args.push("--add-label".to_owned());
    args.push(concat("agentic-afk:", lifecycle_status));
    assert(views(args@) =~= github_args(locator@, source_id@, lifecycle_status@));
    args
}

/// How a status is written back to an Issue Source of this kind.
pub fn write_assignment_lifecycle(
    source: &IssueSource,
    source_id: &str,
    lifecycle_status: &str,
) -> (write: Result<LifecycleWrite, String>)
    ensures
        if source.kind@ == "local_markdown"@ {
            write matches Ok(LifecycleWrite::LocalMarkdown)
        } else if source.kind@ == "github"@ {
            write matches Ok(LifecycleWrite::Github { args }) && views(args@) == github_args(
                source.locator@,
                source_id@,
                lifecycle_status@,
            )
        } else {
            write matches Err(message) && message@ == "Lifecycle write-back is not supported for "@
                + source.kind@ + " Issue Sources"@
        },
{
    if same_text(source.kind.as_str(), "local_markdown") {
        Ok(LifecycleWrite::LocalMarkdown)
    } else if same_text(source.kind.as_str(), "github") {
        Ok(
            LifecycleWrite::Github {
                args: write_github_lifecycle(
                    source.locator.as_str(),
                    source_id,
                    lifecycle_status,
                ),
            },
        )
    } else {
        let mut message = concat(
            "Lifecycle write-back is not supported for ",
            source.kind.as_str(),
        );
        message.append(" Issue Sources");
        Err(message)
    }
}

/// The writer for the Issue Source of one Project.
#[derive(Clone, Debug, Eq, PartialEq)]
pub struct GhLifecycleWriter {
    pub gh_binary_path: String,
    pub project: ProjectResponse,
    pub source: IssueSource,
}

impl GhLifecycleWriter {
    pub fn for_project(gh_binary_path: String, project: ProjectResponse, source: IssueSource) -> (
        writer: GhLifecycleWriter)
        ensures
            writer == (GhLifecycleWriter { gh_binary_path, project, source }),
    {
        GhLifecycleWriter { gh_binary_path, project, source }
    }

    /// How the writer writes a status back.
    pub fn plan_write(&self, source_id: &str, status: LifecycleStatus) -> (write: Result<
        LifecycleWrite,
        PlanRunPhaseError,
    >)
        ensures
            if self.source.kind@ == "local_markdown"@ {
                write matches Ok(LifecycleWrite::LocalMarkdown)
            } else if self.source.kind@ == "github"@ {
                write matches Ok(LifecycleWrite::Github { args }) && views(args@) == github_args(
                    self.source.locator@,
                    source_id@,
                    status.wire(),
                )
            } else {
                write matches Err(PlanRunPhaseError::LifecycleWrite(message)) && message@
                    == "Lifecycle write-back is not supported for "@ + self.source.kind@
                    + " Issue Sources"@
            },
    {
        match write_assignment_lifecycle(&self.source, source_id, status.as_str()) {
            Ok(write) => Ok(write),
            Err(message) => Err(PlanRunPhaseError::LifecycleWrite(message)),
        }
    }

    /// What the write-back gave.
    pub fn result(&self, written: Result<(), String>) -> (result: Result<(), PlanRunPhaseError>)
        ensures
            match written {
                Ok(_) => result is Ok,
                Err(message) => result == Err::<(), PlanRunPhaseError>(
                    PlanRunPhaseError::LifecycleWrite(message),
                ),
            },
    {
        match written {
            Ok(_) => Ok(()),
            Err(message) => Err(PlanRunPhaseError::LifecycleWrite(message)),
        }
    }
}

/// The result of running `gh` with [`write_github_lifecycle`]'s arguments.
pub fn github_write_result(run: &CommandRun) -> (result: Result<(), String>)
    ensures
        match run {
            CommandRun::NotStarted { error } => result matches Err(message) && message@
                == "failed to run GitHub lifecycle write-back: "@ + error@,
            CommandRun::Ended { success, status, stdout, stderr } => if *success {
                result is Ok
            } else {
                result matches Err(message) && message@
                    == "failed to write GitHub Issue lifecycle: "@ + said(
                    "gh exited with status "@,
                    status@,
                    stdout@,
                    stderr@,
                )
            },
        },
{
    match run {
        CommandRun::NotStarted { error } => Err(
            concat("failed to run GitHub lifecycle write-back: ", error.as_str()),
        ),
        CommandRun::Ended { success, status, stdout, stderr } => {
            if *success {
                Ok(())
            } else {
                let text = failure_text(
                    "gh exited with status ",
                    status.as_str(),
                    stdout.as_str(),
                    stderr.as_str(),
                );
                Err(concat("failed to write GitHub Issue lifecycle: ", text.as_str()))
            }
        },
    }
}

} // verus!
