//! Splitting, joining and replacing text.

use vstd::prelude::*;

use crate::text::{
    chars_of, matches_here, string_of,
};
#[allow(unused_imports)]
use crate::text::{is_white_space, leading_space, matches_at, views};

verus! {

// --- Splitting at a character ---

/// The position of the first `ch` in `text`, or the length of `text`.
pub open spec fn index_of_char(text: Seq<char>, ch: char) -> int
    decreases text.len(),
{
    if text.len() == 0 || text[0] == ch {
        0
    } else {
        1 + index_of_char(text.skip(1), ch)
    }
}

pub proof fn lemma_index_of_char(text: Seq<char>, ch: char)
    ensures
        0 <= index_of_char(text, ch) <= text.len(),
        index_of_char(text, ch) < text.len() ==> text[index_of_char(text, ch)] == ch,
        forall|k: int| 0 <= k < index_of_char(text, ch) ==> #[trigger] text[k] != ch,
    decreases text.len(),
{
    if text.len() > 0 && text[0] != ch {
        lemma_index_of_char(text.skip(1), ch);
        let n = index_of_char(text.skip(1), ch);
        if n + 1 < text.len() {
            assert(text[n + 1] == text.skip(1)[n]);
        }
        assert forall|k: int| 0 <= k < n + 1 implies #[trigger] text[k] != ch by {
            if k > 0 {
                assert(text[k] == text.skip(1)[k - 1]);
            }
        }
    }
}

/// The pieces of `text` between the `ch` characters: one more than there are
/// such characters.
pub open spec fn split_at_char(text: Seq<char>, ch: char) -> Seq<Seq<char>>
    decreases text.len(),
{
    let at = index_of_char(text, ch);
    if at < 0 || at >= text.len() {
        seq![text]
    } else {
        seq![text.take(at)] + split_at_char(text.skip(at + 1), ch)
    }
}

/// The pieces of `text` between the `ch` characters.
pub fn split_char(text: &str, ch: char) -> (pieces: Vec<String>)
    ensures
        views(pieces@) == split_at_char(text@, ch),
{
    let chars = chars_of(text);
    let mut pieces: Vec<String> = Vec::new();
    let mut start: usize = 0;
    let mut i: usize = 0;
    assert(chars@.skip(0) =~= chars@);
    assert(views(pieces@) + split_at_char(chars@, ch) =~= split_at_char(chars@, ch));
    while i < chars.len()
        invariant
            start <= i <= chars.len(),
            forall|k: int| start <= k < i ==> chars@[k] != ch,
            views(pieces@) + split_at_char(chars@.skip(start as int), ch) == split_at_char(
                chars@,
                ch,
            ),
        decreases chars.len() - i,
    {
        if chars[i] == ch {
            let piece = string_of(&chars, start, i);
            proof {
                let rest = chars@.skip(start as int);
                lemma_index_of_char(rest, ch);
                let at = index_of_char(rest, ch);
                assert(at == i - start) by {
                    if at < i - start {
                        assert(rest[at] == chars@[start + at]);
                    }
                    if at > i - start {
                        assert(rest[i - start] == chars@[i as int]);
                    }
                }
                assert(piece@ =~= rest.take(at));
                assert(rest.skip(at + 1) =~= chars@.skip(i + 1));
            }
            let ghost before = pieces@;
            pieces.push(piece);
            proof {
                assert(views(pieces@) =~= views(before).push(piece@));
                assert(views(before) + (seq![piece@] + split_at_char(chars@.skip(i + 1), ch))
                    =~= views(pieces@) + split_at_char(chars@.skip(i + 1), ch));
            }
            start = i + 1;
        }
        i += 1;
    }
    let piece = string_of(&chars, start, chars.len());
    proof {
        let rest = chars@.skip(start as int);
        lemma_index_of_char(rest, ch);
        let at = index_of_char(rest, ch);
        if at < rest.len() {
            assert(rest[at] == chars@[start + at]);
        }
        assert(piece@ =~= rest);
    }
    let ghost before = pieces@;
    pieces.push(piece);
    proof {
        assert(views(pieces@) =~= views(before) + seq![piece@]);
    }
    pieces
}

// --- Lines ---

/// One line without its end: the carriage return in front of a line feed
/// belongs to the line's end.
pub open spec fn line_content(line: Seq<char>) -> Seq<char> {
    if line.len() > 0 && line.last() == '\r' {
        line.drop_last()
    } else {
        line
    }
}

/// The lines of `text`. A line ends in a line feed, which a carriage return
/// may precede; the end of the last line is optional.
pub open spec fn lines(text: Seq<char>) -> Seq<Seq<char>>
    decreases text.len(),
{
    let at = index_of_char(text, '\n');
    if text.len() == 0 {
        seq![]
    } else if at < 0 || at >= text.len() {
        seq![text]
    } else {
        seq![line_content(text.take(at))] + lines(text.skip(at + 1))
    }
}

/// The lines of `text`.
pub fn split_lines(text: &str) -> (parts: Vec<String>)
    ensures
        views(parts@) == lines(text@),
{
    let chars = chars_of(text);
    let mut parts: Vec<String> = Vec::new();
    let mut start: usize = 0;
    let mut i: usize = 0;
    assert(chars@.skip(0) =~= chars@);
    assert(views(parts@) + lines(chars@) =~= lines(chars@));
    while i < chars.len()
        invariant
            start <= i <= chars.len(),
            forall|k: int| start <= k < i ==> chars@[k] != '\n',
            views(parts@) + lines(chars@.skip(start as int)) == lines(chars@),
        decreases chars.len() - i,
    {
        if chars[i] == '\n' {
            let end: usize = if i > start && chars[i - 1] == '\r' { i - 1 } else { i };
            let part = string_of(&chars, start, end);
            proof {
                let rest = chars@.skip(start as int);
                lemma_index_of_char(rest, '\n');
                let at = index_of_char(rest, '\n');
                assert(at == i - start) by {
                    if at < i - start {
                        assert(rest[at] == chars@[start + at]);
                    }
                    if at > i - start {
                        assert(rest[i - start] == chars@[i as int]);
                    }
                }
                if i > start {
                    assert(rest.take(at).last() == chars@[i - 1]);
                }
                assert(part@ =~= line_content(rest.take(at)));
                assert(rest.skip(at + 1) =~= chars@.skip(i + 1));
            }
            let ghost before = parts@;
            parts.push(part);
            proof {
                assert(views(parts@) =~= views(before).push(part@));
                assert(views(before) + (seq![part@] + lines(chars@.skip(i + 1))) =~= views(parts@)
                    + lines(chars@.skip(i + 1)));
            }
            start = i + 1;
        }
        i += 1;
    }
    if start < chars.len() {
        let part = string_of(&chars, start, chars.len());
        proof {
            let rest = chars@.skip(start as int);
            lemma_index_of_char(rest, '\n');
            let at = index_of_char(rest, '\n');
            if at < rest.len() {
                assert(rest[at] == chars@[start + at]);
            }
            assert(part@ =~= rest);
        }
        let ghost before = parts@;
        parts.push(part);
        proof {
            assert(views(parts@) =~= views(before) + seq![part@]);
        }
    } else {
        proof {
            assert(views(parts@) + lines(chars@.skip(start as int)) =~= views(parts@));
        }
    }
    parts
}

// --- Words ---

/// The length of the first run of characters that are not white space.
pub open spec fn word_len(text: Seq<char>) -> int
    decreases text.len(),
{
    if text.len() == 0 || is_white_space(text[0]) {
        0
    } else {
        1 + word_len(text.skip(1))
    }
}

pub proof fn lemma_word_len(text: Seq<char>)
    ensures
        0 <= word_len(text) <= text.len(),
    decreases text.len(),
{
    if text.len() > 0 && !is_white_space(text[0]) {
        lemma_word_len(text.skip(1));
    }
}

/// The words of `text`: its longest runs of characters that are not white
/// space.
pub open spec fn words(text: Seq<char>) -> Seq<Seq<char>>
    decreases text.len(),
{
    if text.len() == 0 {
        seq![]
    } else if is_white_space(text[0]) {
        words(text.skip(1))
    } else if word_len(text) <= 0 || word_len(text) > text.len() {
        seq![]
    } else {
        seq![text.take(word_len(text))] + words(text.skip(word_len(text)))
    }
}

/// The words of `text`.
pub fn split_words(text: &str) -> (parts: Vec<String>)
    ensures
        views(parts@) == words(text@),
{
    let chars = chars_of(text);
    let mut parts: Vec<String> = Vec::new();
    let mut i: usize = 0;
    assert(chars@.skip(0) =~= chars@);
    assert(views(parts@) + words(chars@) =~= words(chars@));
    while i < chars.len()
        invariant
            i <= chars.len(),
            views(parts@) + words(chars@.skip(i as int)) == words(chars@),
        decreases chars.len() - i,
    {
        let ghost rest = chars@.skip(i as int);
        if chars[i].is_whitespace() {
            assert(rest.skip(1) =~= chars@.skip(i + 1));
            i += 1;
        } else {
            let mut end: usize = i;
            while end < chars.len() && !chars[end].is_whitespace()
                invariant
                    i <= end <= chars.len(),
                    rest == chars@.skip(i as int),
                    word_len(rest) == (end - i) + word_len(chars@.skip(end as int)),
                decreases chars.len() - end,
            {
                assert(chars@.skip(end as int).skip(1) =~= chars@.skip(end + 1));
                end += 1;
            }
            proof {
                lemma_word_len(rest);
                assert(word_len(rest.skip(1)) >= 0) by {
                    lemma_word_len(rest.skip(1));
                }
            }
            let part = string_of(&chars, i, end);
            let ghost before = parts@;
            parts.push(part);
            proof {
                assert(part@ =~= rest.take(word_len(rest)));
                assert(rest.skip(word_len(rest)) =~= chars@.skip(end as int));
                assert(views(parts@) =~= views(before).push(part@));
                assert(views(before) + (seq![part@] + words(chars@.skip(end as int))) =~= views(
                    parts@,
                ) + words(chars@.skip(end as int)));
            }
            i = end;
        }
    }
    assert(views(parts@) + words(chars@.skip(i as int)) =~= views(parts@));
    parts
}

// --- Joining ---

/// `parts` one after the other, with `sep` between each two.
pub open spec fn join(parts: Seq<Seq<char>>, sep: Seq<char>) -> Seq<char>
    decreases parts.len(),
{
    if parts.len() == 0 {
        seq![]
    } else if parts.len() == 1 {
        parts[0]
    } else {
        join(parts.drop_last(), sep) + sep + parts.last()
    }
}

/// `parts` one after the other, with `sep` between each two.
pub fn join_strings(parts: &Vec<String>, sep: &str) -> (text: String)
    ensures
        text@ == join(views(parts@), sep@),
{
    let mut text = String::new();
    let mut i: usize = 0;
    assert(views(parts@).take(0) =~= Seq::<Seq<char>>::empty());
    while i < parts.len()
        invariant
            i <= parts.len(),
            text@ == join(views(parts@).take(i as int), sep@),
        decreases parts.len() - i,
    {
        if i > 0 {
            text.append(sep);
        }
        text.append(parts[i].as_str());
        i += 1;
        proof {
            let prefix = views(parts@).take(i as int);
            assert(prefix.drop_last() =~= views(parts@).take(i - 1));
            assert(prefix.last() == parts@[i - 1]@);
            if i == 1 {
                assert(text@ =~= parts@[0]@);
            }
        }
    }
    assert(views(parts@).take(i as int) =~= views(parts@));
    text
}

/// Two runs of parts, each of them not empty, join one after the other.
pub proof fn lemma_join_append(front: Seq<Seq<char>>, back: Seq<Seq<char>>, sep: Seq<char>)
    requires
        front.len() > 0,
        back.len() > 0,
    ensures
        join(front + back, sep) == join(front, sep) + sep + join(back, sep),
    decreases back.len(),
{
    let whole = front + back;
    assert(whole.drop_last() =~= front + back.drop_last());
    assert(whole.last() == back.last());
    if back.len() == 1 {
        assert(whole.drop_last() =~= front);
    } else {
        lemma_join_append(front, back.drop_last(), sep);
        assert(join(front, sep) + sep + join(back.drop_last(), sep) + sep + back.last()
            =~= join(front, sep) + sep + (join(back.drop_last(), sep) + sep + back.last()));
    }
}

/// What is read of lines that were written one after the other: a line that
/// another one follows loses a carriage return at its end.
pub open spec fn reread(written: Seq<Seq<char>>) -> Seq<Seq<char>> {
    Seq::new(
        written.len(),
        |i: int|
            if i < written.len() - 1 {
                line_content(written[i])
            } else {
                written[i]
            },
    )
}

/// Joined lines read as [`reread`] says, where none holds a line feed and the
/// last one is not empty.
pub proof fn lemma_lines_of_join(written: Seq<Seq<char>>)
    requires
        written.len() > 0,
        written.last().len() > 0,
        forall|i: int| 0 <= i < written.len() ==> !(#[trigger] written[i]).contains('\n'),
    ensures
        lines(join(written, "\n"@)) == reread(written),
    decreases written.len(),
{
    reveal_strlit("\n");
    let whole = join(written, "\n"@);
    lemma_index_of_char(whole, '\n');
    let at = index_of_char(whole, '\n');
    if written.len() == 1 {
        if at < whole.len() {
            assert(written[0].contains(whole[at]));
        }
        assert(lines(whole) =~= reread(written));
    } else {
        let first = written[0];
        let rest = written.skip(1);
        lemma_join_append(seq![first], rest, "\n"@);
        assert(seq![first] + rest =~= written);
        assert(join(seq![first], "\n"@) == first);
        assert(whole == first + "\n"@ + join(rest, "\n"@));
        assert(whole[first.len() as int] == '\n');
        if at < first.len() {
            assert(first[at] == whole[at]);
            assert(written[0].contains(first[at]));
        }
        assert(at == first.len());
        assert(whole.take(at) =~= first);
        assert(whole.skip(at + 1) =~= join(rest, "\n"@));
        assert forall|i: int| 0 <= i < rest.len() implies !(#[trigger] rest[i]).contains('\n') by {
            assert(rest[i] == written[i + 1]);
        }
        lemma_lines_of_join(rest);
        assert(seq![line_content(first)] + reread(rest) =~= reread(written));
    }
}

/// No line holds a line feed.
pub proof fn lemma_lines_are_plain(text: Seq<char>)
    ensures
        forall|i: int| 0 <= i < lines(text).len() ==> !(#[trigger] lines(text)[i]).contains('\n'),
    decreases text.len(),
{
    let at = index_of_char(text, '\n');
    lemma_index_of_char(text, '\n');
    if text.len() > 0 {
        if at < text.len() {
            lemma_lines_are_plain(text.skip(at + 1));
            let first = line_content(text.take(at));
            assert(!first.contains('\n')) by {
                if first.contains('\n') {
                    let k = choose|k: int| 0 <= k < first.len() && first[k] == '\n';
                    assert(text[k] == '\n');
                }
            }
            assert forall|i: int| 0 <= i < lines(text).len() implies !(#[trigger] lines(
                text,
            )[i]).contains('\n') by {
                if i > 0 {
                    assert(lines(text)[i] == lines(text.skip(at + 1))[i - 1]);
                }
            }
        } else {
            assert(!text.contains('\n'));
        }
    }
}

/// What a text does not hold, none of its lines holds.
pub proof fn lemma_lines_within(text: Seq<char>, ch: char)
    requires
        !text.contains(ch),
    ensures
        forall|i: int| 0 <= i < lines(text).len() ==> !(#[trigger] lines(text)[i]).contains(ch),
    decreases text.len(),
{
    let at = index_of_char(text, '\n');
    lemma_index_of_char(text, '\n');
    if text.len() > 0 && at < text.len() {
        let rest = text.skip(at + 1);
        let first = line_content(text.take(at));
        assert(!rest.contains(ch)) by {
            if rest.contains(ch) {
                let k = choose|k: int| 0 <= k < rest.len() && rest[k] == ch;
                assert(text[k + at + 1] == ch);
            }
        }
        assert(!first.contains(ch)) by {
            if first.contains(ch) {
                let k = choose|k: int| 0 <= k < first.len() && first[k] == ch;
                assert(text[k] == ch);
            }
        }
        lemma_lines_within(rest, ch);
        assert forall|i: int| 0 <= i < lines(text).len() implies !(#[trigger] lines(
            text,
        )[i]).contains(ch) by {
            if i > 0 {
                assert(lines(text)[i] == lines(rest)[i - 1]);
            }
        }
    }
}

// --- Replacing ---

/// `text` with each match of `from` replaced by `to`, from left to right.
pub open spec fn replace_all(text: Seq<char>, from: Seq<char>, to: Seq<char>) -> Seq<char>
    decreases text.len(),
{
    if text.len() == 0 {
        seq![]
    } else if from.len() > 0 && matches_at(text, from, 0) {
        to + replace_all(text.skip(from.len() as int), from, to)
    } else {
        seq![text[0]] + replace_all(text.skip(1), from, to)
    }
}

/// `text` with each match of `from` replaced by `to`, from left to right.
pub fn replaced(text: &str, from: &str, to: &str) -> (result: String)
    requires
        from@.len() > 0,
    ensures
        result@ == replace_all(text@, from@, to@),
{
    let chars = chars_of(text);
    let pattern = chars_of(from);
    let mut result = String::new();
    let mut i: usize = 0;
    assert(chars@.skip(0) =~= chars@);
    assert(result@ + replace_all(chars@, from@, to@) =~= replace_all(chars@, from@, to@));
    while i < chars.len()
        invariant
            i <= chars.len(),
            pattern@ == from@,
            from@.len() > 0,
            result@ + replace_all(chars@.skip(i as int), from@, to@) == replace_all(
                chars@,
                from@,
                to@,
            ),
        decreases chars.len() - i,
    {
        let ghost rest = chars@.skip(i as int);
        let ghost before = result@;
        if matches_here(&chars, &pattern, i) {
            proof {
                assert(rest.subrange(0, from@.len() as int) =~= chars@.subrange(
                    i as int,
                    i + from@.len(),
                ));
                assert(matches_at(rest, from@, 0));
                assert(rest.skip(from@.len() as int) =~= chars@.skip(i + from@.len()));
            }
            result.append(to);
            i += pattern.len();
            proof {
                let tail = replace_all(chars@.skip(i as int), from@, to@);
                assert(before + (to@ + tail) =~= result@ + tail);
            }
        } else {
            proof {
                if matches_at(rest, from@, 0) {
                    assert(rest.subrange(0, from@.len() as int) =~= chars@.subrange(
                        i as int,
                        i + from@.len(),
                    ));
                }
                assert(rest.skip(1) =~= chars@.skip(i + 1));
            }
            result.push(chars[i]);
            i += 1;
            proof {
                let tail = replace_all(chars@.skip(i as int), from@, to@);
                assert(before + (seq![chars@[i - 1]] + tail) =~= result@ + tail);
            }
        }
    }
    assert(result@ + replace_all(chars@.skip(i as int), from@, to@) =~= result@);
    result
}

/// At most the first `count` characters of `text`.
pub open spec fn first_chars(text: Seq<char>, count: int) -> Seq<char> {
    if text.len() <= count {
        text
    } else {
        text.take(count)
    }
}

/// At most the first `count` characters of `text`.
pub fn take_chars(text: &str, count: usize) -> (head: String)
    ensures
        head@ == first_chars(text@, count as int),
{
    let chars = chars_of(text);
    let end: usize = if chars.len() <= count { chars.len() } else { count };
    let head = string_of(&chars, 0, end);
    assert(head@ =~= first_chars(text@, count as int));
    head
}

} // verus!
