//! What the text primitives do.

use vstd::prelude::*;

#[allow(unused_imports)]
use crate::numerals::{decimal_i64, decimal_u64, parse_u64};
#[allow(unused_imports)]
use crate::text::{
    clone_option, concat, contains, is_white_space, leading_space, lemma_leading_space, matches_at,
    same_text, starts_with, strip_prefix_or_keep, to_lower, to_upper, trim_end_char, trimmed,
    trimmed_end_char, trimmed_end_len, trimmed_start, views,
};
#[allow(unused_imports)]
use crate::text_order::{ascending, comes_before, insert_ascending, precedes};
#[allow(unused_imports)]
use crate::text_parts::{
    index_of_char, join, join_strings, lemma_index_of_char, lemma_join_append, lines, split_at_char,
    split_char, split_lines, split_words, take_chars, word_len, words,
};

verus! {

// --- Trimming ---

/// The text is a part of the whole, and all that is missing of it is white space at its ends;
/// it neither begins nor ends in white space.
pub open spec fn is_trimmed(whole: Seq<char>, text: Seq<char>) -> bool {
    exists|from: int, to: int| #[trigger] is_core(whole, text, from, to)
}

/// The text is the part of the whole between the two places.
pub open spec fn is_core(whole: Seq<char>, text: Seq<char>, from: int, to: int) -> bool {
    &&& 0 <= from <= to <= whole.len()
    &&& text == whole.subrange(from, to)
    &&& forall|k: int| 0 <= k < from ==> is_white_space(#[trigger] whole[k])
    &&& forall|k: int| to <= k < whole.len() ==> is_white_space(#[trigger] whole[k])
    &&& text.len() > 0 ==> !is_white_space(text[0]) && !is_white_space(text.last())
}

proof fn lemma_end(text: Seq<char>)
    ensures
        0 <= trimmed_end_len(text) <= text.len(),
        forall|k: int|
            trimmed_end_len(text) <= k < text.len() ==> is_white_space(#[trigger] text[k]),
        trimmed_end_len(text) > 0 ==> !is_white_space(text[trimmed_end_len(text) - 1]),
    decreases text.len(),
{
    if text.len() > 0 && is_white_space(text.last()) {
        let front = text.drop_last();
        lemma_end(front);
        assert forall|k: int| trimmed_end_len(text) <= k < text.len() implies is_white_space(
            #[trigger] text[k],
        ) by {
            if k < front.len() {
                assert(front[k] == text[k]);
            }
        }
    }
}

/// Trimming drops the white space at both ends of a text, all of it, and nothing else. Trimming
/// its front drops that at the front alone.
pub proof fn law_trim(text: &str, rest: String, behind: String)
    requires
        call_ensures(trimmed, (text,), rest),
        call_ensures(trimmed_start, (text,), behind),
    ensures
        is_trimmed(text@, rest@),
        behind@.len() <= text@.len(),
        behind@ == text@.skip(text@.len() - behind@.len()),
        behind@.len() > 0 ==> !is_white_space(behind@[0]),
        forall|k: int|
            0 <= k < text@.len() - behind@.len() ==> is_white_space(#[trigger] text@[k]),
{
    let whole = text@;
    let from = leading_space(whole);
    lemma_leading_space(whole);
    let start = whole.skip(from);
    lemma_end(start);
    let len = trimmed_end_len(start);
    let to = from + len;
    assert(start.take(len) =~= whole.subrange(from, to));
    assert forall|k: int| to <= k < whole.len() implies is_white_space(#[trigger] whole[k]) by {
        assert(whole[k] == start[k - from]);
    }
    if len > 0 {
        assert(rest@[0] == whole[from]);
        assert(rest@.last() == start[len - 1]);
    }
    assert(is_core(whole, rest@, from, to));
    assert(behind@ =~= whole.skip(whole.len() - behind@.len()));
}

/// Dropping a character at the end drops all of them there, and nothing else.
pub proof fn law_trim_character(text: &str, ch: char, rest: String)
    requires
        call_ensures(trimmed_end_char, (text, ch), rest),
    ensures
        rest@.len() <= text@.len(),
        rest@ == text@.take(rest@.len() as int),
        rest@.len() > 0 ==> rest@.last() != ch,
        forall|k: int| rest@.len() <= k < text@.len() ==> #[trigger] text@[k] == ch,
{
    lemma_trim_end_char(text@, ch);
}

proof fn lemma_trim_end_char(text: Seq<char>, ch: char)
    ensures
        trim_end_char(text, ch).len() <= text.len(),
        trim_end_char(text, ch) == text.take(trim_end_char(text, ch).len() as int),
        trim_end_char(text, ch).len() > 0 ==> trim_end_char(text, ch).last() != ch,
        forall|k: int|
            trim_end_char(text, ch).len() <= k < text.len() ==> #[trigger] text[k] == ch,
    decreases text.len(),
{
    if text.len() > 0 && text.last() == ch {
        let front = text.drop_last();
        lemma_trim_end_char(front, ch);
        let rest = trim_end_char(front, ch);
        assert(front.take(rest.len() as int) =~= text.take(rest.len() as int));
        assert forall|k: int| rest.len() <= k < text.len() implies #[trigger] text[k] == ch by {
            if k < front.len() {
                assert(front[k] == text[k]);
            }
        }
    } else {
        assert(text.take(text.len() as int) =~= text);
    }
}

// --- Case ---

/// In lower case a text has no capital letter, in upper case no small one. Letters alone
/// change, and the way back gives what the way there gave.
pub proof fn law_case(text: &str, lower: String, upper: String)
    requires
        call_ensures(to_lower, (text,), lower),
        call_ensures(to_upper, (text,), upper),
    ensures
        lower@.len() == text@.len(),
        upper@.len() == text@.len(),
        forall|k: int| 0 <= k < lower@.len() ==> !('A' <= #[trigger] lower@[k] <= 'Z'),
        forall|k: int| 0 <= k < upper@.len() ==> !('a' <= #[trigger] upper@[k] <= 'z'),
        forall|k: int|
            0 <= k < text@.len() && !('A' <= text@[k] <= 'Z') ==> #[trigger] lower@[k] == text@[k],
        forall|k: int|
            0 <= k < text@.len() && !('a' <= text@[k] <= 'z') ==> #[trigger] upper@[k] == text@[k],
        forall|k: int|
            0 <= k < text@.len() && 'A' <= text@[k] <= 'Z' ==> (#[trigger] lower@[k]) as int
                == text@[k] as int + 32,
        forall|k: int|
            0 <= k < text@.len() && 'a' <= text@[k] <= 'z' ==> (#[trigger] upper@[k]) as int
                == text@[k] as int - 32,
{
}

// --- Splitting and joining ---

proof fn lemma_split(text: Seq<char>, ch: char)
    ensures
        split_at_char(text, ch).len() > 0,
        join(split_at_char(text, ch), seq![ch]) == text,
        forall|i: int, k: int|
            0 <= i < split_at_char(text, ch).len() && 0 <= k < split_at_char(text, ch)[i].len()
                ==> #[trigger] split_at_char(text, ch)[i][k] != ch,
    decreases text.len(),
{
    lemma_index_of_char(text, ch);
    let at = index_of_char(text, ch);
    let pieces = split_at_char(text, ch);
    if at >= text.len() {
        assert(pieces =~= seq![text]);
    } else {
        let rest = text.skip(at + 1);
        let others = split_at_char(rest, ch);
        lemma_split(rest, ch);
        lemma_join_append(seq![text.take(at)], others, seq![ch]);
        assert(text.take(at) + seq![ch] + rest =~= text);
        assert forall|i: int, k: int|
            0 <= i < pieces.len() && 0 <= k < pieces[i].len() implies #[trigger] pieces[i][k]
            != ch by {
            if i > 0 {
                assert(pieces[i] == others[i - 1]);
            } else {
                assert(pieces[0] == text.take(at));
            }
        }
    }
}

/// The pieces of a text hold the character nowhere, and joined by it they are the text.
pub proof fn law_split_at_a_character(text: &str, ch: char, pieces: Vec<String>)
    requires
        call_ensures(split_char, (text, ch), pieces),
    ensures
        join(views(pieces@), seq![ch]) == text@,
        pieces@.len() > 0,
        forall|i: int, k: int|
            0 <= i < pieces@.len() && 0 <= k < views(pieces@)[i].len() ==> #[trigger] views(
                pieces@,
            )[i][k] != ch,
{
    lemma_split(text@, ch);
}

/// One part more is put behind the others, with the separator before it; nothing is put before
/// the first.
pub proof fn law_join(
    parts: &Vec<String>,
    more: &Vec<String>,
    last: String,
    sep: &str,
    text: String,
    longer: String,
)
    requires
        call_ensures(join_strings, (parts, sep), text),
        call_ensures(join_strings, (more, sep), longer),
        more@ == parts@.push(last),
    ensures
        parts@.len() == 0 ==> text@.len() == 0 && longer@ == last@,
        parts@.len() > 0 ==> longer@ == text@ + sep@ + last@,
{
    assert(views(more@).drop_last() =~= views(parts@));
    assert(views(more@).last() == last@);
}

/// A line goes up to the first line feed, and loses a carriage return before it; what comes
/// behind is split in the same way. A text without a line feed is one line, unless it is empty.
pub proof fn law_split_into_lines(
    text: &str,
    parts: Vec<String>,
    line: Seq<char>,
    rest: Seq<char>,
)
    requires
        call_ensures(split_lines, (text,), parts),
        forall|k: int| 0 <= k < line.len() ==> line[k] != '\n',
    ensures
        text@ == line + seq!['\n'] + rest ==> views(parts@) == seq![
            if line.len() > 0 && line.last() == '\r' {
                line.drop_last()
            } else {
                line
            },
        ] + lines(rest),
        text@ == line && line.len() > 0 ==> views(parts@) == seq![line],
        text@.len() == 0 ==> parts@.len() == 0,
{
    lemma_index_of_char(text@, '\n');
    let at = index_of_char(text@, '\n');
    if text@ == line + seq!['\n'] + rest {
        assert(text@[line.len() as int] == '\n');
        assert(forall|k: int| 0 <= k < line.len() ==> text@[k] == line[k]);
        assert(at == line.len());
        assert(text@.take(at) =~= line);
        assert(text@.skip(at + 1) =~= rest);
    }
    assert(views(parts@).len() == parts@.len());
}

proof fn lemma_word(text: Seq<char>)
    ensures
        0 <= word_len(text) <= text.len(),
        forall|k: int| 0 <= k < word_len(text) ==> !is_white_space(#[trigger] text[k]),
        word_len(text) < text.len() ==> is_white_space(text[word_len(text)]),
    decreases text.len(),
{
    if text.len() > 0 && !is_white_space(text[0]) {
        let rest = text.skip(1);
        lemma_word(rest);
        assert forall|k: int| 0 <= k < word_len(text) implies !is_white_space(
            #[trigger] text[k],
        ) by {
            if k > 0 {
                assert(text[k] == rest[k - 1]);
            }
        }
        if word_len(text) < text.len() {
            assert(text[word_len(text)] == rest[word_len(rest)]);
        }
    }
}

/// A word goes up to the first white space; what comes behind it is split in the same way, and
/// white space before it counts for nothing.
pub proof fn law_split_into_words(
    text: &str,
    parts: Vec<String>,
    word: Seq<char>,
    space: char,
    rest: Seq<char>,
)
    requires
        call_ensures(split_words, (text,), parts),
        word.len() > 0,
        forall|k: int| 0 <= k < word.len() ==> !is_white_space(#[trigger] word[k]),
        is_white_space(space),
    ensures
        text@ == word + seq![space] + rest ==> views(parts@) == seq![word] + words(rest),
        text@ == word ==> views(parts@) == seq![word],
        text@ == seq![space] + rest ==> views(parts@) == words(rest),
        text@.len() == 0 ==> parts@.len() == 0,
{
    lemma_word(text@);
    if text@ == word + seq![space] + rest {
        let n = word.len() as int;
        assert(text@[n] == space);
        assert forall|k: int| 0 <= k < n implies !is_white_space(#[trigger] text@[k]) by {
            assert(text@[k] == word[k]);
        }
        assert(word_len(text@) == n);
        assert(text@.take(n) =~= word);
        let tail = text@.skip(n);
        assert(tail[0] == space);
        assert(tail.skip(1) =~= rest);
        assert(words(tail) == words(rest));
        assert(text@[0] == word[0]);
    }
    if text@ == word {
        let n = word.len() as int;
        assert(word_len(text@) == n) by {
            if word_len(text@) < n {
                assert(is_white_space(word[word_len(text@)]));
            }
        }
        assert(text@.take(n) =~= word);
        assert(text@.skip(n) =~= Seq::<char>::empty());
        assert(words(text@.skip(n)) =~= Seq::<Seq<char>>::empty());
        assert(!is_white_space(text@[0]));
    }
    if text@ == seq![space] + rest {
        assert(text@[0] == space);
        assert(text@.skip(1) =~= rest);
    }
    assert(views(parts@).len() == parts@.len());
}

/// The first characters of a text, as many as are asked for and there are.
pub proof fn law_first_characters(text: &str, count: usize, head: String)
    requires
        call_ensures(take_chars, (text, count), head),
    ensures
        head@.len() <= count,
        head@.len() == count || head@.len() == text@.len(),
        head@.len() <= text@.len(),
        head@ == text@.take(head@.len() as int),
{
    assert(text@.take(text@.len() as int) =~= text@);
}

// --- Searching ---

/// A text holds another one if and only if it can be taken apart round it, and begins with it
/// if and only if nothing stands before it; what is then left is what comes behind.
pub proof fn law_search(
    text: &str,
    part: &str,
    holds: bool,
    begins: bool,
    rest: String,
    before: Seq<char>,
    behind: Seq<char>,
)
    requires
        call_ensures(contains, (text, part), holds),
        call_ensures(starts_with, (text, part), begins),
        call_ensures(strip_prefix_or_keep, (text, part), rest),
    ensures
        text@ == before + part@ + behind ==> holds,
        text@ == part@ + behind ==> begins && rest@ == behind,
        begins ==> text@ == part@ + rest@,
        !begins ==> rest@ == text@,
        holds ==> exists|at: int|
            0 <= at <= text@.len() - part@.len() && #[trigger] text@.skip(at).take(
                part@.len() as int,
            ) == part@,
{
    if text@ == before + part@ + behind {
        crate::command_laws::lemma_middle(before, part@, behind);
    }
    if text@ == part@ + behind {
        assert(text@.subrange(0, part@.len() as int) =~= part@);
        assert(text@.skip(part@.len() as int) =~= behind);
    }
    if begins {
        assert(text@.subrange(0, part@.len() as int) == part@);
        assert(text@ =~= part@ + text@.skip(part@.len() as int));
    }
    if holds {
        let at = choose|at: int| #[trigger] matches_at(text@, part@, at);
        assert(text@.skip(at).take(part@.len() as int) =~= text@.subrange(at, at + part@.len()));
    }
}

// --- Order ---

/// The first difference decides the order of two texts, and a text comes before its own
/// continuations.
pub proof fn law_order(
    common: Seq<char>,
    a: Seq<char>,
    b: Seq<char>,
    first: &str,
    second: &str,
    yes: bool,
)
    requires
        call_ensures(comes_before, (first, second), yes),
        first@ == common + a,
        second@ == common + b,
    ensures
        a.len() > 0 && b.len() > 0 && a[0] != b[0] ==> (yes <==> (a[0] as int) < (b[0] as int)),
        a.len() == 0 && b.len() > 0 ==> yes,
        b.len() == 0 ==> !yes,
{
    lemma_common(common, a, b);
}

proof fn lemma_common(common: Seq<char>, a: Seq<char>, b: Seq<char>)
    ensures
        a.len() > 0 && b.len() > 0 && a[0] != b[0] ==> (precedes(common + a, common + b) <==> (
        a[0] as int) < (b[0] as int)),
        a.len() == 0 && b.len() > 0 ==> precedes(common + a, common + b),
        b.len() == 0 ==> !precedes(common + a, common + b),
    decreases common.len(),
{
    if common.len() > 0 {
        let rest = common.skip(1);
        lemma_common(rest, a, b);
        assert((common + a).skip(1) =~= rest + a);
        assert((common + b).skip(1) =~= rest + b);
    } else {
        assert(common + a =~= a);
        assert(common + b =~= b);
        if b.len() == 0 {
            assert(!precedes(common + a, common + b));
        }
    }
}

/// A text that is put into an ascending list is in it, the others stay, and the list ascends.
pub proof fn law_insert_in_order(list: &mut Vec<String>, text: &str, other: Seq<char>)
    requires
        ascending(views(old(list)@)),
        call_ensures(insert_ascending, (list, text), ()),
    ensures
        views(final(list)@).contains(text@),
        views(old(list)@).contains(other) ==> views(final(list)@).contains(other),
        views(final(list)@).contains(other) && other != text@ ==> views(old(list)@).contains(other),
        forall|i: int, j: int|
            0 <= i < j < final(list)@.len() ==> precedes(
                #[trigger] views(final(list)@)[i],
                #[trigger] views(final(list)@)[j],
            ),
{
}

// --- Numbers ---

/// A number is written digit by digit, the last one behind those of its tenth.
pub proof fn law_decimal(n: u64, digit: u64, text: String, tenth: String)
    requires
        n > 0,
        digit < 10,
        10 * n + digit <= u64::MAX,
        call_ensures(decimal_u64, ((10 * n + digit) as u64,), text),
        call_ensures(decimal_u64, (n,), tenth),
    ensures
        text@ == tenth@.push(((('0' as int) + digit) as char)),
{
    let whole = (10 * n + digit) as nat;
    assert(whole / 10 == n as nat);
    assert(whole % 10 == digit as nat);
}

/// A number of one digit is that digit, and a negative number is its opposite behind a minus
/// sign.
pub proof fn law_small_and_negative_numbers(
    digit: u64,
    text: String,
    n: i64,
    negative: String,
    positive: String,
)
    requires
        digit < 10,
        n < 0,
        n > i64::MIN,
        call_ensures(decimal_u64, (digit,), text),
        call_ensures(decimal_i64, (n,), negative),
        call_ensures(decimal_i64, ((-n) as i64,), positive),
    ensures
        text@ == seq![((('0' as int) + digit) as char)],
        negative@ == seq!['-'] + positive@,
{
}

/// What was written is read back, with a plus sign before it too.
pub proof fn law_numbers_are_read_back(
    n: u64,
    written: String,
    text: &str,
    value: Option<u64>,
    signed: &str,
    same: Option<u64>,
)
    requires
        call_ensures(decimal_u64, (n,), written),
        call_ensures(parse_u64, (text,), value),
        call_ensures(parse_u64, (signed,), same),
        text@ == written@,
        signed@ == seq!['+'] + written@,
    ensures
        value == Some(n),
        same == Some(n),
{
    crate::numerals::law_read_decimal(n);
    crate::numerals::lemma_decimal_is_numeral(n as nat);
    assert(signed@.skip(1) =~= written@);
}

// --- Copies ---

/// Two texts are the same if and only if they hold the same characters; put together they begin
/// with the one and end in the other, and a copy is what was copied.
pub proof fn law_whole_texts(
    a: &str,
    b: &str,
    same: bool,
    text: String,
    option: &Option<String>,
    copy: Option<String>,
)
    requires
        call_ensures(same_text, (a, b), same),
        call_ensures(concat, (a, b), text),
        call_ensures(clone_option, (option,), copy),
    ensures
        same <==> a@.len() == b@.len() && forall|k: int| 0 <= k < a@.len() ==> a@[k] == b@[k],
        text@.len() == a@.len() + b@.len(),
        text@.take(a@.len() as int) == a@,
        text@.skip(a@.len() as int) == b@,
        copy == *option,
{
    if a@.len() == b@.len() && forall|k: int| 0 <= k < a@.len() ==> a@[k] == b@[k] {
        assert(a@ =~= b@);
    }
    assert(text@.take(a@.len() as int) =~= a@);
    assert(text@.skip(a@.len() as int) =~= b@);
}

} // verus!
