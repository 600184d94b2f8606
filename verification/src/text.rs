//! Text primitives.
//!
//! Strings are modelled as `Seq<char>`. Each executable function works on the
//! characters of its argument and states its result over the spec functions of
//! this module, which the contracts of the other modules use.

use vstd::prelude::*;

verus! {

/// `String::push` appends one character to the end of the string.
pub assume_specification[ String::push ](text: &mut String, ch: char)
    ensures
        final(text)@ == old(text)@.push(ch),
;

/// `char::is_whitespace` decides whether a character has the Unicode
/// `White_Space` property; [`is_white_space`] lists the characters that do.
pub assume_specification[ char::is_whitespace ](ch: char) -> (yes: bool)
    ensures
        yes == is_white_space(ch),
;

/// The characters with the Unicode `White_Space` property.
pub open spec fn is_white_space(ch: char) -> bool {
    ||| '\u{9}' <= ch <= '\u{d}'
    ||| ch == ' '
    ||| ch == '\u{85}'
    ||| ch == '\u{a0}'
    ||| ch == '\u{1680}'
    ||| '\u{2000}' <= ch <= '\u{200a}'
    ||| ch == '\u{2028}'
    ||| ch == '\u{2029}'
    ||| ch == '\u{202f}'
    ||| ch == '\u{205f}'
    ||| ch == '\u{3000}'
}

/// The contents of a list of strings.
pub open spec fn views(texts: Seq<String>) -> Seq<Seq<char>> {
    texts.map_values(|text: String| text@)
}

/// The contents of an optional string.
pub open spec fn opt_view(text: Option<String>) -> Option<Seq<char>> {
    match text {
        Some(text) => Some(text@),
        None => None,
    }
}

/// The contents of a list of pairs of strings.
pub open spec fn pair_views(pairs: Seq<(String, String)>) -> Seq<(Seq<char>, Seq<char>)> {
    pairs.map_values(|pair: (String, String)| (pair.0@, pair.1@))
}

/// The characters of `text`, in order.
pub fn chars_of(text: &str) -> (chars: Vec<char>)
    ensures
        chars@ == text@,
{
    let mut chars: Vec<char> = Vec::new();
    for ch in it: text.chars()
        invariant
            it.seq() == text@,
            chars@ == text@.take(it.index() as int),
    {
        chars.push(ch);
    }
    assert(chars@ =~= text@);
    chars
}

/// The string made of `chars[from..to]`.
pub fn string_of(chars: &Vec<char>, from: usize, to: usize) -> (text: String)
    requires
        from <= to <= chars.len(),
    ensures
        text@ == chars@.subrange(from as int, to as int),
{
    let mut text = String::new();
    let mut i: usize = from;
    while i < to
        invariant
            from <= i <= to <= chars.len(),
            text@ == chars@.subrange(from as int, i as int),
        decreases to - i,
    {
        text.push(chars[i]);
        i += 1;
        assert(text@ =~= chars@.subrange(from as int, i as int));
    }
    text
}

/// Whether two texts hold the same characters.
pub fn same_text(a: &str, b: &str) -> (same: bool)
    ensures
        same == (a@ == b@),
{
    a.to_owned() == b.to_owned()
}

/// A copy of an optional string.
pub fn clone_option(text: &Option<String>) -> (copy: Option<String>)
    ensures
        copy == *text,
{
    match text {
        Some(text) => Some(text.clone()),
        None => None,
    }
}

/// A copy of a list of strings.
pub fn clone_strings(texts: &Vec<String>) -> (copy: Vec<String>)
    ensures
        copy@ == texts@,
{
    let mut copy: Vec<String> = Vec::new();
    let mut i: usize = 0;
    while i < texts.len()
        invariant
            i <= texts.len(),
            copy@ == texts@.take(i as int),
        decreases texts.len() - i,
    {
        copy.push(texts[i].clone());
        i += 1;
        assert(copy@ =~= texts@.take(i as int));
    }
    assert(copy@ =~= texts@);
    copy
}

/// `a` followed by `b`.
pub fn concat(a: &str, b: &str) -> (text: String)
    ensures
        text@ == a@ + b@,
{
    let mut text = a.to_owned();
    text.append(b);
    text
}

// --- Searching ---

/// `needle` stands in `hay` at position `at`.
pub open spec fn matches_at(hay: Seq<char>, needle: Seq<char>, at: int) -> bool {
    &&& 0 <= at
    &&& at + needle.len() <= hay.len()
    &&& hay.subrange(at, at + needle.len()) == needle
}

/// `needle` stands somewhere in `hay`.
pub open spec fn contains_text(hay: Seq<char>, needle: Seq<char>) -> bool {
    exists|at: int| #[trigger] matches_at(hay, needle, at)
}

/// `hay` begins with `prefix`.
pub open spec fn begins_with(hay: Seq<char>, prefix: Seq<char>) -> bool {
    matches_at(hay, prefix, 0)
}

/// The first position, from `from` on, at which `needle` stands in `hay`.
pub open spec fn find_from(hay: Seq<char>, needle: Seq<char>, from: int) -> Option<int>
    decreases hay.len() - from,
{
    if from < 0 || from + needle.len() > hay.len() {
        None
    } else if matches_at(hay, needle, from) {
        Some(from)
    } else if from >= hay.len() {
        None
    } else {
        find_from(hay, needle, from + 1)
    }
}

/// The first position of `needle` in `hay`.
pub open spec fn find(hay: Seq<char>, needle: Seq<char>) -> Option<int> {
    find_from(hay, needle, 0)
}

/// A search finds the first match, and misses only where there is none.
pub proof fn lemma_find_from(hay: Seq<char>, needle: Seq<char>, from: int)
    requires
        0 <= from,
    ensures
        match find_from(hay, needle, from) {
            Some(at) => from <= at && matches_at(hay, needle, at) && forall|k: int|
                from <= k < at ==> !#[trigger] matches_at(hay, needle, k),
            None => forall|k: int| from <= k ==> !#[trigger] matches_at(hay, needle, k),
        },
    decreases hay.len() - from,
{
    if from + needle.len() > hay.len() {
    } else if matches_at(hay, needle, from) {
    } else if from >= hay.len() {
    } else {
        lemma_find_from(hay, needle, from + 1);
    }
}

/// A text occurs exactly where a search for it succeeds.
pub proof fn lemma_contains_is_find(hay: Seq<char>, needle: Seq<char>)
    ensures
        contains_text(hay, needle) <==> find(hay, needle) is Some,
{
    lemma_find_from(hay, needle, 0);
}

pub fn matches_here(hay: &Vec<char>, needle: &Vec<char>, at: usize) -> (yes: bool)
    ensures
        yes == matches_at(hay@, needle@, at as int),
{
    if needle.len() > hay.len() {
        return false;
    }
    if at > hay.len() - needle.len() {
        return false;
    }
    let mut k: usize = 0;
    while k < needle.len()
        invariant
            at + needle.len() <= hay.len(),
            k <= needle.len(),
            forall|j: int| 0 <= j < k ==> hay@[at + j] == needle@[j],
        decreases needle.len() - k,
    {
        if hay[at + k] != needle[k] {
            assert(hay@.subrange(at as int, at + needle.len())[k as int] != needle@[k as int]);
            return false;
        }
        k += 1;
    }
    assert(hay@.subrange(at as int, at + needle.len()) =~= needle@);
    true
}

/// The first position of `needle` in `hay`, from `from` on.
pub fn find_chars(hay: &Vec<char>, needle: &Vec<char>, from: usize) -> (at: Option<usize>)
    requires
        from <= hay.len(),
    ensures
        match at {
            Some(at) => find_from(hay@, needle@, from as int) == Some(at as int) && at <= hay.len(),
            None => find_from(hay@, needle@, from as int) is None,
        },
{
    let mut i: usize = from;
    loop
        invariant
            from <= i <= hay.len(),
            find_from(hay@, needle@, from as int) == find_from(hay@, needle@, i as int),
        decreases hay.len() - i,
    {
        if needle.len() > hay.len() - i {
            return None;
        }
        if matches_here(hay, needle, i) {
            return Some(i);
        }
        if i >= hay.len() {
            return None;
        }
        i += 1;
    }
}

/// Whether `needle` stands somewhere in `hay`.
pub fn contains(hay: &str, needle: &str) -> (yes: bool)
    ensures
        yes == contains_text(hay@, needle@),
{
    let hay_chars = chars_of(hay);
    let needle_chars = chars_of(needle);
    proof {
        lemma_contains_is_find(hay@, needle@);
    }
    find_chars(&hay_chars, &needle_chars, 0).is_some()
}

/// Whether `text` begins with `prefix`.
pub fn starts_with(text: &str, prefix: &str) -> (yes: bool)
    ensures
        yes == begins_with(text@, prefix@),
{
    let chars = chars_of(text);
    let prefix_chars = chars_of(prefix);
    matches_here(&chars, &prefix_chars, 0)
}

/// `text` without `prefix`, where it begins with it.
pub open spec fn without_prefix(text: Seq<char>, prefix: Seq<char>) -> Seq<char> {
    if begins_with(text, prefix) {
        text.skip(prefix.len() as int)
    } else {
        text
    }
}

/// Drop `prefix` from the front of `text`, where it is there.
pub fn strip_prefix_or_keep(text: &str, prefix: &str) -> (rest: String)
    ensures
        rest@ == without_prefix(text@, prefix@),
{
    let chars = chars_of(text);
    let prefix_chars = chars_of(prefix);
    if matches_here(&chars, &prefix_chars, 0) {
        let rest = string_of(&chars, prefix_chars.len(), chars.len());
        assert(rest@ =~= text@.skip(prefix@.len() as int));
        rest
    } else {
        text.to_owned()
    }
}

// --- Case ---

/// An ASCII capital letter in lower case; any other character as it is.
pub open spec fn ascii_lower_char(ch: char) -> char {
    if 'A' <= ch <= 'Z' {
        ((ch as u32) + 32) as char
    } else {
        ch
    }
}

/// An ASCII small letter in upper case; any other character as it is.
pub open spec fn ascii_upper_char(ch: char) -> char {
    if 'a' <= ch <= 'z' {
        ((ch as u32) - 32) as char
    } else {
        ch
    }
}

/// `text` with its ASCII letters in lower case.
pub open spec fn ascii_lower(text: Seq<char>) -> Seq<char> {
    text.map_values(|ch: char| ascii_lower_char(ch))
}

/// `text` with its ASCII letters in upper case.
pub open spec fn ascii_upper(text: Seq<char>) -> Seq<char> {
    text.map_values(|ch: char| ascii_upper_char(ch))
}

/// `text` with its ASCII letters in lower case.
pub fn to_lower(text: &str) -> (lower: String)
    ensures
        lower@ == ascii_lower(text@),
{
    let mut lower = String::new();
    for ch in it: text.chars()
        invariant
            it.seq() == text@,
            lower@ == ascii_lower(text@).take(it.index() as int),
    {
        let next: char = if 'A' <= ch && ch <= 'Z' {
            ((ch as u8) + 32) as char
        } else {
            ch
        };
        lower.push(next);
        assert(lower@ =~= ascii_lower(text@).take(it.index() + 1));
    }
    assert(lower@ =~= ascii_lower(text@));
    lower
}

/// `text` with its ASCII letters in upper case.
pub fn to_upper(text: &str) -> (upper: String)
    ensures
        upper@ == ascii_upper(text@),
{
    let mut upper = String::new();
    for ch in it: text.chars()
        invariant
            it.seq() == text@,
            upper@ == ascii_upper(text@).take(it.index() as int),
    {
        let next: char = if 'a' <= ch && ch <= 'z' {
            ((ch as u8) - 32) as char
        } else {
            ch
        };
        upper.push(next);
        assert(upper@ =~= ascii_upper(text@).take(it.index() + 1));
    }
    assert(upper@ =~= ascii_upper(text@));
    upper
}

// --- Trimming ---

/// How many white space characters `text` begins with.
pub open spec fn leading_space(text: Seq<char>) -> int
    decreases text.len(),
{
    if text.len() > 0 && is_white_space(text[0]) {
        1 + leading_space(text.skip(1))
    } else {
        0
    }
}

/// How many characters remain when the white space at the end of `text` is
/// dropped.
pub open spec fn trimmed_end_len(text: Seq<char>) -> int
    decreases text.len(),
{
    if text.len() > 0 && is_white_space(text.last()) {
        trimmed_end_len(text.drop_last())
    } else {
        text.len() as int
    }
}

/// `text` without the white space at its front.
pub open spec fn trim_start(text: Seq<char>) -> Seq<char> {
    text.skip(leading_space(text))
}

/// `text` without the white space at its end.
pub open spec fn trim_end(text: Seq<char>) -> Seq<char> {
    text.take(trimmed_end_len(text))
}

/// `text` without the white space at both ends.
pub open spec fn trim(text: Seq<char>) -> Seq<char> {
    trim_end(trim_start(text))
}

/// The white space that `text` begins with, and nothing else, is dropped.
pub proof fn lemma_leading_space(text: Seq<char>)
    ensures
        0 <= leading_space(text) <= text.len(),
        forall|k: int| 0 <= k < leading_space(text) ==> is_white_space(#[trigger] text[k]),
        leading_space(text) < text.len() ==> !is_white_space(text[leading_space(text)]),
    decreases text.len(),
{
    if text.len() > 0 && is_white_space(text[0]) {
        lemma_leading_space(text.skip(1));
        let n = leading_space(text.skip(1));
        assert forall|k: int| 0 <= k < leading_space(text) implies is_white_space(#[trigger] text[k]) by {
            if k > 0 {
                assert(text[k] == text.skip(1)[k - 1]);
            }
        }
        if n + 1 < text.len() {
            assert(text[n + 1] == text.skip(1)[n]);
        }
    }
}

pub proof fn lemma_trimmed_end_len(text: Seq<char>)
    ensures
        0 <= trimmed_end_len(text) <= text.len(),
    decreases text.len(),
{
    if text.len() > 0 && is_white_space(text.last()) {
        lemma_trimmed_end_len(text.drop_last());
    }
}

/// How many white space characters `chars` begins with.
pub fn count_leading_space(chars: &Vec<char>) -> (count: usize)
    ensures
        count == leading_space(chars@),
        count <= chars.len(),
{
    let mut i: usize = 0;
    proof {
        assert(chars@.skip(0) =~= chars@);
    }
    while i < chars.len() && chars[i].is_whitespace()
        invariant
            i <= chars.len(),
            leading_space(chars@) == i + leading_space(chars@.skip(i as int)),
        decreases chars.len() - i,
    {
        assert(chars@.skip(i as int).skip(1) =~= chars@.skip(i + 1));
        i += 1;
    }
    i
}

fn trimmed_end(chars: &Vec<char>, from: usize) -> (end: usize)
    requires
        from <= chars.len(),
    ensures
        from <= end <= chars.len(),
        end - from == trimmed_end_len(chars@.skip(from as int)),
{
    let mut end: usize = chars.len();
    proof {
        assert(chars@.subrange(from as int, end as int) =~= chars@.skip(from as int));
    }
    while end > from && chars[end - 1].is_whitespace()
        invariant
            from <= end <= chars.len(),
            trimmed_end_len(chars@.skip(from as int)) == trimmed_end_len(
                chars@.subrange(from as int, end as int),
            ),
        decreases end,
    {
        assert(chars@.subrange(from as int, end as int).drop_last() =~= chars@.subrange(
            from as int,
            end - 1,
        ));
        end -= 1;
    }
    end
}

/// `text` without the white space at both ends.
pub fn trimmed(text: &str) -> (rest: String)
    ensures
        rest@ == trim(text@),
{
    let chars = chars_of(text);
    let start = count_leading_space(&chars);
    let end = trimmed_end(&chars, start);
    let rest = string_of(&chars, start, end);
    assert(rest@ =~= trim(text@));
    rest
}

/// `text` without the white space at its front.
pub fn trimmed_start(text: &str) -> (rest: String)
    ensures
        rest@ == trim_start(text@),
{
    let chars = chars_of(text);
    let start = count_leading_space(&chars);
    let rest = string_of(&chars, start, chars.len());
    assert(rest@ =~= trim_start(text@));
    rest
}

/// `text` without the `ch` characters at its end.
pub open spec fn trim_end_char(text: Seq<char>, ch: char) -> Seq<char>
    decreases text.len(),
{
    if text.len() > 0 && text.last() == ch {
        trim_end_char(text.drop_last(), ch)
    } else {
        text
    }
}

/// `text` without the `ch` characters at its end.
pub fn trimmed_end_char(text: &str, ch: char) -> (rest: String)
    ensures
        rest@ == trim_end_char(text@, ch),
{
    let chars = chars_of(text);
    let mut end: usize = chars.len();
    assert(chars@.take(end as int) =~= chars@);
    while end > 0 && chars[end - 1] == ch
        invariant
            end <= chars.len(),
            trim_end_char(chars@, ch) == trim_end_char(chars@.take(end as int), ch),
        decreases end,
    {
        assert(chars@.take(end as int).drop_last() =~= chars@.take(end - 1));
        end -= 1;
    }
    let rest = string_of(&chars, 0, end);
    assert(rest@ =~= chars@.take(end as int));
    rest
}

} // verus!
