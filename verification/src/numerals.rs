//! Numbers as text.

use vstd::prelude::*;

use crate::text::chars_of;

verus! {

/// The character of a decimal digit.
pub open spec fn digit_char(digit: int) -> char {
    (('0' as int) + digit) as char
}

/// `ch` is one of `0` to `9`.
pub open spec fn is_digit(ch: char) -> bool {
    '0' <= ch <= '9'
}

/// `n` in decimal, without leading zeros.
pub open spec fn decimal(n: nat) -> Seq<char>
    decreases n,
{
    if n < 10 {
        seq![digit_char(n as int)]
    } else {
        decimal(n / 10).push(digit_char((n % 10) as int))
    }
}

/// `n` in decimal, with a minus sign in front of a negative number.
pub open spec fn decimal_int(n: int) -> Seq<char> {
    if n < 0 {
        seq!['-'] + decimal((-n) as nat)
    } else {
        decimal(n as nat)
    }
}

fn digit(n: u64) -> (ch: char)
    requires
        n < 10,
    ensures
        ch == digit_char(n as int),
{
    (48u8 + (n as u8)) as char
}

/// `n` in decimal.
pub fn decimal_u64(n: u64) -> (text: String)
    ensures
        text@ == decimal(n as nat),
    decreases n,
{
    if n < 10 {
        let mut text = String::new();
        text.push(digit(n));
        assert(text@ =~= decimal(n as nat));
        text
    } else {
        let mut text = decimal_u64(n / 10);
        text.push(digit(n % 10));
        text
    }
}

/// `n` in decimal, with a minus sign in front of a negative number.
pub fn decimal_i64(n: i64) -> (text: String)
    ensures
        text@ == decimal_int(n as int),
{
    if n < 0 {
        let magnitude: u64 = (-(n as i128)) as u64;
        let mut text = String::new();
        text.push('-');
        text.append(decimal_u64(magnitude).as_str());
        assert(text@ =~= decimal_int(n as int));
        text
    } else {
        decimal_u64(n as u64)
    }
}

/// All characters of `text` are decimal digits, and there is at least one.
pub open spec fn is_numeral(text: Seq<char>) -> bool {
    &&& text.len() > 0
    &&& forall|k: int| 0 <= k < text.len() ==> is_digit(#[trigger] text[k])
}

/// The number that a sequence of decimal digits stands for.
pub open spec fn numeral_value(text: Seq<char>) -> nat
    decreases text.len(),
{
    if text.len() == 0 {
        0
    } else {
        numeral_value(text.drop_last()) * 10 + ((text.last() as int) - ('0' as int)) as nat
    }
}

/// `text` read as an unsigned 64-bit number: decimal digits, which a plus sign
/// may precede, with a value in range.
pub open spec fn read_u64(text: Seq<char>) -> Option<u64> {
    let digits = if text.len() > 0 && text[0] == '+' {
        text.skip(1)
    } else {
        text
    };
    if is_numeral(digits) && numeral_value(digits) <= u64::MAX {
        Some(numeral_value(digits) as u64)
    } else {
        None
    }
}

/// `text` read as a signed 64-bit number: decimal digits, which a sign may
/// precede, with a value in range.
pub open spec fn read_i64(text: Seq<char>) -> Option<i64> {
    let signed = text.len() > 0 && (text[0] == '+' || text[0] == '-');
    let digits = if signed {
        text.skip(1)
    } else {
        text
    };
    let value = if signed && text[0] == '-' {
        -(numeral_value(digits) as int)
    } else {
        numeral_value(digits) as int
    };
    if is_numeral(digits) && i64::MIN <= value <= i64::MAX {
        Some(value as i64)
    } else {
        None
    }
}

proof fn lemma_numeral_value_grows(text: Seq<char>, n: int)
    requires
        0 <= n <= text.len(),
    ensures
        numeral_value(text.take(n)) <= numeral_value(text),
    decreases text.len() - n,
{
    if n == text.len() {
        assert(text.take(n) =~= text);
    } else {
        assert(text.take(n + 1).drop_last() =~= text.take(n));
        lemma_numeral_value_grows(text, n + 1);
    }
}

/// The number that the digits `chars[from..]` stand for, where they are digits
/// and the number fits.
fn numeral_at(chars: &Vec<char>, from: usize) -> (value: Option<u64>)
    requires
        from <= chars.len(),
    ensures
        match value {
            Some(value) => is_numeral(chars@.skip(from as int)) && numeral_value(
                chars@.skip(from as int),
            ) == value,
            None => !is_numeral(chars@.skip(from as int)) || numeral_value(
                chars@.skip(from as int),
            ) > u64::MAX,
        },
{
    let ghost rest = chars@.skip(from as int);
    if from == chars.len() {
        return None;
    }
    let mut value: u64 = 0;
    let mut overflow: bool = false;
    let mut i: usize = from;
    assert(rest.take(0) =~= Seq::<char>::empty());
    while i < chars.len()
        invariant
            from <= i <= chars.len(),
            rest == chars@.skip(from as int),
            forall|k: int| 0 <= k < i - from ==> is_digit(#[trigger] rest[k]),
            !overflow ==> numeral_value(rest.take(i - from)) == value,
            overflow ==> numeral_value(rest.take(i - from)) > u64::MAX,
        decreases chars.len() - i,
    {
        let ch: char = chars[i];
        assert(rest[i - from] == ch);
        if ch < '0' || ch > '9' {
            return None;
        }
        let unit: u64 = (ch as u64) - 48;
        proof {
            let next = rest.take(i - from + 1);
            assert(next.drop_last() =~= rest.take(i - from));
            assert(next.last() == ch);
        }
        if !overflow {
            if value > (u64::MAX - unit) / 10 {
                overflow = true;
            } else {
                value = value * 10 + unit;
            }
        }
        i += 1;
    }
    assert(rest.take(i - from) =~= rest);
    if overflow {
        None
    } else {
        Some(value)
    }
}

/// `text` read as an unsigned 64-bit number.
pub fn parse_u64(text: &str) -> (value: Option<u64>)
    ensures
        value == read_u64(text@),
{
    let chars = chars_of(text);
    let from: usize = if chars.len() > 0 && chars[0] == '+' { 1 } else { 0 };
    assert(chars@.skip(0) =~= chars@);
    numeral_at(&chars, from)
}

/// `text` read as a signed 64-bit number.
pub fn parse_i64(text: &str) -> (value: Option<i64>)
    ensures
        value == read_i64(text@),
{
    let chars = chars_of(text);
    let signed: bool = chars.len() > 0 && (chars[0] == '+' || chars[0] == '-');
    let negative: bool = signed && chars[0] == '-';
    let from: usize = if signed { 1 } else { 0 };
    assert(chars@.skip(0) =~= chars@);
    match numeral_at(&chars, from) {
        None => None,
        Some(magnitude) => {
            if negative {
                if magnitude <= 9223372036854775808u64 {
                    Some((-(magnitude as i128)) as i64)
                } else {
                    None
                }
            } else if magnitude <= 9223372036854775807u64 {
                Some(magnitude as i64)
            } else {
                None
            }
        },
    }
}

/// Reading the decimal form of a number gives the number back.
pub proof fn law_read_decimal(n: u64)
    ensures
        read_u64(decimal(n as nat)) == Some(n),
{
    lemma_decimal_is_numeral(n as nat);
    let text = decimal(n as nat);
    assert(is_digit(text[0]));
}

/// The decimal form of a number is a numeral with the number as its value.
pub proof fn lemma_decimal_is_numeral(n: nat)
    ensures
        is_numeral(decimal(n)),
        numeral_value(decimal(n)) == n,
    decreases n,
{
    if n < 10 {
        let text = decimal(n);
        assert(text.drop_last() =~= Seq::<char>::empty());
        assert(text.last() == digit_char(n as int));
        assert(numeral_value(text.drop_last()) == 0);
    } else {
        lemma_decimal_is_numeral(n / 10);
        let text = decimal(n);
        assert(text.drop_last() =~= decimal(n / 10));
        assert(text.last() == digit_char((n % 10) as int));
        assert forall|k: int| 0 <= k < text.len() implies is_digit(#[trigger] text[k]) by {
            if k < text.len() - 1 {
                assert(text[k] == decimal(n / 10)[k]);
            }
        }
    }
}

/// The character of a hexadecimal digit, with small letters.
pub open spec fn hex_char(digit: int) -> char {
    if digit < 10 {
        (('0' as int) + digit) as char
    } else {
        (('a' as int) + digit - 10) as char
    }
}

/// Each byte as two hexadecimal digits.
pub open spec fn hex(bytes: Seq<u8>) -> Seq<char>
    decreases bytes.len(),
{
    if bytes.len() == 0 {
        seq![]
    } else {
        hex(bytes.drop_last()).push(hex_char((bytes.last() / 16) as int)).push(
            hex_char((bytes.last() % 16) as int),
        )
    }
}

fn hex_digit(n: u8) -> (ch: char)
    requires
        n < 16,
    ensures
        ch == hex_char(n as int),
{
    if n < 10 {
        (48u8 + n) as char
    } else {
        (87u8 + n) as char
    }
}

/// The first `count` bytes, each as two hexadecimal digits.
pub fn hex_prefix(bytes: &Vec<u8>, count: usize) -> (text: String)
    requires
        count <= bytes.len(),
    ensures
        text@ == hex(bytes@.take(count as int)),
{
    let mut text = String::new();
    let mut i: usize = 0;
    assert(bytes@.take(0) =~= Seq::<u8>::empty());
    while i < count
        invariant
            i <= count <= bytes.len(),
            text@ == hex(bytes@.take(i as int)),
        decreases count - i,
    {
        text.push(hex_digit(bytes[i] / 16));
        text.push(hex_digit(bytes[i] % 16));
        i += 1;
        assert(bytes@.take(i as int).drop_last() =~= bytes@.take(i - 1));
    }
    text
}

/// A sequence of bytes has two hexadecimal digits for each byte.
pub proof fn lemma_hex_len(bytes: Seq<u8>)
    ensures
        hex(bytes).len() == 2 * bytes.len(),
    decreases bytes.len(),
{
    if bytes.len() > 0 {
        lemma_hex_len(bytes.drop_last());
    }
}

} // verus!
