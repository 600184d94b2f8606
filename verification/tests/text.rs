use agentic_afk::json::JsonDocument;
use agentic_afk::numerals::{decimal_i64, decimal_u64, hex_prefix, parse_i64, parse_u64};
use agentic_afk::text::{
    contains, starts_with, strip_prefix_or_keep, to_lower, to_upper, trimmed,
    trimmed_end_char, trimmed_start,
};
use agentic_afk::text_order::{comes_before, insert_ascending};
use agentic_afk::text_parts::{
    join_strings, replaced, split_char, split_lines, split_words, take_chars,
};

#[test]
fn white_space_is_trimmed() {
    let space = "\u{9}\u{a0}\u{2003}\u{3000} ";
    assert_eq!(trimmed(&format!("{space}a b{space}")), "a b");
    assert_eq!(trimmed_start(&format!("{space}a{space}")), format!("a{space}"));
    assert_eq!(trimmed(space), "");
    assert_eq!(trimmed("\u{200b}x"), "\u{200b}x");
    assert_eq!(trimmed_end_char("a//", '/'), "a");
}

#[test]
fn white_space_is_what_std_says() {
    let mut code: u32 = 0;
    while code <= 0x10ffff {
        if let Some(ch) = char::from_u32(code) {
            assert_eq!(trimmed(&ch.to_string()).is_empty(), ch.is_whitespace(), "{code:x}");
        }
        code += if code < 0x3100 { 1 } else { 251 };
    }
}

#[test]
fn texts_are_searched() {
    assert!(contains("abcabd", "abd"));
    assert!(contains("abc", ""));
    assert!(!contains("ab", "abc"));
    assert!(starts_with("refs/heads/main", "refs/heads/"));
    assert_eq!(strip_prefix_or_keep("origin/main", "origin/"), "main");
    assert_eq!(strip_prefix_or_keep("main", "origin/"), "main");
    assert_eq!(to_lower("AbÄ"), "abÄ");
    assert_eq!(to_upper("aBä"), "ABä");
}

#[test]
fn texts_are_taken_apart_as_std_does() {
    for text in ["", "\n", "a", "a\n", "a\r\nb\n\nc", "a\rb", "\r\n"] {
        let expected: Vec<String> = text.lines().map(str::to_string).collect();
        assert_eq!(split_lines(text), expected, "{text:?}");
        let expected: Vec<String> = text.split('\n').map(str::to_string).collect();
        assert_eq!(split_char(text, '\n'), expected, "{text:?}");
    }
    for text in ["", "  ", "a  b\tc\n", "\u{a0}x\u{a0}"] {
        let expected: Vec<String> = text.split_whitespace().map(str::to_string).collect();
        assert_eq!(split_words(text), expected, "{text:?}");
    }
    assert_eq!(join_strings(&split_char("a,b,,c", ','), "; "), "a; b; ; c");
    assert_eq!(replaced("aXbXX", "X", "--"), "aXbXX".replace("X", "--"));
    assert_eq!(replaced("aaa", "aa", "b"), "aaa".replace("aa", "b"));
    assert_eq!(take_chars("aüß", 2), "aü");
}

#[test]
fn numerals_are_written_and_read() {
    for n in [0, 7, 10, 12345678901234567890, u64::MAX] {
        assert_eq!(decimal_u64(n), n.to_string());
        assert_eq!(parse_u64(&n.to_string()), Some(n));
    }
    for n in [i64::MIN, -1, 0, 42, i64::MAX] {
        assert_eq!(decimal_i64(n), n.to_string());
        assert_eq!(parse_i64(&n.to_string()), Some(n));
    }
    for text in ["", "+", "-", "+7", "-7", "1 ", "9223372036854775808", "0x1", "٣"] {
        assert_eq!(parse_u64(text), text.parse::<u64>().ok(), "{text}");
        assert_eq!(parse_i64(text), text.parse::<i64>().ok(), "{text}");
    }
    assert_eq!(hex_prefix(&vec![0x00, 0xab, 0xff], 2), "00ab");
}

#[test]
fn texts_are_kept_in_order_without_repeats() {
    let mut list: Vec<String> = Vec::new();
    for text in ["b", "a", "ä", "b", "ab", ""] {
        insert_ascending(&mut list, text);
    }
    assert_eq!(list, ["", "a", "ab", "b", "ä"]);
    assert!(comes_before("Z", "a"));
    assert!(!comes_before("a", "a"));
}

#[test]
fn documents_print_in_both_forms() {
    let document = JsonDocument::parse(" { \"a\" : [ 1 , \"x\" ] } ").unwrap();
    assert_eq!(document.compact(), "{\"a\":[1,\"x\"]}");
    assert_eq!(document.pretty(), "{\n  \"a\": [\n    1,\n    \"x\"\n  ]\n}");
    assert_eq!(document.clone(), document);
    assert!(JsonDocument::parse("{").unwrap_err().contains("EOF"));
}
