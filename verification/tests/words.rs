//! Text helpers.

use ryu_monitors::text::{
    chars_of, contains_text, ct_eq, decimal, is_ascii_digit, is_blank, is_white_space, normalize_text,
    parse_unsigned, split_words, str_eq, string_of, trim,
};

#[test]
fn normalize_text_collapses_whitespace() {
    assert_eq!(normalize_text("  a\t b\n  c "), "a b c");
    assert_eq!(normalize_text(""), "");
}

#[test]
fn white_space_and_digits_are_those_of_std() {
    for c in '\0'..=char::MAX {
        assert_eq!(is_white_space(c), c.is_whitespace(), "{c:?}");
        assert_eq!(is_ascii_digit(c), c.is_ascii_digit(), "{c:?}");
    }
}

#[test]
fn words_and_trimming_are_those_of_std() {
    for text in ["", " ", "a", " a b ", "\u{2003}x\u{a0}y\u{85}", "\u{200b} z", "one two\r\nthree"] {
        let expected: Vec<&str> = text.split_whitespace().collect();
        assert_eq!(split_words(text), expected);
        assert_eq!(normalize_text(text), expected.join(" "));
        assert_eq!(normalize_text(&normalize_text(text)), normalize_text(text));
        assert_eq!(trim(text), text.trim());
        assert_eq!(is_blank(text), text.trim().is_empty());
    }
}

#[test]
fn numerals_read_and_write() {
    for n in [0u64, 7, 10, 65535, 4294967295, u64::MAX] {
        assert_eq!(decimal(n), n.to_string());
        assert_eq!(parse_unsigned(&decimal(n), u64::MAX), Some(n));
    }
    assert_eq!(parse_unsigned("18446744073709551616", u64::MAX), None);
    assert_eq!(parse_unsigned("6", 5), None);
    assert_eq!(parse_unsigned("0005", 5), Some(5));
    assert_eq!(parse_unsigned("++5", 9), None);
}

#[test]
fn comparisons_are_exact() {
    assert!(ct_eq(b"", b""));
    assert!(ct_eq(b"abc", b"abc"));
    assert!(!ct_eq(b"abc", b"abd"));
    assert!(!ct_eq(b"abc", b"ab"));
    assert!(!ct_eq(b"ab", b"abc"));
    assert!(!ct_eq(b"", b"\0"));
    assert!(!ct_eq(b"\0", b""));
    assert!(str_eq("\u{e9}", "\u{e9}"));
    assert!(!str_eq("e\u{301}", "\u{e9}"));
    assert_eq!(string_of(&chars_of("h\u{e9}llo"), 1, 3), "\u{e9}l");
}

#[test]
fn search_is_that_of_std() {
    let texts = ["", "a", "aab", "abcabd", "\u{e9}t\u{e9} \u{20ac}", "aaaaaaab"];
    let parts = ["", "a", "ab", "aab", "abd", "abe", "\u{e9} ", "\u{20ac}", "aaaaaaaab", "b"];
    for text in texts {
        for part in parts {
            assert_eq!(contains_text(text, part), text.contains(part), "{part:?} in {text:?}");
        }
    }
}
