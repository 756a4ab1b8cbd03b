use img_optimizer::text::{
    char_width, chars_of, decimal_string, is_blank, join, natural_string, truncate_to_bytes,
};

#[test]
fn blank_text_is_recognised() {
    assert!(is_blank(""));
    assert!(is_blank(" \t\n"));
    assert!(is_blank("\u{a0}\u{2003}"));
    assert!(!is_blank(" x "));
    assert!(!is_blank("\u{0}"));
}

#[test]
fn integers_are_written_in_decimal() {
    assert_eq!(decimal_string(0), "0");
    assert_eq!(decimal_string(7), "7");
    assert_eq!(decimal_string(10), "10");
    assert_eq!(decimal_string(-1), "-1");
    assert_eq!(decimal_string(1234567890), "1234567890");
    assert_eq!(decimal_string(i64::MAX), "9223372036854775807");
    assert_eq!(decimal_string(i64::MIN), "-9223372036854775808");
}

#[test]
fn naturals_are_written_in_decimal() {
    assert_eq!(natural_string(0), "0");
    assert_eq!(natural_string(905), "905");
    assert_eq!(natural_string(u64::MAX), "18446744073709551615");
}

#[test]
fn character_widths_follow_utf8() {
    assert_eq!(char_width('a'), 1);
    assert_eq!(char_width('\u{7f}'), 1);
    assert_eq!(char_width('\u{80}'), 2);
    assert_eq!(char_width('\u{e9}'), 2);
    assert_eq!(char_width('\u{7ff}'), 2);
    assert_eq!(char_width('\u{800}'), 3);
    assert_eq!(char_width('\u{4e2d}'), 3);
    assert_eq!(char_width('\u{ffff}'), 3);
    assert_eq!(char_width('\u{10000}'), 4);
    assert_eq!(char_width('\u{1f600}'), 4);
    for c in ['a', '\u{e9}', '\u{4e2d}', '\u{1f600}'] {
        assert_eq!(char_width(c), c.len_utf8());
    }
}

#[test]
fn truncation_keeps_whole_characters() {
    assert_eq!(truncate_to_bytes("hello", 10), "hello");
    assert_eq!(truncate_to_bytes("hello", 5), "hello");
    assert_eq!(truncate_to_bytes("hello", 3), "hel");
    assert_eq!(truncate_to_bytes("hello", 0), "");
    // Two bytes each: the third byte would split the second character.
    assert_eq!(truncate_to_bytes("\u{e9}\u{e9}\u{e9}", 3), "\u{e9}");
    assert_eq!(truncate_to_bytes("\u{e9}\u{e9}\u{e9}", 4), "\u{e9}\u{e9}");
    // A wide character that does not fit ends the text, even before a narrow one that would.
    assert_eq!(truncate_to_bytes("a\u{1f600}b", 3), "a");
}

#[test]
fn truncation_matches_slicing_on_a_boundary() {
    let text = "ab\u{e9}cd\u{4e2d}ef";
    for limit in 0..=text.len() {
        if text.is_char_boundary(limit) {
            assert_eq!(truncate_to_bytes(text, limit), &text[..limit]);
        }
    }
}

#[test]
fn parts_are_joined_with_the_separator() {
    let none: Vec<String> = Vec::new();
    assert_eq!(join(&none, ", "), "");
    assert_eq!(join(&vec!["a".to_string()], ", "), "a");
    assert_eq!(join(&vec!["a".to_string(), String::new(), "c".to_string()], ", "), "a, , c");
}

#[test]
fn characters_are_listed_one_by_one() {
    assert_eq!(chars_of("a\u{e9}b"), vec!['a', '\u{e9}', 'b']);
    assert!(chars_of("").is_empty());
}
