use img_optimizer::escape::{escape_sql_string, quote, sql_string_or_null};

#[test]
fn quotes_are_doubled() {
    assert_eq!(escape_sql_string("it's"), "it''s");
    assert_eq!(escape_sql_string("''"), "''''");
}

#[test]
fn backslash_and_line_breaks_become_spaces() {
    assert_eq!(escape_sql_string("a\\b"), "a b");
    assert_eq!(escape_sql_string("a\nb\rc\td"), "a b c d");
    assert_eq!(escape_sql_string("a\r\nb"), "a b");
}

#[test]
fn control_and_non_ascii_characters_are_dropped() {
    assert_eq!(escape_sql_string("a\u{0}b\u{7f}c"), "abc");
    assert_eq!(escape_sql_string("caf\u{e9} \u{4e2d}\u{6587} ok"), "caf ok");
    assert_eq!(escape_sql_string("\u{85}x\u{a0}y"), "xy");
}

#[test]
fn spaces_are_collapsed_and_trimmed() {
    assert_eq!(escape_sql_string("  a   b  "), "a b");
    assert_eq!(escape_sql_string("   "), "");
    assert_eq!(escape_sql_string(""), "");
    assert_eq!(escape_sql_string("a \u{e9} b"), "a b");
}

#[test]
fn escaped_text_holds_nothing_unsafe() {
    let out = escape_sql_string("O'Brien \\ said:\n\t'h\u{e9}llo' \u{1f600}");
    assert_eq!(out, "O''Brien said: ''hllo''");
    assert!(out.chars().all(|c| (' '..='~').contains(&c) && c != '\\'));
    assert!(!out.replace("''", "").contains('\''));
}

#[test]
fn absent_or_blank_text_is_null() {
    assert_eq!(sql_string_or_null(&None), "NULL");
    assert_eq!(sql_string_or_null(&Some(String::new())), "NULL");
    assert_eq!(sql_string_or_null(&Some(" \t\n".to_string())), "NULL");
}

#[test]
fn present_text_is_quoted_and_escaped() {
    assert_eq!(sql_string_or_null(&Some("mit".to_string())), "'mit'");
    assert_eq!(sql_string_or_null(&Some(" it's ".to_string())), "'it''s'");
    // Not blank before escaping, empty after it.
    assert_eq!(sql_string_or_null(&Some("\u{e9}".to_string())), "''");
}

#[test]
fn quote_wraps_text_as_it_is() {
    assert_eq!(quote("a b"), "'a b'");
    assert_eq!(quote(""), "''");
}
