use img_optimizer::value::{is_numeral_text, list_text, list_text_or_default, FieldValue, Numeral};

fn number(text: &str) -> FieldValue {
    FieldValue::Number(Numeral::parse(text).expect("a numeral"))
}

#[test]
fn numerals_in_plain_decimal_notation_are_accepted() {
    for text in ["0", "7", "123", "-5", "0.5", "-0.25", "10.0", "-0", "000", "1.000"] {
        assert!(is_numeral_text(text), "{}", text);
        assert_eq!(Numeral::parse(text).expect("a numeral").as_str(), text);
    }
}

#[test]
fn everything_else_is_no_numeral() {
    for text in [
        "", "-", ".", "1.", ".5", "-.5", "1..2", "1.2.3", "--1", "1-", "+1", "1e5", "1 ", " 1",
        "NaN", "inf", "-inf", "1,5", "0x10", "1'", "\u{661}",
    ] {
        assert!(!is_numeral_text(text), "{}", text);
        assert!(Numeral::parse(text).is_none(), "{}", text);
    }
}

#[test]
fn numerals_agree_with_how_floats_are_shown() {
    for value in [0.0f64, 1.0, -1.5, 0.87, 1e-7, 1e21, 123456.789, f64::MAX, f64::MIN_POSITIVE] {
        assert!(is_numeral_text(&value.to_string()), "{}", value);
    }
    assert!(!is_numeral_text(&f64::NAN.to_string()));
    assert!(!is_numeral_text(&f64::INFINITY.to_string()));
}

#[test]
fn string_lists_are_serialized_as_json_arrays() {
    assert_eq!(list_text(&Vec::new()), "[]");
    assert_eq!(list_text(&vec!["nlp".to_string()]), "[\"nlp\"]");
    assert_eq!(
        list_text(&vec!["a\"b".to_string(), "c\\d".to_string(), "e\nf".to_string()]),
        "[\"a\\\"b\",\"c\\\\d\",\"e\\nf\"]"
    );
    let tags = vec!["text-generation".to_string(), "caf\u{e9}".to_string()];
    assert_eq!(list_text(&tags), serde_json::to_string(&tags).unwrap());
}

#[test]
fn a_failed_serialization_falls_back_to_the_empty_list() {
    assert_eq!(list_text_or_default(None), "[]");
    assert_eq!(list_text_or_default(Some("[\"x\"]".to_string())), "[\"x\"]");
    assert_eq!(list_text_or_default(Some(String::new())), "");
}

#[test]
fn values_as_text() {
    assert_eq!(FieldValue::Null.as_text(), "");
    assert_eq!(FieldValue::Text("it's".to_string()).as_text(), "it's");
    assert_eq!(number("-0.5").as_text(), "-0.5");
    assert_eq!(FieldValue::TextList(vec!["a".to_string(), "b".to_string()]).as_text(), "[\"a\",\"b\"]");
    assert_eq!(FieldValue::Json("{\"k\":1}".to_string()).as_text(), "{\"k\":1}");
}

#[test]
fn values_as_optional_text() {
    assert_eq!(FieldValue::Null.as_optional_text(), None);
    assert_eq!(FieldValue::Text(String::new()).as_optional_text(), Some(String::new()));
    assert_eq!(FieldValue::Text("x".to_string()).as_optional_text(), Some("x".to_string()));
    assert_eq!(number("12").as_optional_text(), Some("12".to_string()));
    assert_eq!(FieldValue::TextList(Vec::new()).as_optional_text(), Some("[]".to_string()));
    assert_eq!(FieldValue::Json("true".to_string()).as_optional_text(), Some("true".to_string()));
}

#[test]
fn values_as_sql_text() {
    assert_eq!(FieldValue::Null.as_sql_text(), "NULL");
    assert_eq!(FieldValue::Text(String::new()).as_sql_text(), "NULL");
    assert_eq!(FieldValue::Text("  ".to_string()).as_sql_text(), "NULL");
    assert_eq!(FieldValue::Text("it's".to_string()).as_sql_text(), "'it''s'");
    assert_eq!(FieldValue::Json("{\"k\":\"it's\"}".to_string()).as_sql_text(), "'{\"k\":\"it''s\"}'");
    assert_eq!(
        FieldValue::TextList(vec!["a".to_string()]).as_sql_text(),
        "'[\"a\"]'"
    );
}

#[test]
fn numbers_are_never_quoted() {
    assert_eq!(number("0.87").as_sql_text(), "0.87");
    assert_eq!(number("-3").as_sql_text(), "-3");
    assert_eq!(number("0").as_sql_text(), "0");
}

#[test]
fn escaping_leaves_a_numeral_as_it_is() {
    for text in ["0", "-12.5", "179769313486231570000000000000", "0.0000001"] {
        assert_eq!(img_optimizer::escape::escape_sql_string(text), text);
    }
}
