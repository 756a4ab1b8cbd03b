//! Loosely typed input values and what they become in a statement.
//!
//! A field of an input record may hold any JSON value. The pipeline reads
//! three things of it: whether it is there at all, its text where it is a
//! string, and its serialized form where it is anything else.

use vstd::prelude::*;
use vstd::string::StringExecFns;
use crate::escape::{
    is_plain_char, lemma_plain_text_unchanged, sql_escape, sql_literal, sql_string_or_null,
};
use crate::text::chars_of;

verus! {

/// Whether a character is a decimal digit.
pub open spec fn is_digit(c: char) -> bool {
    '0' <= c <= '9'
}

/// How many digits stand at the start of a text.
pub open spec fn leading_digits(s: Seq<char>) -> int
    decreases s.len(),
{
    if s.len() == 0 || !is_digit(s[0]) {
        0
    } else {
        1 + leading_digits(s.drop_first())
    }
}

/// One or more digits and nothing else.
pub open spec fn is_digits(s: Seq<char>) -> bool {
    s.len() > 0 && leading_digits(s) == s.len()
}

/// One or more digits, alone or followed by a point and one or more digits.
pub open spec fn is_unsigned_numeral(s: Seq<char>) -> bool {
    let whole = leading_digits(s);
    whole > 0 && (whole == s.len() || (s[whole] == '.' && is_digits(s.skip(whole + 1))))
}

/// A number in plain decimal notation: an optional minus sign, one or more
/// digits, and optionally a point followed by one or more digits.
pub open spec fn is_numeral(s: Seq<char>) -> bool {
    if s.len() > 0 && s[0] == '-' {
        is_unsigned_numeral(s.skip(1))
    } else {
        is_unsigned_numeral(s)
    }
}

proof fn lemma_leading_digits_at(s: Seq<char>, k: int)
    requires
        0 <= k <= s.len(),
        k < s.len() ==> !is_digit(s[k]),
        forall|j: int| 0 <= j < k ==> is_digit(s[j]),
    ensures
        leading_digits(s) == k,
    decreases k,
{
    if k > 0 {
        let t = s.drop_first();
        assert forall|j: int| 0 <= j < k - 1 implies is_digit(t[j]) by {
            assert(t[j] == s[j + 1]);
        }
        lemma_leading_digits_at(t, k - 1);
    }
}

/// The index after the digits that start at `from`.
fn skip_digits(chars: &Vec<char>, from: usize) -> (end: usize)
    requires
        from <= chars.len(),
    ensures
        from <= end <= chars.len(),
        end - from == leading_digits(chars@.skip(from as int)),
{
    let mut i = from;
    while i < chars.len() && '0' <= chars[i] && chars[i] <= '9'
        invariant
            from <= i <= chars.len(),
            forall|j: int| from <= j < i ==> is_digit(chars@[j]),
        decreases chars.len() - i,
    {
        i += 1;
    }
    proof {
        let t = chars@.skip(from as int);
        assert forall|j: int| 0 <= j < i - from implies is_digit(t[j]) by {
            assert(t[j] == chars@[j + from]);
        }
        lemma_leading_digits_at(t, i - from);
    }
    i
}

/// Whether a text is a number in plain decimal notation.
pub fn is_numeral_text(s: &str) -> (ok: bool)
    ensures
        ok == is_numeral(s@),
{
    let chars = chars_of(s);
    let n = chars.len();
    let start: usize = if n > 0 && chars[0] == '-' {
        1
    } else {
        0
    };
    let ghost body = chars@.skip(start as int);
    proof {
        if start == 0 {
            assert(body =~= s@);
        }
    }
    let whole_end = skip_digits(&chars, start);
    if whole_end == start {
        return false;
    }
    if whole_end == n {
        return true;
    }
    assert(body[whole_end - start] == chars@[whole_end as int]);
    if chars[whole_end] != '.' {
        return false;
    }
    let fraction_end = skip_digits(&chars, whole_end + 1);
    assert(body.skip(whole_end - start + 1) =~= chars@.skip(whole_end + 1));
    fraction_end == n && fraction_end > whole_end + 1
}

/// A number, held as its text in plain decimal notation.
pub struct Numeral {
    text: String,
}

impl View for Numeral {
    type V = Seq<char>;

    closed spec fn view(&self) -> Seq<char> {
        self.text@
    }
}

impl Numeral {
    #[verifier::type_invariant]
    spec fn well_formed(self) -> bool {
        is_numeral(self.text@)
    }

    /// Takes a text as a number where it is one in plain decimal notation.
    pub fn parse(text: &str) -> (numeral: Option<Numeral>)
        ensures
            numeral is Some == is_numeral(text@),
            numeral matches Some(n) ==> n@ == text@,
    {
        if is_numeral_text(text) {
            Some(Numeral { text: String::from_str(text) })
        } else {
            None
        }
    }

    /// The number's text.
    pub fn as_str(&self) -> (text: &str)
        ensures
            text@ == self@,
            is_numeral(text@),
    {
        proof {
            use_type_invariant(self);
        }
        self.text.as_str()
    }
}

proof fn lemma_leading_digits_are_digits(s: Seq<char>, j: int)
    requires
        0 <= j < leading_digits(s),
    ensures
        j < s.len(),
        is_digit(s[j]),
    decreases s.len(),
{
    if j > 0 {
        lemma_leading_digits_are_digits(s.drop_first(), j - 1);
    }
}

proof fn lemma_leading_digits_bounds(s: Seq<char>)
    ensures
        0 <= leading_digits(s) <= s.len(),
    decreases s.len(),
{
    if s.len() > 0 && is_digit(s[0]) {
        lemma_leading_digits_bounds(s.drop_first());
    }
}

proof fn lemma_unsigned_numeral_chars(s: Seq<char>, i: int)
    requires
        is_unsigned_numeral(s),
        0 <= i < s.len(),
    ensures
        is_digit(s[i]) || s[i] == '.',
{
    let whole = leading_digits(s);
    lemma_leading_digits_bounds(s);
    if i < whole {
        lemma_leading_digits_are_digits(s, i);
    } else if i > whole {
        let rest = s.skip(whole + 1);
        lemma_leading_digits_are_digits(rest, i - whole - 1);
        assert(rest[i - whole - 1] == s[i]);
    }
}

/// A number never needs quoting: its text holds digits, at most one point
/// and at most a leading minus sign, and escaping leaves it as it is.
pub proof fn lemma_numeral_needs_no_quoting(s: Seq<char>)
    requires
        is_numeral(s),
    ensures
        sql_escape(s) == s,
        !s.contains('\''),
        !s.contains(' '),
{
    assert forall|i: int| 0 <= i < s.len() implies is_plain_char(#[trigger] s[i]) by {
        if s[0] == '-' {
            if i > 0 {
                lemma_unsigned_numeral_chars(s.skip(1), i - 1);
                assert(s.skip(1)[i - 1] == s[i]);
            }
        } else {
            lemma_unsigned_numeral_chars(s, i);
        }
    }
    lemma_plain_text_unchanged(s);
}

/// What serializing a list of strings as a JSON array gives: the text, or
/// nothing where the serializer reports an error.
pub uninterp spec fn json_string_list(items: Seq<Seq<char>>) -> Option<Seq<char>>;

#[verifier::external_type_specification]
#[verifier::external_body]
pub struct ExJsonError(serde_json::Error);

/// Calls `serde_json::to_string` on a list of strings. The call returns the
/// list as the text of a JSON array, or an error; which of the two, and which
/// text, depends on the list alone.
#[verifier::external_body]
fn serialize_string_list(items: &Vec<String>) -> (out: Result<String, serde_json::Error>)
    ensures
        out matches Ok(text) ==> json_string_list(items.deep_view()) == Some(text@),
        out is Err ==> json_string_list(items.deep_view()) is None,
{
    serde_json::to_string(items)
}

/// The text that stands for a list of strings: its JSON array, or `[]` where
/// it cannot be serialized.
pub open spec fn list_text_of(items: Seq<Seq<char>>) -> Seq<char> {
    match json_string_list(items) {
        Some(text) => text,
        None => "[]"@,
    }
}

/// Settles on the text for a list of strings once serializing it has given
/// a text or failed.
pub fn list_text_or_default(serialized: Option<String>) -> (out: String)
    ensures
        out@ == match serialized {
            Some(text) => text@,
            None => "[]"@,
        },
{
    match serialized {
        Some(text) => text,
        None => String::from_str("[]"),
    }
}

/// The text that stands for a list of strings.
pub fn list_text(items: &Vec<String>) -> (out: String)
    ensures
        out@ == list_text_of(items.deep_view()),
{
    let serialized = match serialize_string_list(items) {
        Ok(text) => Some(text),
        Err(_) => None,
    };
    list_text_or_default(serialized)
}

/// A loosely typed field of an input record.
pub enum FieldValue {
    /// Absent, or JSON `null`.
    Null,
    /// A JSON string.
    Text(String),
    /// A JSON number.
    Number(Numeral),
    /// A JSON array of strings.
    TextList(Vec<String>),
    /// Any other JSON value, held as its serialized text.
    Json(String),
}

/// A field value as plain texts.
pub enum FieldValueView {
    Null,
    Text(Seq<char>),
    Number(Seq<char>),
    TextList(Seq<Seq<char>>),
    Json(Seq<char>),
}

impl View for FieldValue {
    type V = FieldValueView;

    open spec fn view(&self) -> FieldValueView {
        match self {
            FieldValue::Null => FieldValueView::Null,
            FieldValue::Text(s) => FieldValueView::Text(s@),
            FieldValue::Number(n) => FieldValueView::Number(n@),
            FieldValue::TextList(items) => FieldValueView::TextList(items.deep_view()),
            FieldValue::Json(s) => FieldValueView::Json(s@),
        }
    }
}

impl FieldValueView {
    /// The value as a text: a string as it is, nothing for an absent value,
    /// the serialized form for everything else.
    pub open spec fn text(self) -> Seq<char> {
        match self {
            FieldValueView::Null => Seq::empty(),
            FieldValueView::Text(s) => s,
            FieldValueView::Number(n) => n,
            FieldValueView::TextList(items) => list_text_of(items),
            FieldValueView::Json(s) => s,
        }
    }

    /// The value as a text where there is a value.
    pub open spec fn optional_text(self) -> Option<Seq<char>> {
        match self {
            FieldValueView::Null => None,
            _ => Some(self.text()),
        }
    }

    /// The value as a SQL expression: a number as it is, `NULL` for an absent
    /// or blank value, else the escaped text between single quotes.
    pub open spec fn sql_text(self) -> Seq<char> {
        match self {
            FieldValueView::Number(n) => n,
            _ => sql_literal(self.optional_text()),
        }
    }
}

impl FieldValue {
    /// The value as a text: a string as it is, the empty text for an absent
    /// value, the serialized form for everything else.
    pub fn as_text(&self) -> (out: String)
        ensures
            out@ == self@.text(),
    {
        match self {
            FieldValue::Null => String::new(),
            FieldValue::Text(s) => s.clone(),
            FieldValue::Number(n) => String::from_str(n.as_str()),
            FieldValue::TextList(items) => list_text(items),
            FieldValue::Json(s) => s.clone(),
        }
    }

    /// The value as a text where there is a value.
    pub fn as_optional_text(&self) -> (out: Option<String>)
        ensures
            out.deep_view() == self@.optional_text(),
    {
        match self {
            FieldValue::Null => None,
            _ => Some(self.as_text()),
        }
    }

    /// The value as a SQL expression: a number as it is, `NULL` for an absent
    /// or blank value, else the escaped text between single quotes.
    pub fn as_sql_text(&self) -> (out: String)
        ensures
            out@ == self@.sql_text(),
    {
        match self {
            FieldValue::Number(n) => String::from_str(n.as_str()),
            _ => sql_string_or_null(&self.as_optional_text()),
        }
    }
}

} // verus!
