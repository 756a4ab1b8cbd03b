//! Escaping of arbitrary text for a single-quoted SQL literal.
//!
//! The escaping is lossy on purpose: the statements are read by a store that
//! takes plain ASCII text only, so backslashes become spaces and every
//! character outside printable ASCII is dropped.

use vstd::prelude::*;
use vstd::string::StringExecFns;
use crate::text::{is_blank, is_blank_text};

verus! {

/// What one character becomes before white space is collapsed: a quote is
/// doubled; a backslash, line feed, carriage return or tab becomes a space;
/// any other printable ASCII character stays; everything else is dropped.
pub open spec fn escape_char(c: char) -> Seq<char> {
    if c == '\'' {
        seq!['\'', '\'']
    } else if c == '\\' || c == '\n' || c == '\r' || c == '\t' {
        seq![' ']
    } else if ' ' <= c <= '~' {
        seq![c]
    } else {
        Seq::empty()
    }
}

/// The text with every character replaced by its escaped form.
pub open spec fn escape_chars(s: Seq<char>) -> Seq<char>
    decreases s.len(),
{
    if s.len() == 0 {
        Seq::empty()
    } else {
        escape_chars(s.drop_last()) + escape_char(s.last())
    }
}

/// Whether some character after position `i` is not a space.
pub open spec fn word_follows(t: Seq<char>, i: int) -> bool {
    exists|j: int| i < j < t.len() && t[j] != ' '
}

/// Whether the character at `i` survives collapsing. Every character but a
/// space does. A space survives when it directly follows a character that is
/// no space and a later character is no space either.
pub open spec fn survives(t: Seq<char>, i: int) -> bool {
    t[i] != ' ' || (0 < i && t[i - 1] != ' ' && word_follows(t, i))
}

/// The surviving characters among the first `n` of `t`, in order.
pub open spec fn collapse_prefix(t: Seq<char>, n: int) -> Seq<char>
    decreases n,
{
    if n <= 0 {
        Seq::empty()
    } else if survives(t, n - 1) {
        collapse_prefix(t, n - 1).push(t[n - 1])
    } else {
        collapse_prefix(t, n - 1)
    }
}

/// The text with every run of spaces reduced to one space and the spaces at
/// both ends removed.
pub open spec fn collapse_spaces(t: Seq<char>) -> Seq<char> {
    collapse_prefix(t, t.len() as int)
}

/// The escaped form of a text.
pub open spec fn sql_escape(s: Seq<char>) -> Seq<char> {
    collapse_spaces(escape_chars(s))
}

/// Every quote of the text stands in a pair of two adjacent quotes.
pub open spec fn quotes_paired(s: Seq<char>) -> bool
    decreases s.len(),
{
    if s.len() == 0 {
        true
    } else if s.last() != '\'' {
        quotes_paired(s.drop_last())
    } else {
        s.len() >= 2 && s[s.len() - 2] == '\'' && quotes_paired(s.take(s.len() - 2))
    }
}

/// Every character is printable ASCII and none is a backslash.
pub open spec fn plain_ascii(s: Seq<char>) -> bool {
    forall|i: int| 0 <= i < s.len() ==> ' ' <= #[trigger] s[i] <= '~' && s[i] != '\\'
}

/// A text that can stand between two single quotes without ending the
/// literal early: plain ASCII, with quotes only in pairs.
pub open spec fn is_sql_safe(s: Seq<char>) -> bool {
    plain_ascii(s) && quotes_paired(s)
}

/// The SQL expression for a value that is not there.
pub const SQL_NULL: &'static str = "NULL";

/// The text between single quotes.
pub open spec fn quoted(t: Seq<char>) -> Seq<char> {
    seq!['\''] + t + seq!['\'']
}

/// The SQL literal for an optional text: `NULL` when the text is absent or
/// blank, else the escaped text between single quotes.
pub open spec fn sql_literal(value: Option<Seq<char>>) -> Seq<char> {
    match value {
        Some(v) if !is_blank_text(v) => quoted(sql_escape(v)),
        _ => SQL_NULL@,
    }
}

proof fn lemma_escape_chars_push(s: Seq<char>, c: char)
    ensures
        escape_chars(s.push(c)) == escape_chars(s) + escape_char(c),
{
    assert(s.push(c).drop_last() =~= s);
}

proof fn lemma_escape_chars_plain(s: Seq<char>)
    ensures
        plain_ascii(escape_chars(s)),
    decreases s.len(),
{
    if s.len() > 0 {
        lemma_escape_chars_plain(s.drop_last());
    }
}

proof fn lemma_quotes_paired_push(s: Seq<char>, c: char)
    requires
        quotes_paired(s),
        c != '\'',
    ensures
        quotes_paired(s.push(c)),
{
    assert(s.push(c).drop_last() =~= s);
}

proof fn lemma_quotes_paired_push_pair(s: Seq<char>)
    requires
        quotes_paired(s),
    ensures
        quotes_paired(s.push('\'').push('\'')),
{
    let t = s.push('\'').push('\'');
    assert(t.take(t.len() - 2) =~= s);
}

proof fn lemma_escape_chars_paired(s: Seq<char>)
    ensures
        quotes_paired(escape_chars(s)),
    decreases s.len(),
{
    if s.len() > 0 {
        let head = escape_chars(s.drop_last());
        let c = s.last();
        lemma_escape_chars_paired(s.drop_last());
        if c == '\'' {
            lemma_quotes_paired_push_pair(head);
            assert(head + escape_char(c) =~= head.push('\'').push('\''));
        } else if c == '\\' || c == '\n' || c == '\r' || c == '\t' {
            lemma_quotes_paired_push(head, ' ');
            assert(head + escape_char(c) =~= head.push(' '));
        } else if ' ' <= c <= '~' {
            lemma_quotes_paired_push(head, c);
            assert(head + escape_char(c) =~= head.push(c));
        } else {
            assert(head + escape_char(c) =~= head);
        }
    }
}

proof fn lemma_collapse_keeps_plain(t: Seq<char>, n: int)
    requires
        plain_ascii(t),
        0 <= n <= t.len(),
    ensures
        plain_ascii(collapse_prefix(t, n)),
    decreases n,
{
    if n > 0 {
        lemma_collapse_keeps_plain(t, n - 1);
    }
}

proof fn lemma_collapse_keeps_pairs(t: Seq<char>, n: int)
    requires
        0 <= n <= t.len(),
        quotes_paired(t.take(n)),
    ensures
        quotes_paired(collapse_prefix(t, n)),
    decreases n,
{
    if n > 0 {
        let p = t.take(n);
        if t[n - 1] != '\'' {
            assert(p.drop_last() =~= t.take(n - 1));
            lemma_collapse_keeps_pairs(t, n - 1);
            if survives(t, n - 1) {
                lemma_quotes_paired_push(collapse_prefix(t, n - 1), t[n - 1]);
            }
        } else {
            assert(p.take(p.len() - 2) =~= t.take(n - 2));
            lemma_collapse_keeps_pairs(t, n - 2);
            lemma_quotes_paired_push_pair(collapse_prefix(t, n - 2));
            assert(survives(t, n - 1));
            assert(survives(t, n - 2));
            assert(collapse_prefix(t, n - 1) == collapse_prefix(t, n - 2).push('\''));
        }
    }
}

/// Escaped text never ends the literal it stands in: whatever the input
/// holds (quotes, backslashes, line breaks, tabs, characters outside ASCII),
/// the result is printable ASCII without a backslash, and each quote in it is
/// one half of a doubled quote.
pub proof fn lemma_escape_is_safe(s: Seq<char>)
    ensures
        is_sql_safe(sql_escape(s)),
{
    let t = escape_chars(s);
    lemma_escape_chars_plain(s);
    lemma_escape_chars_paired(s);
    assert(t.take(t.len() as int) =~= t);
    lemma_collapse_keeps_plain(t, t.len() as int);
    lemma_collapse_keeps_pairs(t, t.len() as int);
}

/// Whether a character passes through escaping as it is, wherever it stands:
/// printable ASCII other than the space, the quote and the backslash.
pub open spec fn is_plain_char(c: char) -> bool {
    ' ' < c <= '~' && c != '\'' && c != '\\'
}

proof fn lemma_escape_chars_of_plain(s: Seq<char>)
    requires
        forall|i: int| 0 <= i < s.len() ==> is_plain_char(#[trigger] s[i]),
    ensures
        escape_chars(s) == s,
    decreases s.len(),
{
    if s.len() > 0 {
        lemma_escape_chars_of_plain(s.drop_last());
        assert(is_plain_char(s[s.len() - 1]));
        assert(s.drop_last() + seq![s.last()] =~= s);
    }
}

proof fn lemma_collapse_without_spaces(t: Seq<char>, n: int)
    requires
        0 <= n <= t.len(),
        forall|i: int| 0 <= i < t.len() ==> #[trigger] t[i] != ' ',
    ensures
        collapse_prefix(t, n) == t.take(n),
    decreases n,
{
    if n > 0 {
        lemma_collapse_without_spaces(t, n - 1);
        assert(t.take(n - 1).push(t[n - 1]) =~= t.take(n));
    } else {
        assert(t.take(0) =~= Seq::<char>::empty());
    }
}

/// A text made of plain characters only is its own escaped form.
pub proof fn lemma_plain_text_unchanged(s: Seq<char>)
    requires
        forall|i: int| 0 <= i < s.len() ==> is_plain_char(#[trigger] s[i]),
    ensures
        sql_escape(s) == s,
{
    lemma_escape_chars_of_plain(s);
    assert forall|i: int| 0 <= i < s.len() implies #[trigger] s[i] != ' ' by {
        assert(is_plain_char(s[i]));
    }
    lemma_collapse_without_spaces(s, s.len() as int);
    assert(s.take(s.len() as int) =~= s);
}

/// No two neighbours are both spaces, and neither end is a space.
pub open spec fn is_tidy(c: Seq<char>) -> bool {
    &&& c.len() > 0 ==> c[0] != ' ' && c.last() != ' '
    &&& forall|i: int| 0 <= i < c.len() - 1 ==> !(#[trigger] c[i] == ' ' && c[i + 1] == ' ')
}

proof fn lemma_collapse_prefix_spacing(t: Seq<char>, n: int)
    requires
        0 <= n <= t.len(),
    ensures
        ({
            let c = collapse_prefix(t, n);
            &&& c.len() > 0 ==> c[0] != ' '
            &&& forall|i: int| 0 <= i < c.len() - 1 ==> !(#[trigger] c[i] == ' ' && c[i + 1] == ' ')
            &&& c.len() > 0 && c.last() == ' ' ==> n > 0 && t[n - 1] == ' ' && exists|j: int|
                n <= j < t.len() && t[j] != ' '
            &&& c.len() == 0 ==> forall|j: int| 0 <= j < n ==> t[j] == ' '
        }),
    decreases n,
{
    if n > 0 {
        lemma_collapse_prefix_spacing(t, n - 1);
        let before = collapse_prefix(t, n - 1);
        let c = collapse_prefix(t, n);
        let x = t[n - 1];
        if x != ' ' {
            assert(c == before.push(x));
        } else if survives(t, n - 1) {
            assert(c == before.push(' '));
            assert(t[n - 2] != ' ');
            assert(before.len() > 0);
            let w = choose|j: int| n - 1 < j < t.len() && t[j] != ' ';
            assert(n <= w < t.len() && t[w] != ' ');
        } else {
            assert(c == before);
            if before.len() > 0 && before.last() == ' ' {
                let w = choose|j: int| n - 1 <= j < t.len() && t[j] != ' ';
                assert(n <= w < t.len() && t[w] != ' ');
            }
        }
    }
}

/// Escaped text is tidy: no two spaces follow each other in it, and it
/// neither begins nor ends with a space.
pub proof fn lemma_escape_is_tidy(s: Seq<char>)
    ensures
        is_tidy(sql_escape(s)),
{
    let t = escape_chars(s);
    lemma_collapse_prefix_spacing(t, t.len() as int);
}

/// Spaces that no word follows do not survive.
proof fn lemma_collapse_trailing_spaces(t: Seq<char>, m: int, n: int)
    requires
        0 <= m <= n <= t.len(),
        forall|j: int| m <= j < t.len() ==> t[j] == ' ',
    ensures
        collapse_prefix(t, n) == collapse_prefix(t, m),
    decreases n - m,
{
    if m < n {
        lemma_collapse_trailing_spaces(t, m, n - 1);
        assert(!word_follows(t, n - 1));
    }
}

/// Of a run of spaces between two words only the first one survives; of a run
/// of spaces at the start of the text none does.
proof fn lemma_collapse_gap(t: Seq<char>, m: int, n: int)
    requires
        0 <= m <= n <= t.len(),
        forall|j: int| m <= j < n ==> t[j] == ' ',
        m == 0 || t[m - 1] != ' ',
        exists|j: int| n <= j < t.len() && t[j] != ' ',
    ensures
        collapse_prefix(t, n) == if 0 < m < n {
            collapse_prefix(t, m).push(' ')
        } else {
            collapse_prefix(t, m)
        },
    decreases n - m,
{
    if m < n {
        let w = choose|j: int| n <= j < t.len() && t[j] != ' ';
        lemma_collapse_gap(t, m, n - 1);
        if n - 1 == m {
            if 0 < m {
                assert(m < w < t.len() && t[w] != ' ');
            }
        } else {
            assert(t[n - 2] == ' ');
            assert(!survives(t, n - 1));
        }
    }
}

/// Reduces every run of spaces to one space and removes the spaces at both
/// ends.
fn collapse(t: &str) -> (out: String)
    ensures
        out@ == collapse_spaces(t@),
{
    let mut out = String::new();
    let mut started = false;
    let mut pending = false;
    let ghost mut m: int = 0;
    for c in it: t.chars()
        invariant
            it.seq() == t@,
            0 <= m <= it.index(),
            m == 0 || t@[m - 1] != ' ',
            forall|j: int| m <= j < it.index() ==> t@[j] == ' ',
            out@ == collapse_prefix(t@, m),
            started == (0 < m),
            pending == (0 < m < it.index()),
    {
        let ghost i = it.index();
        if c == ' ' {
            pending = started;
        } else {
            proof {
                assert(i <= i < t@.len() && t@[i] != ' ');
                lemma_collapse_gap(t@, m, i);
            }
            if pending {
                out.push(' ');
            }
            out.push(c);
            started = true;
            pending = false;
            proof {
                m = i + 1;
            }
        }
    }
    proof {
        lemma_collapse_trailing_spaces(t@, m, t@.len() as int);
    }
    out
}

/// Escapes a text for use inside a single-quoted SQL literal.
///
/// Quotes are doubled; backslashes, line breaks and tabs become spaces;
/// control characters and everything outside ASCII are dropped; runs of
/// spaces are then reduced to one space and the ends are trimmed.
pub fn escape_sql_string(s: &str) -> (out: String)
    ensures
        out@ == sql_escape(s@),
        is_sql_safe(out@),
        is_tidy(out@),
{
    let mut mapped = String::new();
    for c in it: s.chars()
        invariant
            it.seq() == s@,
            mapped@ == escape_chars(s@.take(it.index())),
    {
        proof {
            assert(s@.take(it.index() + 1) =~= s@.take(it.index()).push(c));
            lemma_escape_chars_push(s@.take(it.index()), c);
        }
        let ghost before = mapped@;
        if c == '\'' {
            mapped.push('\'');
            mapped.push('\'');
            assert(mapped@ =~= before + escape_char(c));
        } else if c == '\\' || c == '\n' || c == '\r' || c == '\t' {
            mapped.push(' ');
            assert(mapped@ =~= before + escape_char(c));
        } else if ' ' <= c && c <= '~' {
            mapped.push(c);
            assert(mapped@ =~= before + escape_char(c));
        } else {
            assert(mapped@ =~= before + escape_char(c));
        }
    }
    proof {
        assert(s@.take(s@.len() as int) =~= s@);
        lemma_escape_is_safe(s@);
        lemma_escape_is_tidy(s@);
    }
    collapse(mapped.as_str())
}

/// Renders an optional text as a SQL literal: `NULL` when it is absent or
/// blank, else the escaped text between single quotes.
pub fn sql_string_or_null(s: &Option<String>) -> (out: String)
    ensures
        out@ == sql_literal(s.deep_view()),
{
    match s {
        Some(val) => {
            if is_blank(val.as_str()) {
                String::from_str(SQL_NULL)
            } else {
                quote(escape_sql_string(val.as_str()).as_str())
            }
        },
        None => String::from_str(SQL_NULL),
    }
}

/// Puts a text between single quotes, as it is.
pub fn quote(t: &str) -> (out: String)
    ensures
        out@ == quoted(t@),
{
    let mut out = String::new();
    out.push('\'');
    out.append(t);
    out.push('\'');
    assert(out@ =~= quoted(t@));
    out
}

} // verus!
