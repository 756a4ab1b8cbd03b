//! Text primitives shared by the rest of the library: what the standard
//! library is trusted to do with characters, and small verified helpers built
//! on top of it.

use vstd::prelude::*;
use vstd::string::StringExecFns;

verus! {

/// `String::push` appends one character to the end of the string.
pub assume_specification[ String::push ](s: &mut String, ch: char)
    ensures
        final(s)@ == old(s)@.push(ch),
;

/// Whether the standard library counts `c` as white space
/// (the Unicode property `White_Space`).
pub uninterp spec fn is_whitespace_char(c: char) -> bool;

/// `char::is_whitespace` reports the Unicode property `White_Space` of a
/// character; the property itself is not spelled out here.
pub assume_specification[ char::is_whitespace ](c: char) -> (white: bool)
    ensures
        white == is_whitespace_char(c),
;

/// The lower-case form that the standard library gives a text.
pub uninterp spec fn lowercase(s: Seq<char>) -> Seq<char>;

/// `str::to_lowercase` returns the lower-case equivalent of a text as a new
/// string. The mapping follows the Unicode tables and is not spelled out here.
pub assume_specification[ str::to_lowercase ](s: &str) -> (lower: String)
    ensures
        lower@ == lowercase(s@),
;

/// A text is blank when it is empty or holds white space only.
pub open spec fn is_blank_text(s: Seq<char>) -> bool {
    forall|i: int| 0 <= i < s.len() ==> is_whitespace_char(#[trigger] s[i])
}

/// Whether nothing would be left of `s` after trimming white space.
pub fn is_blank(s: &str) -> (blank: bool)
    ensures
        blank == is_blank_text(s@),
{
    for c in it: s.chars()
        invariant
            it.seq() == s@,
            is_blank_text(s@.take(it.index())),
    {
        if !c.is_whitespace() {
            assert(!is_whitespace_char(s@[it.index()]));
            return false;
        }
        assert forall|i: int| 0 <= i < it.index() + 1 implies is_whitespace_char(
            #[trigger] s@.take(it.index() + 1)[i],
        ) by {
            if i < it.index() {
                assert(s@.take(it.index() + 1)[i] == s@.take(it.index())[i]);
            }
        }
    }
    assert(s@.take(s@.len() as int) =~= s@);
    true
}

/// The digit that stands for a value below ten.
pub open spec fn digit_char(d: int) -> char {
    (d + 48) as char
}

/// The decimal digits of a natural number, without leading zeros.
pub open spec fn decimal_digits(n: nat) -> Seq<char>
    decreases n,
{
    if n < 10 {
        seq![digit_char(n as int)]
    } else {
        decimal_digits(n / 10).push(digit_char((n % 10) as int))
    }
}

/// The decimal form of an integer: a minus sign where it is negative, then
/// the digits of its magnitude.
pub open spec fn decimal(n: int) -> Seq<char> {
    if n < 0 {
        seq!['-'] + decimal_digits((-n) as nat)
    } else {
        decimal_digits(n as nat)
    }
}

/// Appends the decimal digits of `n` to `out`.
fn push_decimal_digits(out: &mut String, n: u64)
    ensures
        final(out)@ == old(out)@ + decimal_digits(n as nat),
    decreases n,
{
    if n >= 10 {
        push_decimal_digits(out, n / 10);
    }
    let d: u8 = (n % 10) as u8;
    let c: char = (d + 48) as char;
    assert(c == digit_char((n % 10) as int));
    out.push(c);
    assert(out@ =~= old(out)@ + decimal_digits(n as nat));
}

/// The decimal digits of a natural number.
pub fn natural_string(n: u64) -> (out: String)
    ensures
        out@ == decimal_digits(n as nat),
{
    let mut out = String::new();
    push_decimal_digits(&mut out, n);
    assert(out@ =~= decimal_digits(n as nat));
    out
}

/// The decimal form of an integer.
pub fn decimal_string(n: i64) -> (out: String)
    ensures
        out@ == decimal(n as int),
{
    let mut out = String::new();
    if n < 0 {
        out.push('-');
        let magnitude: u64 = ((-(n + 1)) as u64) + 1;
        push_decimal_digits(&mut out, magnitude);
    } else {
        push_decimal_digits(&mut out, n as u64);
    }
    assert(out@ =~= decimal(n as int));
    out
}

/// The number of bytes that a character takes in UTF-8.
pub open spec fn utf8_width(c: char) -> nat {
    if (c as u32) < 0x80 {
        1
    } else if (c as u32) < 0x800 {
        2
    } else if (c as u32) < 0x10000 {
        3
    } else {
        4
    }
}

/// The number of bytes that a text takes in UTF-8.
pub open spec fn utf8_len(s: Seq<char>) -> nat
    decreases s.len(),
{
    if s.len() == 0 {
        0
    } else {
        utf8_len(s.drop_last()) + utf8_width(s.last())
    }
}

/// The longest run of whole characters from the start of `s` that takes at
/// most `limit` bytes in UTF-8.
pub open spec fn byte_prefix(s: Seq<char>, limit: int) -> Seq<char>
    decreases s.len(),
{
    if s.len() == 0 || utf8_width(s[0]) > limit {
        Seq::empty()
    } else {
        seq![s[0]] + byte_prefix(s.drop_first(), limit - utf8_width(s[0]))
    }
}

proof fn lemma_utf8_len_prepend(c: char, t: Seq<char>)
    ensures
        utf8_len(seq![c] + t) == utf8_width(c) + utf8_len(t),
    decreases t.len(),
{
    let all = seq![c] + t;
    if t.len() == 0 {
        assert(all.drop_last() =~= Seq::<char>::empty());
        assert(all.last() == c);
        assert(utf8_len(all) == utf8_len(all.drop_last()) + utf8_width(all.last()));
    } else {
        lemma_utf8_len_prepend(c, t.drop_last());
        assert(all.drop_last() =~= seq![c] + t.drop_last());
        assert(all.last() == t.last());
        assert(utf8_len(all) == utf8_len(all.drop_last()) + utf8_width(all.last()));
    }
}

/// The cut text is the longest start of the text that fits: it is made of
/// the first characters of the text as they are, it takes no more bytes than
/// the limit, and where it leaves characters out, the next one would already
/// exceed the limit.
pub proof fn lemma_byte_prefix_is_longest(s: Seq<char>, limit: int)
    requires
        limit >= 0,
    ensures
        byte_prefix(s, limit).len() <= s.len(),
        byte_prefix(s, limit) == s.take(byte_prefix(s, limit).len() as int),
        utf8_len(byte_prefix(s, limit)) <= limit,
        byte_prefix(s, limit).len() < s.len() ==> utf8_len(
            s.take(byte_prefix(s, limit).len() as int + 1),
        ) > limit,
    decreases s.len(),
{
    let p = byte_prefix(s, limit);
    if s.len() == 0 {
        assert(p =~= s.take(0));
    } else if utf8_width(s[0]) > limit {
        assert(p =~= s.take(0));
        assert(s.take(1) =~= seq![s[0]] + Seq::<char>::empty());
        lemma_utf8_len_prepend(s[0], Seq::empty());
    } else {
        let rest = s.drop_first();
        let left = limit - utf8_width(s[0]);
        let q = byte_prefix(rest, left);
        lemma_byte_prefix_is_longest(rest, left);
        lemma_utf8_len_prepend(s[0], q);
        assert(p =~= s.take(p.len() as int)) by {
            assert(s.take(q.len() as int + 1) =~= seq![s[0]] + rest.take(q.len() as int));
        }
        if p.len() < s.len() {
            let more = rest.take(q.len() as int + 1);
            lemma_utf8_len_prepend(s[0], more);
            assert(s.take(p.len() as int + 1) =~= seq![s[0]] + more);
        }
    }
}

/// The number of bytes that a character takes in UTF-8.
pub fn char_width(c: char) -> (width: usize)
    ensures
        width == utf8_width(c),
{
    let code: u32 = c as u32;
    if code < 0x80 {
        1
    } else if code < 0x800 {
        2
    } else if code < 0x10000 {
        3
    } else {
        4
    }
}

/// Cuts a text down to the longest run of whole characters from its start
/// that takes at most `limit` bytes in UTF-8.
pub fn truncate_to_bytes(s: &str, limit: usize) -> (out: String)
    ensures
        out@ == byte_prefix(s@, limit as int),
{
    let mut out = String::new();
    let mut left: usize = limit;
    let mut full = false;
    proof {
        assert(s@.skip(0) =~= s@);
        assert(out@ =~= s@.take(0));
        assert(out@ + byte_prefix(s@, limit as int) =~= byte_prefix(s@, limit as int));
    }
    for c in it: s.chars()
        invariant
            it.seq() == s@,
            left <= limit,
            !full ==> out@ == s@.take(it.index()) && byte_prefix(s@, limit as int) == out@
                + byte_prefix(s@.skip(it.index()), left as int),
            full ==> out@ == byte_prefix(s@, limit as int),
    {
        let ghost i = it.index();
        if !full {
            let width = char_width(c);
            proof {
                assert(s@.skip(i)[0] == c);
                assert(s@.skip(i).drop_first() =~= s@.skip(i + 1));
            }
            if width > left {
                full = true;
                assert(out@ + byte_prefix(s@.skip(i), left as int) =~= out@);
            } else {
                out.push(c);
                left = left - width;
                assert(s@.take(i + 1) =~= s@.take(i).push(c));
                assert(s@.take(i) + (seq![c] + byte_prefix(s@.skip(i + 1), left as int))
                    =~= s@.take(i).push(c) + byte_prefix(s@.skip(i + 1), left as int));
            }
        }
    }
    proof {
        if !full {
            assert(s@.skip(s@.len() as int) =~= Seq::<char>::empty());
            assert(out@ + Seq::<char>::empty() =~= out@);
        }
    }
    out
}

/// The parts laid end to end with `sep` between each two neighbours.
pub open spec fn joined(parts: Seq<Seq<char>>, sep: Seq<char>) -> Seq<char>
    decreases parts.len(),
{
    if parts.len() == 0 {
        Seq::empty()
    } else if parts.len() == 1 {
        parts[0]
    } else {
        joined(parts.drop_last(), sep) + sep + parts.last()
    }
}

/// Lays the parts end to end with `sep` between each two neighbours.
pub fn join(parts: &Vec<String>, sep: &str) -> (out: String)
    ensures
        out@ == joined(parts.deep_view(), sep@),
{
    let mut out = String::new();
    let ghost all = parts.deep_view();
    for i in 0..parts.len()
        invariant
            all == parts.deep_view(),
            out@ == joined(all.take(i as int), sep@),
    {
        proof {
            assert(all.take(i + 1).drop_last() =~= all.take(i as int));
            assert(all.take(i + 1).last() == parts[i as int]@);
        }
        if i > 0 {
            out.append(sep);
        }
        out.append(parts[i].as_str());
        proof {
            if i == 0 {
                assert(out@ =~= parts[i as int]@);
            }
        }
    }
    assert(all.take(parts.len() as int) =~= all);
    out
}

/// The characters of a text, one vector entry each.
pub fn chars_of(s: &str) -> (chars: Vec<char>)
    ensures
        chars@ == s@,
{
    let mut chars: Vec<char> = Vec::new();
    for c in it: s.chars()
        invariant
            it.seq() == s@,
            chars@ == s@.take(it.index()),
    {
        chars.push(c);
        assert(chars@ =~= s@.take(it.index() + 1));
    }
    assert(s@.take(s@.len() as int) =~= s@);
    chars
}

} // verus!
