//! The identity of a record: a stable internal id and a lower-case slug,
//! derived from where the record comes from, who wrote it and what it is
//! called.

use vstd::prelude::*;
use vstd::string::StringExecFns;
use crate::text::lowercase;

verus! {

/// The source given to a record that names none.
pub const DEFAULT_SOURCE: &'static str = "huggingface";

/// The author given to a record whose id holds no `/` to split at.
pub const UNKNOWN_AUTHOR: &'static str = "unknown";

/// What is derived from a record's id, author, name and source.
pub struct Identity {
    pub source: String,
    pub author: String,
    pub name: String,
    pub internal_id: String,
    pub slug: String,
}

/// An identity as plain texts.
pub struct IdentityView {
    pub source: Seq<char>,
    pub author: Seq<char>,
    pub name: Seq<char>,
    pub internal_id: Seq<char>,
    pub slug: Seq<char>,
}

impl View for Identity {
    type V = IdentityView;

    open spec fn view(&self) -> IdentityView {
        IdentityView {
            source: self.source@,
            author: self.author@,
            name: self.name@,
            internal_id: self.internal_id@,
            slug: self.slug@,
        }
    }
}

/// The position of the first `/` in `s`; the length of `s` where it has none.
pub open spec fn first_slash(s: Seq<char>) -> int
    decreases s.len(),
{
    if s.len() == 0 || s[0] == '/' {
        0
    } else {
        1 + first_slash(s.drop_first())
    }
}

/// The source of a record: the one it names, else the default.
pub open spec fn resolved_source(source: Option<Seq<char>>) -> Seq<char> {
    match source {
        Some(s) => s,
        None => DEFAULT_SOURCE@,
    }
}

/// Author and name as read from an id alone. An id with a `/` gives what
/// stands before the first `/` and what stands between the first and the
/// second; an id without one gives the unknown author and the whole id; the
/// empty id gives two empty texts.
pub open spec fn names_from_id(id: Seq<char>) -> (Seq<char>, Seq<char>) {
    let k = first_slash(id);
    if id.len() == 0 {
        (Seq::empty(), Seq::empty())
    } else if k < id.len() {
        let rest = id.skip(k + 1);
        (id.take(k), rest.take(first_slash(rest)))
    } else {
        (UNKNOWN_AUTHOR@, id)
    }
}

/// Author and name of a record: the two it names where it names both, else
/// what its id gives.
pub open spec fn resolved_names(
    id: Seq<char>,
    author: Option<Seq<char>>,
    name: Option<Seq<char>>,
) -> (Seq<char>, Seq<char>) {
    match (author, name) {
        (Some(a), Some(n)) => (a, n),
        _ => names_from_id(id),
    }
}

/// What a character becomes in an id: `/` and `_` become `-`.
pub open spec fn sanitized_char(c: char) -> char {
    if c == '/' || c == '_' {
        '-'
    } else {
        c
    }
}

/// The text with every `/` and `_` replaced by `-`.
pub open spec fn sanitized(s: Seq<char>) -> Seq<char> {
    s.map_values(|c: char| sanitized_char(c))
}

/// The internal id for a source, an author and a name.
pub open spec fn internal_id_of(source: Seq<char>, author: Seq<char>, name: Seq<char>) -> Seq<
    char,
> {
    source + "-"@ + sanitized(author) + "-"@ + sanitized(name)
}

/// A slug from its three parts, each already in its final form.
pub open spec fn slug_from(source: Seq<char>, author: Seq<char>, name: Seq<char>) -> Seq<char> {
    source + "--"@ + author + "--"@ + name
}

/// The slug for a source, an author and a name.
pub open spec fn slug_of(source: Seq<char>, author: Seq<char>, name: Seq<char>) -> Seq<char> {
    slug_from(source, lowercase(sanitized(author)), lowercase(sanitized(name)))
}

/// The identity for a source, an author and a name.
pub open spec fn identity_from(source: Seq<char>, author: Seq<char>, name: Seq<char>)
    -> IdentityView {
    IdentityView {
        source,
        author,
        name,
        internal_id: internal_id_of(source, author, name),
        slug: slug_of(source, author, name),
    }
}

/// The identity of a record with the given id, author, name and source.
pub open spec fn identity_of(
    id: Seq<char>,
    author: Option<Seq<char>>,
    name: Option<Seq<char>>,
    source: Option<Seq<char>>,
) -> IdentityView {
    let names = resolved_names(id, author, name);
    identity_from(resolved_source(source), names.0, names.1)
}

/// Two records that resolve to the same source, author and name share one
/// identity, whatever their ids and whichever of author and name they named
/// themselves. Such a collision is expected: the later record replaces the
/// earlier one downstream.
pub proof fn lemma_same_names_same_identity(
    id1: Seq<char>,
    author1: Option<Seq<char>>,
    name1: Option<Seq<char>>,
    source1: Option<Seq<char>>,
    id2: Seq<char>,
    author2: Option<Seq<char>>,
    name2: Option<Seq<char>>,
    source2: Option<Seq<char>>,
)
    requires
        resolved_source(source1) == resolved_source(source2),
        resolved_names(id1, author1, name1) == resolved_names(id2, author2, name2),
    ensures
        identity_of(id1, author1, name1, source1) == identity_of(id2, author2, name2, source2),
{
}

proof fn lemma_first_slash_at(s: Seq<char>, k: int)
    requires
        0 <= k <= s.len(),
        k < s.len() ==> s[k] == '/',
        forall|j: int| 0 <= j < k ==> s[j] != '/',
    ensures
        first_slash(s) == k,
    decreases k,
{
    if k > 0 {
        let t = s.drop_first();
        assert forall|j: int| 0 <= j < k - 1 implies t[j] != '/' by {
            assert(t[j] == s[j + 1]);
        }
        lemma_first_slash_at(t, k - 1);
    }
}

/// Replaces every `/` and `_` of a text by `-`.
pub fn sanitize(s: &str) -> (out: String)
    ensures
        out@ == sanitized(s@),
{
    let mut out = String::new();
    for c in it: s.chars()
        invariant
            it.seq() == s@,
            out@ == sanitized(s@.take(it.index())),
    {
        if c == '/' || c == '_' {
            out.push('-');
        } else {
            out.push(c);
        }
        assert(out@ =~= sanitized(s@.take(it.index() + 1)));
    }
    assert(s@.take(s@.len() as int) =~= s@);
    out
}

/// Reads author and name from an id.
pub fn split_id(id: &str) -> (names: (String, String))
    ensures
        (names.0@, names.1@) == names_from_id(id@),
{
    let mut first = String::new();
    let mut second = String::new();
    let mut slashes: u8 = 0;
    let mut any = false;
    let ghost mut k: int = 0;
    for c in it: id.chars()
        invariant
            it.seq() == id@,
            slashes <= 2,
            any == (it.index() > 0),
            slashes == 0 ==> first@ == id@.take(it.index()) && second@.len() == 0 && forall|
                j: int,
            | 0 <= j < it.index() ==> id@[j] != '/',
            slashes >= 1 ==> 0 <= k < it.index() && k == first_slash(id@) && first@ == id@.take(k),
            slashes == 1 ==> second@ == id@.subrange(k + 1, it.index()) && forall|j: int|
                k < j < it.index() ==> id@[j] != '/',
            slashes == 2 ==> second@ == id@.skip(k + 1).take(first_slash(id@.skip(k + 1))),
    {
        let ghost i = it.index();
        any = true;
        if slashes == 0 {
            if c == '/' {
                proof {
                    lemma_first_slash_at(id@, i);
                    k = i;
                    assert(second@ =~= id@.subrange(i + 1, i + 1));
                }
                slashes = 1;
            } else {
                first.push(c);
                assert(first@ =~= id@.take(i + 1));
            }
        } else if slashes == 1 {
            let ghost rest = id@.skip(k + 1);
            if c == '/' {
                proof {
                    assert forall|j: int| 0 <= j < i - k - 1 implies rest[j] != '/' by {
                        assert(rest[j] == id@[j + k + 1]);
                    }
                    assert(rest[i - k - 1] == id@[i]);
                    lemma_first_slash_at(rest, i - k - 1);
                    assert(second@ =~= rest.take(i - k - 1));
                }
                slashes = 2;
            } else {
                second.push(c);
                assert(second@ =~= id@.subrange(k + 1, i + 1));
            }
        }
    }
    proof {
        let n = id@.len() as int;
        if slashes == 0 {
            lemma_first_slash_at(id@, n);
            assert(first@ =~= id@);
        } else if slashes == 1 {
            let rest = id@.skip(k + 1);
            assert forall|j: int| 0 <= j < rest.len() implies rest[j] != '/' by {
                assert(rest[j] == id@[j + k + 1]);
            }
            lemma_first_slash_at(rest, rest.len() as int);
            assert(second@ =~= rest.take(rest.len() as int));
        }
    }
    if slashes == 0 {
        if any {
            (String::from_str(UNKNOWN_AUTHOR), first)
        } else {
            (first, second)
        }
    } else {
        (first, second)
    }
}

/// Builds the internal id for a source, an author and a name.
pub fn internal_id(source: &str, author: &str, name: &str) -> (out: String)
    ensures
        out@ == internal_id_of(source@, author@, name@),
{
    let mut out = String::from_str(source);
    out.append("-");
    out.append(sanitize(author).as_str());
    out.append("-");
    out.append(sanitize(name).as_str());
    out
}

/// Builds a slug from its three parts, each already in its final form.
pub fn slug_from_parts(source: &str, author: &str, name: &str) -> (out: String)
    ensures
        out@ == slug_from(source@, author@, name@),
{
    let mut out = String::from_str(source);
    out.append("--");
    out.append(author);
    out.append("--");
    out.append(name);
    out
}

/// Builds the slug for a source, an author and a name: the source as it is,
/// then the sanitized author and name in lower case, `--` between them.
pub fn slug(source: &str, author: &str, name: &str) -> (out: String)
    ensures
        out@ == slug_of(source@, author@, name@),
{
    let lower_author = sanitize(author).as_str().to_lowercase();
    let lower_name = sanitize(name).as_str().to_lowercase();
    slug_from_parts(source, lower_author.as_str(), lower_name.as_str())
}

/// Derives the identity of a record from its id and from the author, name
/// and source that it may name. Every input has an identity: nothing is
/// rejected, the empty id included.
pub fn resolve_identity(
    id: &str,
    author: &Option<String>,
    name: &Option<String>,
    source: &Option<String>,
) -> (identity: Identity)
    ensures
        identity@ == identity_of(id@, author.deep_view(), name.deep_view(), source.deep_view()),
{
    let source_text = match source {
        Some(s) => s.clone(),
        None => String::from_str(DEFAULT_SOURCE),
    };
    let (author_text, name_text) = match (author, name) {
        (Some(a), Some(n)) => (a.clone(), n.clone()),
        _ => split_id(id),
    };
    let internal = internal_id(source_text.as_str(), author_text.as_str(), name_text.as_str());
    let slug_text = slug(source_text.as_str(), author_text.as_str(), name_text.as_str());
    Identity {
        source: source_text,
        author: author_text,
        name: name_text,
        internal_id: internal,
        slug: slug_text,
    }
}

} // verus!
