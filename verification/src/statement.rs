//! The two statements that a record gives rise to: the upsert of its
//! metadata, and the update that points it at its stored image.

use vstd::prelude::*;
use vstd::string::StringExecFns;
use crate::escape::{
    escape_sql_string, quote, quoted, sql_escape, sql_literal, sql_string_or_null, SQL_NULL,
};
use crate::identity::{Identity, IdentityView};
use crate::record::{Record, RecordView};
use crate::text::{byte_prefix, decimal, decimal_string, join, joined, truncate_to_bytes};
use crate::value::{FieldValue, FieldValueView};

verus! {

/// How an upsert begins: the table and its columns, in the order of the values.
pub const UPSERT_HEAD: &'static str =
    "INSERT OR REPLACE INTO models (id, slug, name, author, description, tags, pipeline_tag, likes, downloads, cover_image_url, source_trail, commercial_slots, notebooklm_summary, velocity_score, last_commercial_at, type, body_content, body_content_url, meta_json, assets_json, relations_json, canonical_id, license_spdx, compliance_status, quality_score, content_hash, velocity, raw_image_url, last_updated) VALUES (";

/// How an upsert ends.
pub const UPSERT_TAIL: &'static str = ");\n";

/// What stands between two values of an upsert.
pub const VALUE_SEPARATOR: &'static str = ", ";

/// The tags of a record that names none.
pub const DEFAULT_TAGS: &'static str = "[]";

/// The pipeline tag of a record that names none.
pub const DEFAULT_PIPELINE_TAG: &'static str = "other";

/// The entity type of a record that names none.
pub const DEFAULT_ENTITY_TYPE: &'static str = "model";

/// The compliance status of a record that names none.
pub const DEFAULT_COMPLIANCE_STATUS: &'static str = "pending";

/// The expression that the store replaces by the time of the upsert.
pub const CURRENT_TIMESTAMP: &'static str = "CURRENT_TIMESTAMP";

/// The most bytes of a document that a statement carries as search text.
pub const SEARCH_TEXT_BYTES: usize = 5000;

/// An optional text as a SQL literal, escaped: present even where it is
/// blank, `NULL` only where it is absent.
pub open spec fn escaped_literal(value: Option<Seq<char>>) -> Seq<char> {
    match value {
        Some(text) => quoted(sql_escape(text)),
        None => SQL_NULL@,
    }
}

/// An optional text as a SQL literal, escaped, with a fallback that stands
/// as it is where the text is absent.
pub open spec fn escaped_literal_or(value: Option<Seq<char>>, fallback: Seq<char>) -> Seq<char> {
    match value {
        Some(text) => quoted(sql_escape(text)),
        None => quoted(fallback),
    }
}

/// An optional text as a SQL literal, taken as it is: nothing in it is
/// escaped.
pub open spec fn verbatim_literal(value: Option<Seq<char>>) -> Seq<char> {
    match value {
        Some(text) => quoted(text),
        None => SQL_NULL@,
    }
}

/// The text that stands for the tags of a record.
pub open spec fn tags_text(tags: FieldValueView) -> Seq<char> {
    match tags {
        FieldValueView::Null => DEFAULT_TAGS@,
        _ => tags.text(),
    }
}

/// The pipeline tag of a record.
pub open spec fn pipeline_tag_of(tag: Option<Seq<char>>) -> Seq<char> {
    match tag {
        Some(t) => t,
        None => DEFAULT_PIPELINE_TAG@,
    }
}

/// A count of a record; zero where the record names none.
pub open spec fn count_of(count: Option<i64>) -> int {
    match count {
        Some(n) => n as int,
        None => 0,
    }
}

/// The part of a document that a statement carries as search text.
pub open spec fn search_text_of(body: Option<Seq<char>>) -> Option<Seq<char>> {
    match body {
        Some(text) => Some(byte_prefix(text, SEARCH_TEXT_BYTES as int)),
        None => None,
    }
}

/// The values of the upsert for a record, in the order of the columns.
/// `document_url` is where the record's document can be read, where it was
/// stored.
pub open spec fn upsert_values(
    record: RecordView,
    identity: IdentityView,
    document_url: Option<Seq<char>>,
) -> Seq<Seq<char>> {
    seq![
        quoted(sql_escape(identity.internal_id)),
        quoted(sql_escape(identity.slug)),
        quoted(sql_escape(identity.name)),
        quoted(sql_escape(identity.author)),
        quoted(sql_escape(record.description.text())),
        quoted(sql_escape(tags_text(record.tags))),
        quoted(sql_escape(pipeline_tag_of(record.pipeline_tag))),
        decimal(count_of(record.likes)),
        decimal(count_of(record.downloads)),
        SQL_NULL@,
        record.extra.source_trail.sql_text(),
        record.extra.commercial_slots.sql_text(),
        record.extra.notebooklm_summary.sql_text(),
        record.extra.velocity_score.sql_text(),
        escaped_literal(record.extra.last_commercial_at.optional_text()),
        escaped_literal_or(record.extra.entity_type.optional_text(), DEFAULT_ENTITY_TYPE@),
        escaped_literal(search_text_of(record.body_content)),
        verbatim_literal(document_url),
        record.extra.meta_json.sql_text(),
        record.extra.assets_json.sql_text(),
        record.extra.relations_json.sql_text(),
        record.extra.canonical_id.sql_text(),
        record.extra.license_spdx.sql_text(),
        escaped_literal_or(
            record.extra.compliance_status.optional_text(),
            DEFAULT_COMPLIANCE_STATUS@,
        ),
        record.extra.quality_score.sql_text(),
        verbatim_literal(record.extra.content_hash.optional_text()),
        record.extra.velocity.sql_text(),
        sql_literal(record.raw_image_url),
        CURRENT_TIMESTAMP@,
    ]
}

/// The upsert for a record: one line that inserts the record's row or
/// replaces the row that has its id.
pub open spec fn upsert_statement_of(
    record: RecordView,
    identity: IdentityView,
    document_url: Option<Seq<char>>,
) -> Seq<char> {
    UPSERT_HEAD@ + joined(upsert_values(record, identity, document_url), VALUE_SEPARATOR@)
        + UPSERT_TAIL@
}

/// Renders an optional text as an escaped SQL literal; `NULL` only where it
/// is absent.
pub fn escaped_or_null(value: &Option<String>) -> (out: String)
    ensures
        out@ == escaped_literal(value.deep_view()),
{
    match value {
        Some(text) => quote(escape_sql_string(text.as_str()).as_str()),
        None => String::from_str(SQL_NULL),
    }
}

/// Renders an optional text as an escaped SQL literal; the fallback, quoted
/// as it is, where the text is absent.
pub fn escaped_or(value: &Option<String>, fallback: &str) -> (out: String)
    ensures
        out@ == escaped_literal_or(value.deep_view(), fallback@),
{
    match value {
        Some(text) => quote(escape_sql_string(text.as_str()).as_str()),
        None => quote(fallback),
    }
}

/// Renders an optional text as a SQL literal without escaping anything in
/// it; `NULL` where it is absent.
pub fn verbatim_or_null(value: &Option<String>) -> (out: String)
    ensures
        out@ == verbatim_literal(value.deep_view()),
{
    match value {
        Some(text) => quote(text.as_str()),
        None => String::from_str(SQL_NULL),
    }
}

/// The text that stands for the tags of a record.
pub fn tags_as_text(tags: &FieldValue) -> (out: String)
    ensures
        out@ == tags_text(tags@),
{
    match tags {
        FieldValue::Null => String::from_str(DEFAULT_TAGS),
        _ => tags.as_text(),
    }
}

/// The part of a document that a statement carries as search text.
pub fn search_text(body: &Option<String>) -> (out: Option<String>)
    ensures
        out.deep_view() == search_text_of(body.deep_view()),
{
    match body {
        Some(text) => Some(truncate_to_bytes(text.as_str(), SEARCH_TEXT_BYTES)),
        None => None,
    }
}

fn count_or_zero(count: &Option<i64>) -> (n: i64)
    ensures
        n == count_of(*count),
{
    match count {
        Some(n) => *n,
        None => 0,
    }
}

/// Builds the values of the upsert for a record, in the order of the columns.
pub fn upsert_row(record: &Record, identity: &Identity, document_url: &Option<String>) -> (row:
    Vec<String>)
    ensures
        row.deep_view() == upsert_values(record@, identity@, document_url.deep_view()),
{
    let mut row: Vec<String> = Vec::new();
    row.push(quote(escape_sql_string(identity.internal_id.as_str()).as_str()));
    row.push(quote(escape_sql_string(identity.slug.as_str()).as_str()));
    row.push(quote(escape_sql_string(identity.name.as_str()).as_str()));
    row.push(quote(escape_sql_string(identity.author.as_str()).as_str()));
    row.push(quote(escape_sql_string(record.description.as_text().as_str()).as_str()));
    row.push(quote(escape_sql_string(tags_as_text(&record.tags).as_str()).as_str()));
    let pipeline = match &record.pipeline_tag {
        Some(tag) => tag.clone(),
        None => String::from_str(DEFAULT_PIPELINE_TAG),
    };
    row.push(quote(escape_sql_string(pipeline.as_str()).as_str()));
    row.push(decimal_string(count_or_zero(&record.likes)));
    row.push(decimal_string(count_or_zero(&record.downloads)));
    row.push(String::from_str(SQL_NULL));
    row.push(record.extra.source_trail.as_sql_text());
    row.push(record.extra.commercial_slots.as_sql_text());
    row.push(record.extra.notebooklm_summary.as_sql_text());
    row.push(record.extra.velocity_score.as_sql_text());
    row.push(escaped_or_null(&record.extra.last_commercial_at.as_optional_text()));
    row.push(escaped_or(&record.extra.entity_type.as_optional_text(), DEFAULT_ENTITY_TYPE));
    row.push(escaped_or_null(&search_text(&record.body_content)));
    row.push(verbatim_or_null(document_url));
    row.push(record.extra.meta_json.as_sql_text());
    row.push(record.extra.assets_json.as_sql_text());
    row.push(record.extra.relations_json.as_sql_text());
    row.push(record.extra.canonical_id.as_sql_text());
    row.push(record.extra.license_spdx.as_sql_text());
    row.push(
        escaped_or(&record.extra.compliance_status.as_optional_text(), DEFAULT_COMPLIANCE_STATUS),
    );
    row.push(record.extra.quality_score.as_sql_text());
    row.push(verbatim_or_null(&record.extra.content_hash.as_optional_text()));
    row.push(record.extra.velocity.as_sql_text());
    row.push(sql_string_or_null(&record.raw_image_url));
    row.push(String::from_str(CURRENT_TIMESTAMP));
    assert(row.deep_view() =~= upsert_values(record@, identity@, document_url.deep_view()));
    row
}

/// Builds the upsert for a record.
pub fn upsert_statement(record: &Record, identity: &Identity, document_url: &Option<String>) -> (out:
    String)
    ensures
        out@ == upsert_statement_of(record@, identity@, document_url.deep_view()),
{
    let row = upsert_row(record, identity, document_url);
    let mut out = String::from_str(UPSERT_HEAD);
    out.append(join(&row, VALUE_SEPARATOR).as_str());
    out.append(UPSERT_TAIL);
    out
}

} // verus!
