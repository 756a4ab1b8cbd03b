//! The input record: one catalog entry as it arrives, every field but the id
//! optional.

use vstd::prelude::*;
use crate::identity::{identity_of, resolve_identity, Identity, IdentityView};
use crate::value::{FieldValue, FieldValueView};

verus! {

/// The optional fields that a record may carry beyond its core. Each may hold
/// any JSON value; none can make a record fail.
pub struct Extensions {
    pub source_trail: FieldValue,
    pub commercial_slots: FieldValue,
    pub notebooklm_summary: FieldValue,
    pub velocity_score: FieldValue,
    pub last_commercial_at: FieldValue,
    pub entity_type: FieldValue,
    pub meta_json: FieldValue,
    pub assets_json: FieldValue,
    pub relations_json: FieldValue,
    pub canonical_id: FieldValue,
    pub license_spdx: FieldValue,
    pub compliance_status: FieldValue,
    pub quality_score: FieldValue,
    pub content_hash: FieldValue,
    pub velocity: FieldValue,
}

/// The extension fields as plain values.
pub struct ExtensionsView {
    pub source_trail: FieldValueView,
    pub commercial_slots: FieldValueView,
    pub notebooklm_summary: FieldValueView,
    pub velocity_score: FieldValueView,
    pub last_commercial_at: FieldValueView,
    pub entity_type: FieldValueView,
    pub meta_json: FieldValueView,
    pub assets_json: FieldValueView,
    pub relations_json: FieldValueView,
    pub canonical_id: FieldValueView,
    pub license_spdx: FieldValueView,
    pub compliance_status: FieldValueView,
    pub quality_score: FieldValueView,
    pub content_hash: FieldValueView,
    pub velocity: FieldValueView,
}

impl View for Extensions {
    type V = ExtensionsView;

    open spec fn view(&self) -> ExtensionsView {
        ExtensionsView {
            source_trail: self.source_trail@,
            commercial_slots: self.commercial_slots@,
            notebooklm_summary: self.notebooklm_summary@,
            velocity_score: self.velocity_score@,
            last_commercial_at: self.last_commercial_at@,
            entity_type: self.entity_type@,
            meta_json: self.meta_json@,
            assets_json: self.assets_json@,
            relations_json: self.relations_json@,
            canonical_id: self.canonical_id@,
            license_spdx: self.license_spdx@,
            compliance_status: self.compliance_status@,
            quality_score: self.quality_score@,
            content_hash: self.content_hash@,
            velocity: self.velocity@,
        }
    }
}

impl Extensions {
    /// Extensions of a record that carries none.
    pub fn none() -> (extra: Extensions)
        ensures
            extra@ == ExtensionsView::none(),
    {
        Extensions {
            source_trail: FieldValue::Null,
            commercial_slots: FieldValue::Null,
            notebooklm_summary: FieldValue::Null,
            velocity_score: FieldValue::Null,
            last_commercial_at: FieldValue::Null,
            entity_type: FieldValue::Null,
            meta_json: FieldValue::Null,
            assets_json: FieldValue::Null,
            relations_json: FieldValue::Null,
            canonical_id: FieldValue::Null,
            license_spdx: FieldValue::Null,
            compliance_status: FieldValue::Null,
            quality_score: FieldValue::Null,
            content_hash: FieldValue::Null,
            velocity: FieldValue::Null,
        }
    }
}

impl ExtensionsView {
    /// Extensions of a record that carries none.
    pub open spec fn none() -> ExtensionsView {
        ExtensionsView {
            source_trail: FieldValueView::Null,
            commercial_slots: FieldValueView::Null,
            notebooklm_summary: FieldValueView::Null,
            velocity_score: FieldValueView::Null,
            last_commercial_at: FieldValueView::Null,
            entity_type: FieldValueView::Null,
            meta_json: FieldValueView::Null,
            assets_json: FieldValueView::Null,
            relations_json: FieldValueView::Null,
            canonical_id: FieldValueView::Null,
            license_spdx: FieldValueView::Null,
            compliance_status: FieldValueView::Null,
            quality_score: FieldValueView::Null,
            content_hash: FieldValueView::Null,
            velocity: FieldValueView::Null,
        }
    }
}

/// One catalog entry of the input.
pub struct Record {
    pub id: String,
    pub author: Option<String>,
    pub name: Option<String>,
    pub source: Option<String>,
    pub likes: Option<i64>,
    pub downloads: Option<i64>,
    pub tags: FieldValue,
    pub description: FieldValue,
    pub pipeline_tag: Option<String>,
    /// The full document that belongs to the record. It is stored apart from
    /// the metadata; the statement holds an excerpt and a reference.
    pub body_content: Option<String>,
    /// Where the record's image is to be fetched from, where it names a place.
    pub raw_image_url: Option<String>,
    pub extra: Extensions,
}

/// A record as plain values.
pub struct RecordView {
    pub id: Seq<char>,
    pub author: Option<Seq<char>>,
    pub name: Option<Seq<char>>,
    pub source: Option<Seq<char>>,
    pub likes: Option<i64>,
    pub downloads: Option<i64>,
    pub tags: FieldValueView,
    pub description: FieldValueView,
    pub pipeline_tag: Option<Seq<char>>,
    pub body_content: Option<Seq<char>>,
    pub raw_image_url: Option<Seq<char>>,
    pub extra: ExtensionsView,
}

impl View for Record {
    type V = RecordView;

    open spec fn view(&self) -> RecordView {
        RecordView {
            id: self.id@,
            author: self.author.deep_view(),
            name: self.name.deep_view(),
            source: self.source.deep_view(),
            likes: self.likes,
            downloads: self.downloads,
            tags: self.tags@,
            description: self.description@,
            pipeline_tag: self.pipeline_tag.deep_view(),
            body_content: self.body_content.deep_view(),
            raw_image_url: self.raw_image_url.deep_view(),
            extra: self.extra@,
        }
    }
}

impl RecordView {
    /// A record that holds an id and nothing else.
    pub open spec fn bare(id: Seq<char>) -> RecordView {
        RecordView {
            id,
            author: None,
            name: None,
            source: None,
            likes: None,
            downloads: None,
            tags: FieldValueView::Null,
            description: FieldValueView::Null,
            pipeline_tag: None,
            body_content: None,
            raw_image_url: None,
            extra: ExtensionsView::none(),
        }
    }

    /// The identity of the record.
    pub open spec fn identity(self) -> IdentityView {
        identity_of(self.id, self.author, self.name, self.source)
    }
}

impl Record {
    /// A record that holds an id and nothing else.
    pub fn new(id: String) -> (record: Record)
        ensures
            record@ == RecordView::bare(id@),
    {
        Record {
            id,
            author: None,
            name: None,
            source: None,
            likes: None,
            downloads: None,
            tags: FieldValue::Null,
            description: FieldValue::Null,
            pipeline_tag: None,
            body_content: None,
            raw_image_url: None,
            extra: Extensions::none(),
        }
    }

    /// Derives the identity of the record.
    pub fn identity(&self) -> (identity: Identity)
        ensures
            identity@ == self@.identity(),
    {
        resolve_identity(self.id.as_str(), &self.author, &self.name, &self.source)
    }
}

/// The identity of a record hangs on its id, author, name and source and on
/// nothing else: two records that agree on these four have one identity,
/// however they differ otherwise.
pub proof fn lemma_identity_reads_four_fields(a: RecordView, b: RecordView)
    requires
        a.id == b.id,
        a.author == b.author,
        a.name == b.name,
        a.source == b.source,
    ensures
        a.identity() == b.identity(),
{
}

} // verus!
