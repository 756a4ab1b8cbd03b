//! The full document of a record. It is too large for the metadata: it is
//! stored in a file of its own, and the statement refers to it by address.

use vstd::prelude::*;
use vstd::string::StringExecFns;
use crate::text::{is_blank, is_blank_text};

verus! {

/// The address under which documents are published where none is configured.
pub const DEFAULT_URL_PREFIX: &'static str = "https://cdn.free2aitools.com";

/// The directory that documents go to.
pub const DOCUMENT_DIR: &'static str = "data/docs/";

/// The part of a document's address that follows the configured prefix.
pub const DOCUMENT_URL_MIDDLE: &'static str = "/docs/";

/// The file extension of documents.
pub const DOCUMENT_EXTENSION: &'static str = ".md";

/// Whether a record has a document worth storing: one that is not blank.
pub open spec fn has_document(body: Option<Seq<char>>) -> bool {
    match body {
        Some(text) => !is_blank_text(text),
        None => false,
    }
}

/// The file that the document of a record is stored in.
pub open spec fn document_path_of(internal_id: Seq<char>) -> Seq<char> {
    DOCUMENT_DIR@ + internal_id + DOCUMENT_EXTENSION@
}

/// The public address of the stored document of a record.
pub open spec fn document_url_of(prefix: Seq<char>, internal_id: Seq<char>) -> Seq<char> {
    prefix + DOCUMENT_URL_MIDDLE@ + internal_id + DOCUMENT_EXTENSION@
}

/// Whether a record has a document worth storing.
pub fn wants_document(body: &Option<String>) -> (wanted: bool)
    ensures
        wanted == has_document(body.deep_view()),
{
    match body {
        Some(text) => !is_blank(text.as_str()),
        None => false,
    }
}

/// The file that the document of a record is stored in.
pub fn document_path(internal_id: &str) -> (path: String)
    ensures
        path@ == document_path_of(internal_id@),
{
    let mut path = String::from_str(DOCUMENT_DIR);
    path.append(internal_id);
    path.append(DOCUMENT_EXTENSION);
    path
}

/// The public address of the stored document of a record.
pub fn document_url(prefix: &str, internal_id: &str) -> (url: String)
    ensures
        url@ == document_url_of(prefix@, internal_id@),
{
    let mut url = String::from_str(prefix);
    url.append(DOCUMENT_URL_MIDDLE);
    url.append(internal_id);
    url.append(DOCUMENT_EXTENSION);
    url
}

} // verus!
