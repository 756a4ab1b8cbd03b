//! The image of a record: where it is fetched from, where it is stored, and
//! the statement that points the record at it.

use vstd::prelude::*;
use vstd::string::StringExecFns;

verus! {

/// Widest image, in pixels, that is stored without being scaled down.
pub const MAX_IMAGE_WIDTH: u32 = 1200;

/// The source whose authors have an avatar to fall back on.
pub const AVATAR_SOURCE: &'static str = "github";

/// How the address of an author's avatar begins.
pub const AVATAR_URL_HEAD: &'static str = "https://github.com/";

/// How the address of an author's avatar ends.
pub const AVATAR_URL_TAIL: &'static str = ".png";

/// The directory that stored images go to.
pub const IMAGE_DIR: &'static str = "data/images/";

/// The prefix of the keys under which stored images are published.
pub const IMAGE_KEY_HEAD: &'static str = "models/";

/// The file extension of stored images.
pub const IMAGE_EXTENSION: &'static str = ".webp";

/// The host that publishes stored images.
pub const IMAGE_HOST: &'static str = "https://cdn.free2aitools.com/";

/// How the statement that sets a record's image begins.
pub const IMAGE_UPDATE_HEAD: &'static str = "UPDATE models SET cover_image_url = '";

/// What stands between the image's address and the record's id in that
/// statement.
pub const IMAGE_UPDATE_MIDDLE: &'static str = "' WHERE id = '";

/// How that statement ends.
pub const IMAGE_UPDATE_TAIL: &'static str = "';\n";

/// Whether an image of the given width has to be scaled down before it is
/// stored.
pub fn exceeds_max_width(width: u32) -> (over: bool)
    ensures
        over == (width > MAX_IMAGE_WIDTH),
{
    width > MAX_IMAGE_WIDTH
}

/// Whether an HTTP status reports success: the codes from 200 to 299 do.
pub open spec fn is_success_status(status: u16) -> bool {
    200 <= status < 300
}

/// Whether an HTTP status reports success.
pub fn is_success(status: u16) -> (ok: bool)
    ensures
        ok == is_success_status(status),
{
    200 <= status && status < 300
}

/// The address of an author's avatar.
pub open spec fn avatar_url_of(author: Seq<char>) -> Seq<char> {
    AVATAR_URL_HEAD@ + author + AVATAR_URL_TAIL@
}

/// Where the image of a record is fetched from: the address that the record
/// names; else, for a record of the avatar source, the avatar of its author;
/// else nowhere.
pub open spec fn image_source_of(
    raw_image_url: Option<Seq<char>>,
    source: Seq<char>,
    author: Seq<char>,
) -> Option<Seq<char>> {
    match raw_image_url {
        Some(url) => Some(url),
        None => if source == AVATAR_SOURCE@ {
            Some(avatar_url_of(author))
        } else {
            None
        },
    }
}

/// The file that the image of a record is stored in.
pub open spec fn image_path_of(internal_id: Seq<char>) -> Seq<char> {
    IMAGE_DIR@ + internal_id + IMAGE_EXTENSION@
}

/// The key under which the image of a record is published.
pub open spec fn image_key_of(internal_id: Seq<char>) -> Seq<char> {
    IMAGE_KEY_HEAD@ + internal_id + IMAGE_EXTENSION@
}

/// The public address of the stored image of a record.
pub open spec fn image_url_of(internal_id: Seq<char>) -> Seq<char> {
    IMAGE_HOST@ + image_key_of(internal_id)
}

/// The statement that points a record at its stored image. The id stands in
/// it as it is, unescaped.
pub open spec fn image_update_of(internal_id: Seq<char>) -> Seq<char> {
    IMAGE_UPDATE_HEAD@ + image_url_of(internal_id) + IMAGE_UPDATE_MIDDLE@ + internal_id
        + IMAGE_UPDATE_TAIL@
}

/// Picks where the image of a record is fetched from.
pub fn image_source(raw_image_url: &Option<String>, source: &str, author: &str) -> (url: Option<
    String,
>)
    ensures
        url.deep_view() == image_source_of(raw_image_url.deep_view(), source@, author@),
{
    match raw_image_url {
        Some(url) => Some(url.clone()),
        None => {
            if String::from_str(source) == String::from_str(AVATAR_SOURCE) {
                let mut url = String::from_str(AVATAR_URL_HEAD);
                url.append(author);
                url.append(AVATAR_URL_TAIL);
                Some(url)
            } else {
                None
            }
        },
    }
}

/// The file that the image of a record is stored in.
pub fn image_path(internal_id: &str) -> (path: String)
    ensures
        path@ == image_path_of(internal_id@),
{
    let mut path = String::from_str(IMAGE_DIR);
    path.append(internal_id);
    path.append(IMAGE_EXTENSION);
    path
}

/// The key under which the image of a record is published.
pub fn image_key(internal_id: &str) -> (key: String)
    ensures
        key@ == image_key_of(internal_id@),
{
    let mut key = String::from_str(IMAGE_KEY_HEAD);
    key.append(internal_id);
    key.append(IMAGE_EXTENSION);
    key
}

/// The public address of the stored image of a record.
pub fn image_url(internal_id: &str) -> (url: String)
    ensures
        url@ == image_url_of(internal_id@),
{
    let mut url = String::from_str(IMAGE_HOST);
    url.append(image_key(internal_id).as_str());
    url
}

/// Builds the statement that points a record at its stored image.
pub fn image_update_statement(internal_id: &str) -> (out: String)
    ensures
        out@ == image_update_of(internal_id@),
{
    let mut out = String::from_str(IMAGE_UPDATE_HEAD);
    out.append(image_url(internal_id).as_str());
    out.append(IMAGE_UPDATE_MIDDLE);
    out.append(internal_id);
    out.append(IMAGE_UPDATE_TAIL);
    out
}

} // verus!
