//! The service at waifu.im: where to ask, and how to read its answer.

use vstd::prelude::*;
use serde_json::Value;
use crate::fetch::{FetchError, Filter, Reply, ReplyView};
use crate::image::Field;
use crate::json::{element, json_of, member, parse, parsed, Json};

verus! {

/// The address of a request, up to the value of its one parameter.
pub const ENDPOINT: &'static str = "https://api.waifu.im/random/?is_nsfw=";

/// The value of the request's parameter that asks for `filter`.
pub open spec fn parameter(filter: Filter) -> Seq<char> {
    match filter {
        Filter::Random => "null"@,
        Filter::Sfw => "false"@,
        Filter::Nsfw => "true"@,
    }
}

/// The address to ask for one image under `filter`.
pub open spec fn address(filter: Filter) -> Seq<char> {
    ENDPOINT@ + parameter(filter)
}

/// The address to ask for one image under `filter`.
pub fn request_url(filter: Filter) -> (url: String)
    ensures
        url@ == address(filter),
{
    let mut url = String::from_str(ENDPOINT);
    url.append(
        match filter {
            Filter::Random => "null",
            Filter::Sfw => "false",
            Filter::Nsfw => "true",
        },
    );
    url
}

/// The place in an answer where the image is described: the first element of
/// the member `images`.
pub open spec fn entry_of(document: Json) -> Json {
    document.member("images"@).element(0)
}

/// The first field that cannot be filled from `entry`, in the order in which
/// the fields are read; none where all can.
pub open spec fn first_gap(entry: Json) -> Option<Field> {
    if entry.member("source"@).text() is None {
        Some(Field::PostUrl)
    } else if entry.member("url"@).text() is None {
        Some(Field::ImgUrl)
    } else if entry.member("preview_url"@).text() is None {
        Some(Field::PreviewUrl)
    } else if entry.member("extension"@).text() is None {
        Some(Field::Extension)
    } else if entry.member("is_nsfw"@).flag() is None {
        Some(Field::IsNsfw)
    } else if entry.member("width"@).count() is None || entry.member("height"@).count() is None {
        Some(Field::Size)
    } else {
        None
    }
}

/// What `entry` says of the image, where it has no gap.
pub open spec fn reply_of(entry: Json) -> ReplyView {
    ReplyView {
        url: entry.member("url"@).text()->0,
        preview: entry.member("preview_url"@).text()->0,
        source: entry.member("source"@).text()->0,
        width: entry.member("width"@).count()->0,
        height: entry.member("height"@).count()->0,
        nsfw: entry.member("is_nsfw"@).flag()->0,
        ext: entry.member("extension"@).text()->0,
    }
}

/// What a document says of the image, or the first field it leaves open.
pub open spec fn reading(document: Json) -> Result<ReplyView, FetchError> {
    match first_gap(entry_of(document)) {
        Some(field) => Err(FetchError::Missing(field)),
        None => Ok(reply_of(entry_of(document))),
    }
}

/// What the text of an answer says of the image, or why it says nothing.
pub open spec fn answer(body: Seq<char>) -> Result<ReplyView, FetchError> {
    match parsed(body) {
        None => Err(FetchError::NotJson),
        Some(document) => reading(document),
    }
}

/// The text under `key` in `entry`, or the failure to fill `field`.
fn text_member(entry: &Value, key: &str, field: Field) -> (text: Result<String, FetchError>)
    ensures
        match text {
            Ok(text) => json_of(*entry).member(key@).text() == Some(text@),
            Err(error) => json_of(*entry).member(key@).text() is None && error
                == FetchError::Missing(field),
        },
{
    match member(entry, key).as_str() {
        Some(text) => Ok(String::from_str(text)),
        None => Err(FetchError::Missing(field)),
    }
}

/// Reads what the document of an answer says of the image. It fails at the
/// first field that the document leaves open, be it absent or of another
/// type than expected.
pub fn read_document(document: &Value) -> (outcome: Result<Reply, FetchError>)
    ensures
        match outcome {
            Ok(reply) => reading(json_of(*document)) == Ok::<ReplyView, FetchError>(reply@),
            Err(error) => reading(json_of(*document)) == Err::<ReplyView, FetchError>(error),
        },
{
    let entry = element(member(document, "images"), 0);
    let source = match text_member(entry, "source", Field::PostUrl) {
        Ok(text) => text,
        Err(error) => { return Err(error); },
    };
    let url = match text_member(entry, "url", Field::ImgUrl) {
        Ok(text) => text,
        Err(error) => { return Err(error); },
    };
    let preview = match text_member(entry, "preview_url", Field::PreviewUrl) {
        Ok(text) => text,
        Err(error) => { return Err(error); },
    };
    let ext = match text_member(entry, "extension", Field::Extension) {
        Ok(text) => text,
        Err(error) => { return Err(error); },
    };
    let nsfw = match member(entry, "is_nsfw").as_bool() {
        Some(flag) => flag,
        None => { return Err(FetchError::Missing(Field::IsNsfw)); },
    };
    let width = match member(entry, "width").as_u64() {
        Some(count) => count,
        None => { return Err(FetchError::Missing(Field::Size)); },
    };
    let height = match member(entry, "height").as_u64() {
        Some(count) => count,
        None => { return Err(FetchError::Missing(Field::Size)); },
    };
    Ok(Reply { url, preview, source, width, height, nsfw, ext })
}

/// Reads the text of an answer: JSON, with the image described in the first
/// element of its member `images`.
pub fn read_reply(body: &str) -> (outcome: Result<Reply, FetchError>)
    ensures
        match outcome {
            Ok(reply) => answer(body@) == Ok::<ReplyView, FetchError>(reply@),
            Err(error) => answer(body@) == Err::<ReplyView, FetchError>(error),
        },
{
    match parse(body) {
        Ok(document) => read_document(&document),
        Err(_) => Err(FetchError::NotJson),
    }
}

} // verus!
