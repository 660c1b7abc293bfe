//! Decoding of metadata blobs into `Json` documents through serde_json.
use vstd::prelude::*;
use crate::json::{Json, is_empty_object};

verus! {

#[verifier::external_type_specification]
#[verifier::external_body]
pub struct ExValue(serde_json::Value);

/// What `String::from_utf8_lossy` makes of a byte sequence.
pub uninterp spec fn utf8_lossy(b: Seq<u8>) -> Seq<char>;

/// Whether `serde_json::from_str` accepts a text as one JSON value.
pub uninterp spec fn json_accepts(s: Seq<char>) -> bool;

/// Relies on `String::from_utf8_lossy`: the text depends on the bytes alone,
/// and no bytes give no text.
#[verifier::external_body]
fn lossy_text(b: &[u8]) -> (r: String)
    ensures
        r@ == utf8_lossy(b@),
        b@.len() == 0 ==> r@.len() == 0,
{
    String::from_utf8_lossy(b).into_owned()
}

/// The document that `serde_json::from_str` reads from an accepted text.
pub uninterp spec fn json_doc(s: Seq<char>) -> Json;

/// Relies on the variants of `serde_json::Value`, on `Number`'s `to_string`
/// and on the iteration of `serde_json::Map`: copies a value into a `Json`.
#[verifier::external_body]
fn json_of_value(v: serde_json::Value) -> Json {
    match v {
        serde_json::Value::Null => Json::Null,
        serde_json::Value::Bool(b) => Json::Bool(b),
        serde_json::Value::Number(n) => Json::Number(n.to_string()),
        serde_json::Value::String(s) => Json::Str(s),
        serde_json::Value::Array(a) => Json::Array(a.into_iter().map(json_of_value).collect()),
        serde_json::Value::Object(m) => {
            Json::Object(m.into_iter().map(|(k, v)| (k, json_of_value(v))).collect())
        },
    }
}

/// Relies on `serde_json::from_str::<Value>`: whether it succeeds, and the
/// document it reads, depend on the text alone; an empty text is no JSON
/// value.
#[verifier::external_body]
fn parse_json(text: &str) -> (r: Option<Json>)
    ensures
        r is Some == json_accepts(text@),
        r matches Some(d) ==> d == json_doc(text@),
        text@.len() == 0 ==> r is None,
{
    serde_json::from_str::<serde_json::Value>(text).ok().map(json_of_value)
}

/// The parsed document, or an empty object when there is none.
pub fn metadata_or_empty(parsed: Option<Json>) -> (r: Json)
    ensures
        parsed matches Some(d) ==> r == d,
        parsed is None ==> is_empty_object(r),
{
    match parsed {
        Some(d) => d,
        None => Json::empty_object(),
    }
}

/// Decodes a metadata blob: the bytes are read as UTF-8, invalid sequences
/// replaced, and the text parsed as JSON; a text that does not parse gives an
/// empty object.
pub fn parse_metadata(blob: &[u8]) -> (r: Json)
    ensures
        json_accepts(utf8_lossy(blob@)) ==> r == json_doc(utf8_lossy(blob@)),
        !json_accepts(utf8_lossy(blob@)) ==> is_empty_object(r),
        blob@.len() == 0 ==> is_empty_object(r),
{
    let text = lossy_text(blob);
    metadata_or_empty(parse_json(text.as_str()))
}

} // verus!
