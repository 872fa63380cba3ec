//! What the library takes from outside crates and from the parts of the
//! standard library that have no contract of their own.
//!
//! Nothing in this module is proved. Each function below makes one call and
//! states what the rest of the library relies on; each `uninterp` function
//! names what such a call returns, as a function of its arguments.

use vstd::prelude::*;
use vstd::string::StringSliceAdditionalSpecFns;
use vstd::utf8::valid_utf8;

verus! {

/// A decoded JSON document, `serde_json::Value`. The library carries it to
/// the subscriber and never looks inside.
#[verifier::external_type_specification]
#[verifier::external_body]
pub struct ExJsonValue(serde_json::Value);

/// The reason why bytes are not text, `std::str::Utf8Error`. The library
/// only tells it apart from success.
#[verifier::external_type_specification]
#[verifier::external_body]
pub struct ExUtf8Error(std::str::Utf8Error);

/// What `serde_json::from_str` makes of `text` when asked for a
/// `serde_json::Value`: the document that `text` is, or none when `text` is
/// not one JSON document.
pub uninterp spec fn json_document(text: Seq<char>) -> Option<serde_json::Value>;

/// What `serde_json::to_string` returns for the string `text`: the JSON
/// string literal for it, quotes and escapes included, or the description of
/// the encoder's error.
pub uninterp spec fn json_string(text: Seq<char>) -> Result<Seq<char>, Seq<char>>;

/// What `url::Url::parse` makes of `input`: the serialization of the URL it
/// parsed, or the description of its error.
pub uninterp spec fn url_parse(input: Seq<char>) -> Result<Seq<char>, Seq<char>>;

/// Calls `serde_json::from_str` for a `serde_json::Value`. Whether a
/// document comes back, and which, depends on `text` alone; the decoder's
/// error is dropped.
#[verifier::external_body]
pub(crate) fn decode_json(text: &str) -> (document: Option<serde_json::Value>)
    ensures
        document == json_document(text@),
{
    serde_json::from_str::<serde_json::Value>(text).ok()
}

/// Calls `serde_json::to_string` on the string `text`. The result depends on
/// `text` alone. For a string the call succeeds: the encoder fails only when
/// a value refuses to be serialized, when a map has a key that is no string,
/// or when its writer fails, and a string written into memory gives none of
/// these. The error arm is kept for the shape of the call.
#[verifier::external_body]
pub(crate) fn quote_json(text: &str) -> (quoted: Result<String, String>)
    ensures
        quoted is Ok,
        match quoted {
            Ok(q) => json_string(text@) == Ok::<Seq<char>, Seq<char>>(q@),
            Err(m) => json_string(text@) == Err::<Seq<char>, Seq<char>>(m@),
        },
{
    match serde_json::to_string(text) {
        Ok(q) => Ok(q),
        Err(e) => Err(e.to_string()),
    }
}

/// Calls `url::Url::parse`. The result depends on `input` alone. A parsed
/// URL comes back as its serialization, an error as its description.
#[verifier::external_body]
pub(crate) fn parse_url(input: &str) -> (parsed: Result<String, String>)
    ensures
        match parsed {
            Ok(s) => url_parse(input@) == Ok::<Seq<char>, Seq<char>>(s@),
            Err(m) => url_parse(input@) == Err::<Seq<char>, Seq<char>>(m@),
        },
{
    match url::Url::parse(input) {
        Ok(u) => Ok(String::from(u)),
        Err(e) => Err(e.to_string()),
    }
}

/// Calls `std::str::from_utf8`, which checks that the bytes are valid UTF-8
/// and then gives the same bytes as a string slice.
#[verifier::external_body]
pub(crate) fn utf8_text(data: &[u8]) -> (text: Result<&str, std::str::Utf8Error>)
    ensures
        text is Ok <==> valid_utf8(data@),
        text matches Ok(s) ==> s.spec_bytes() == data@,
{
    std::str::from_utf8(data)
}

} // verus!
