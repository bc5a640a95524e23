//! The JSON boundary. Reading and escaping JSON is `serde_json`'s work; this
//! module names what it returns so that the protocol's contracts can speak of
//! it.

use vstd::prelude::*;

verus! {

/// The message of the error with which `serde_json` rejects `text` as a JSON
/// document, or `None` where `text` is one.
pub uninterp spec fn json_syntax_error(text: Seq<char>) -> Option<Seq<char>>;

/// The string that the JSON pointer `pointer` addresses in the document
/// `text`. `None` where `text` is no JSON document, where the pointer
/// addresses nothing, and where it addresses a value that is not a string.
pub uninterp spec fn json_text_at(text: Seq<char>, pointer: Seq<char>) -> Option<Seq<char>>;

/// The JSON string literal, quotes and escapes included, that stands for
/// `text`.
pub uninterp spec fn json_string_literal(text: Seq<char>) -> Seq<char>;

/// Calls `serde_json::from_str` for a `serde_json::Value` and keeps the
/// error's text.
///
/// Trusted: the result is the named error message of `text`.
#[verifier::external_body]
pub(crate) fn json_error(text: &str) -> (err: Option<String>)
    ensures
        match err {
            Some(detail) => json_syntax_error(text@) == Some(detail@),
            None => json_syntax_error(text@) is None,
        },
{
    match serde_json::from_str::<serde_json::Value>(text) {
        Ok(_) => None,
        Err(err) => Some(err.to_string()),
    }
}

/// Calls `serde_json::from_str`, then `Value::pointer` and `Value::as_str` on
/// the document.
///
/// Trusted: the result is the named string at `pointer` in `text`.
#[verifier::external_body]
pub(crate) fn json_string_at(text: &str, pointer: &str) -> (found: Option<String>)
    ensures
        match found {
            Some(value) => json_text_at(text@, pointer@) == Some(value@),
            None => json_text_at(text@, pointer@) is None,
        },
{
    let doc = serde_json::from_str::<serde_json::Value>(text).ok()?;
    match doc.pointer(pointer)?.as_str() {
        Some(value) => Some(value.to_owned()),
        None => None,
    }
}

/// Writes `text` as a JSON string through `serde_json::Value`'s `Display`.
///
/// Trusted: the result is the named literal of `text`.
#[verifier::external_body]
pub(crate) fn json_quote(text: &str) -> (literal: String)
    ensures
        literal@ == json_string_literal(text@),
{
    serde_json::Value::String(text.to_owned()).to_string()
}

} // verus!
