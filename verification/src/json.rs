//! JSON metadata: the values that entities carry, and their text in the database.

use vstd::prelude::*;

verus! {

/// A JSON value, carried through unread.
#[verifier::external_type_specification]
#[verifier::external_body]
pub struct ExJsonValue(serde_json::Value);

/// The value that `serde_json::from_str::<serde_json::Value>` reads from a
/// text, if the text is JSON.
pub uninterp spec fn json_parse(text: Seq<char>) -> Option<serde_json::Value>;

/// The text that `serde_json::to_string` writes for a value.
pub uninterp spec fn json_render(value: serde_json::Value) -> Option<Seq<char>>;

/// The view of an optional string.
pub open spec fn opt_text(s: Option<String>) -> Option<Seq<char>> {
    match s {
        Some(t) => Some(t@),
        None => None,
    }
}

/// Calls `serde_json::from_str::<serde_json::Value>`, keeping the value on
/// success: the result is named by `json_parse`.
#[verifier::external_body]
pub(crate) fn parse_json(text: &str) -> (r: Option<serde_json::Value>)
    ensures
        r == json_parse(text@),
{
    serde_json::from_str(text).ok()
}

/// Calls `serde_json::to_string` on a value, keeping the text on success: the
/// result is named by `json_render`. Writing a `Value` never fails: its
/// `Serialize` gives maps string keys only and refuses nothing, and the text
/// goes into a `Vec<u8>`, which takes every write; so the result is present.
#[verifier::external_body]
pub(crate) fn render_json(value: &serde_json::Value) -> (r: Option<String>)
    ensures
        opt_text(r) == json_render(*value),
        r is Some,
{
    serde_json::to_string(value).ok()
}

/// Builds `serde_json::Value::Object(serde_json::Map::new())`, the empty
/// object; `serde_json` writes an empty map as `{}`, which is what the
/// contract states of it.
#[verifier::external_body]
pub(crate) fn empty_json_object() -> (v: serde_json::Value)
    ensures
        json_render(v) == Some("{}"@),
{
    serde_json::Value::Object(serde_json::Map::new())
}

} // verus!
