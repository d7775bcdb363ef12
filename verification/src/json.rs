//! Trusted boundary to serde_json, used to read individual string claims out
//! of a decoded JSON payload.
//!
//! A `serde_json::Value` is opaque here, so what the engine reads of one is
//! named: the text of a JSON string value, and the text of a named string
//! field of an object.  `json_parse` ties those names back to the input
//! text, so a claims lookup is a function of the text alone.

use vstd::prelude::*;

verus! {

#[verifier::external_type_specification]
#[verifier::external_body]
pub struct ExJsonValue(serde_json::Value);

/// The text of a JSON string value; `None` for any other kind of value.
pub uninterp spec fn json_str_of(v: &serde_json::Value) -> Option<Seq<char>>;

/// The text of the string field `key` of a JSON object; `None` when the
/// value is no object, has no such field, or the field is not a string.
pub uninterp spec fn json_str_entry(v: &serde_json::Value, key: Seq<char>) -> Option<Seq<char>>;

/// The string field `key` of the JSON value a text denotes; `None` when the
/// text is not valid JSON or carries no such string field.
pub uninterp spec fn json_text_entry(s: Seq<char>, key: Seq<char>) -> Option<Seq<char>>;

/// Relies on serde_json's `from_str` for `Value`: parsing is a function of
/// the text alone, so the parsed value's string fields are the text's;
/// `None` when the input is not valid JSON (which then has no fields).
#[verifier::external_body]
pub(crate) fn json_parse(s: &str) -> (r: Option<serde_json::Value>)
    ensures
        match r {
            Some(v) => forall|k: Seq<char>| #[trigger] json_str_entry(&v, k) == json_text_entry(
                s@,
                k,
            ),
            None => forall|k: Seq<char>| #[trigger] json_text_entry(s@, k) is None,
        },
{
    serde_json::from_str::<serde_json::Value>(s).ok()
}

/// Relies on `serde_json::Value::get`: the value under `key` when `v` is an
/// object holding that key, `None` otherwise; the field's string text, if it
/// is one, is the object's string entry under that key.
#[verifier::external_body]
pub(crate) fn json_get<'a>(v: &'a serde_json::Value, key: &str) -> (r: Option<
    &'a serde_json::Value,
>)
    ensures
        match r {
            Some(sub) => json_str_of(sub) == json_str_entry(v, key@),
            None => json_str_entry(v, key@) is None,
        },
{
    v.get(key)
}

/// Relies on `serde_json::Value::as_str`: the text of a JSON string value,
/// `None` for any other kind of value.
#[verifier::external_body]
pub(crate) fn json_as_str(v: &serde_json::Value) -> (r: Option<String>)
    ensures
        match r {
            Some(t) => json_str_of(v) == Some(t@),
            None => json_str_of(v) is None,
        },
{
    match v.as_str() {
        Some(s) => Some(s.to_owned()),
        None => None,
    }
}

} // verus!
