//! A model of parsed JSON documents, and the trusted boundary to
//! serde_json, which does the actual parsing.
//!
//! The fetcher's contracts speak about `JsonSpec`, the mathematical shape
//! of a document; `serde_json::Value` itself stays opaque and is only read
//! through the trusted accessors below.

use vstd::prelude::*;

verus! {

/// The shape of a parsed JSON document. Object members are a map from key
/// to value; the numeric value of a number member is irrelevant to the
/// article schema and is not modelled.
pub ghost enum JsonSpec {
    Null,
    Bool(bool),
    Number,
    Str(Seq<char>),
    Arr(Seq<JsonSpec>),
    Obj(Map<Seq<char>, JsonSpec>),
}

#[verifier::external_type_specification]
#[verifier::external_body]
pub struct ExValue(serde_json::Value);

/// What `serde_json::from_str::<Value>` yields on a given text: `Some`
/// exactly when the whole text is one well-formed JSON document.
pub uninterp spec fn json_of(s: Seq<char>) -> Option<JsonSpec>;

/// What a parsed `serde_json::Value` holds.
pub uninterp spec fn json_model(v: serde_json::Value) -> JsonSpec;

/// Relies on serde_json::from_str::<Value>: parses the whole text as one
/// JSON document; the result depends on the text alone.
#[verifier::external_body]
pub(crate) fn parse_json(s: &str) -> (r: Option<serde_json::Value>)
    ensures
        match r {
            Some(v) => json_of(s@) == Some(json_model(v)),
            None => json_of(s@) is None,
        },
{
    serde_json::from_str(s).ok()
}

/// Relies on serde_json::Value::get: on an object it looks the key up; on
/// any other kind of value it returns None.
#[verifier::external_body]
pub(crate) fn json_get<'a>(v: &'a serde_json::Value, key: &str) -> (r: Option<
    &'a serde_json::Value,
>)
    ensures
        match r {
            Some(m) => json_model(*v) is Obj && json_model(*v)->Obj_0.contains_key(key@)
                && json_model(*m) == json_model(*v)->Obj_0[key@],
            None => json_model(*v) is Obj ==> !json_model(*v)->Obj_0.contains_key(key@),
        },
{
    v.get(key)
}

/// Relies on serde_json::Value::as_array: Some exactly on an array value.
#[verifier::external_body]
pub(crate) fn json_as_array<'a>(v: &'a serde_json::Value) -> (r: Option<
    &'a Vec<serde_json::Value>,
>)
    ensures
        match r {
            Some(a) => json_model(*v) == JsonSpec::Arr(
                a@.map_values(|x: serde_json::Value| json_model(x)),
            ),
            None => !(json_model(*v) is Arr),
        },
{
    v.as_array()
}

/// Relies on serde_json::Value::as_str: Some exactly on a string value.
#[verifier::external_body]
pub(crate) fn json_as_str<'a>(v: &'a serde_json::Value) -> (r: Option<&'a str>)
    ensures
        match r {
            Some(s) => json_model(*v) == JsonSpec::Str(s@),
            None => !(json_model(*v) is Str),
        },
{
    v.as_str()
}

} // verus!
