//! Reading JSON documents through serde_json. What a document holds is named
//! over its text: whether it parses, and what kind of value sits at a path of
//! object keys.

use vstd::prelude::*;

use serde_json::Value;

verus! {

#[verifier::external_type_specification]
#[verifier::external_body]
pub struct ExJsonError(serde_json::Error);

/// What a JSON value is, with the payload of the kinds that the logic reads.
pub enum JsonKind {
    Null,
    Bool(bool),
    Number,
    Text(String),
    Array,
    Object,
}

/// Whether the text parses as a JSON document.
pub uninterp spec fn json_valid(text: Seq<char>) -> bool;

/// The kind of the value reached from the document by following the keys of
/// `path` through nested objects; none where a key is missing or the value on
/// the way is not an object.
pub uninterp spec fn json_field(text: Seq<char>, path: Seq<Seq<char>>) -> Option<JsonKind>;

/// Relies on serde_json::from_str into a Value, then Value::get with a string
/// key: the kind of the document's member `key`.
#[verifier::external_body]
pub(crate) fn member_kind(text: &str, key: &str) -> (r: Result<Option<JsonKind>, serde_json::Error>)
    ensures
        r is Ok == json_valid(text@),
        r is Ok ==> r.unwrap() == json_field(text@, seq![key@]),
{
    let doc: Value = serde_json::from_str(text)?;
    Ok(doc.get(key).map(|v| match v {
        Value::Null => JsonKind::Null,
        Value::Bool(b) => JsonKind::Bool(*b),
        Value::Number(_) => JsonKind::Number,
        Value::String(s) => JsonKind::Text(s.clone()),
        Value::Array(_) => JsonKind::Array,
        Value::Object(_) => JsonKind::Object,
    }))
}

/// Relies on serde_json::from_str into a Value, then Value::get with a string
/// key twice: the kind of the member `inner` of the document's member `outer`.
#[verifier::external_body]
pub(crate) fn nested_member_kind(text: &str, outer: &str, inner: &str) -> (r: Result<Option<JsonKind>, serde_json::Error>)
    ensures
        r is Ok == json_valid(text@),
        r is Ok ==> r.unwrap() == json_field(text@, seq![outer@, inner@]),
{
    let doc: Value = serde_json::from_str(text)?;
    Ok(doc.get(outer).and_then(|o| o.get(inner)).map(|v| match v {
        Value::Null => JsonKind::Null,
        Value::Bool(b) => JsonKind::Bool(*b),
        Value::Number(_) => JsonKind::Number,
        Value::String(s) => JsonKind::Text(s.clone()),
        Value::Array(_) => JsonKind::Array,
        Value::Object(_) => JsonKind::Object,
    }))
}

} // verus!
