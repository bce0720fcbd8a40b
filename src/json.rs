//! JSON rendering of the small documents that executors return.
use vstd::prelude::*;

verus! {

/// The compact JSON text of the object `{key: value}` whose one member is a string.
pub uninterp spec fn json_object_text(key: Seq<char>, value: Seq<char>) -> Seq<char>;

/// Relies on serde_json: a `Value::Object` holding one `Value::String` member,
/// rendered by `Value`'s `Display`, which writes compact JSON and cannot fail.
/// The text depends on the key and the value alone.
#[verifier::external_body]
pub(crate) fn json_object(key: &str, value: &str) -> (r: String)
    ensures
        r@ == json_object_text(key@, value@),
{
    let mut members = serde_json::Map::new();
    members.insert(key.to_string(), serde_json::Value::String(value.to_string()));
    serde_json::Value::Object(members).to_string()
}

} // verus!
