//! Ghost model of a parsed JSON document and the trusted bridge to
//! serde_json, which does the actual parsing. Only the shapes the event
//! decoder inspects — objects, arrays and strings — are ever constrained;
//! the scalar shapes exist for totality and nothing is claimed about them.

use vstd::prelude::*;

verus! {

#[verifier::external_type_specification]
#[verifier::external_body]
pub struct ExValue(serde_json::Value);

/// Ghost shape of a JSON value: a string carries its text's UTF-8 bytes,
/// an object maps member names to members.
pub enum JsonNode {
    Null,
    Bool(bool),
    Num(int),
    Str(Seq<u8>),
    Arr(Seq<JsonNode>),
    Obj(Map<Seq<char>, JsonNode>),
}

/// The JSON document encoded by a byte string, `None` where the bytes are
/// not valid JSON.
pub uninterp spec fn json_node_of(payload: Seq<u8>) -> Option<JsonNode>;

/// The shape a parsed `serde_json::Value` holds.
pub uninterp spec fn node_of(v: serde_json::Value) -> JsonNode;

/// Relies on serde_json::from_slice::<serde_json::Value>: parsing succeeds
/// exactly on valid JSON, and the parsed value holds the document's shape.
#[verifier::external_body]
pub fn json_parse(payload: &[u8]) -> (r: Option<serde_json::Value>)
    ensures
        r is Some <==> json_node_of(payload@) is Some,
        r matches Some(v) ==> node_of(v) == json_node_of(payload@).unwrap(),
{
    serde_json::from_slice(payload).ok()
}

/// Relies on serde_json::Value::get with a string index: on an object it
/// returns the member named by the key, on any other shape `None`.
#[verifier::external_body]
pub fn json_get_field<'a>(v: &'a serde_json::Value, key: &str) -> (r: Option<
    &'a serde_json::Value,
>)
    ensures
        match node_of(*v) {
            JsonNode::Obj(m) => {
                &&& r is Some <==> m.dom().contains(key@)
                &&& (r matches Some(c) ==> node_of(*c) == m[key@])
            },
            _ => r is None,
        },
{
    v.get(key)
}

/// Relies on serde_json::Value::get with a usize index: on an array it
/// returns the element at that position, on any other shape `None`.
#[verifier::external_body]
pub fn json_get_index<'a>(v: &'a serde_json::Value, i: usize) -> (r: Option<
    &'a serde_json::Value,
>)
    ensures
        match node_of(*v) {
            JsonNode::Arr(items) => {
                &&& r is Some <==> i < items.len()
                &&& (r matches Some(c) ==> node_of(*c) == items[i as int])
            },
            _ => r is None,
        },
{
    v.get(i)
}

/// Relies on serde_json::Value::as_str: it returns the text of a string
/// value and `None` on any other shape; the copy holds that text's bytes.
#[verifier::external_body]
pub fn json_str_bytes(v: &serde_json::Value) -> (r: Option<Vec<u8>>)
    ensures
        match node_of(*v) {
            JsonNode::Str(bytes) => r matches Some(b) && b@ == bytes,
            _ => r is None,
        },
{
    match v.as_str() {
        Some(s) => Some(s.as_bytes().to_vec()),
        None => None,
    }
}

} // verus!
