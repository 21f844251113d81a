//! JSON documents: a mathematical model of what a `serde_json::Value` holds,
//! and the few `serde_json` operations the notifications are built with.
//!
//! Documents are assembled and serialized by `serde_json` itself. Verus does
//! not look inside that crate, so each operation used here is stated once,
//! as a contract over the model, and everything else is proved from those
//! contracts.

use vstd::prelude::*;

verus! {

/// The mathematical content of a JSON document.
///
/// Numbers are integers: no notification carries a fraction. An object is a
/// map from keys to documents: `serde_json` keeps one value per key and
/// writes the keys in sorted order, so the order of insertion is not part of
/// the content.
pub enum Json {
    Null,
    Bool(bool),
    Number(int),
    Text(Seq<char>),
    Array(Seq<Json>),
    Object(Map<Seq<char>, Json>),
}

#[verifier::external_type_specification]
#[verifier::external_body]
pub struct ExValue(serde_json::Value);

#[verifier::external_type_specification]
#[verifier::external_body]
#[verifier::reject_recursive_types(K)]
#[verifier::reject_recursive_types(V)]
pub struct ExObject<K, V>(serde_json::Map<K, V>);

#[verifier::external_type_specification]
#[verifier::external_body]
pub struct ExJsonError(serde_json::Error);

/// The document that a `serde_json::Value` holds.
pub uninterp spec fn value_json(value: serde_json::Value) -> Json;

/// The fields that a `serde_json::Map` holds.
pub uninterp spec fn object_fields(object: serde_json::Map<String, serde_json::Value>) -> Map<
    Seq<char>,
    Json,
>;

/// What `serde_json::to_string` gives for a document: its compact text, or
/// `None` where it fails.
pub uninterp spec fn json_text(json: Json) -> Option<Seq<char>>;

/// The fields of an empty object.
pub open spec fn no_fields() -> Map<Seq<char>, Json> {
    Map::empty()
}

/// `serde_json::Map::new`: a map without fields.
#[verifier::external_body]
pub(crate) fn new_object() -> (fields: serde_json::Map<String, serde_json::Value>)
    ensures
        object_fields(fields) == no_fields(),
{
    serde_json::Map::new()
}

/// `serde_json::Map::insert`: afterwards the map holds `value` under `key`,
/// in place of whatever it held there before, and every other field as it
/// was.
#[verifier::external_body]
pub(crate) fn put(
    object: &mut serde_json::Map<String, serde_json::Value>,
    key: &str,
    value: serde_json::Value,
)
    ensures
        object_fields(*final(object)) == object_fields(*old(object)).insert(
            key@,
            value_json(value),
        ),
{
    object.insert(key.to_owned(), value);
}

/// `Value::from` on a map: the object with the map's fields.
#[verifier::external_body]
pub(crate) fn object(fields: serde_json::Map<String, serde_json::Value>) -> (value:
    serde_json::Value)
    ensures
        value_json(value) == Json::Object(object_fields(fields)),
{
    serde_json::Value::from(fields)
}

/// `Value::from` on a string slice: the string with the same characters.
#[verifier::external_body]
pub(crate) fn text(s: &str) -> (value: serde_json::Value)
    ensures
        value_json(value) == Json::Text(s@),
{
    serde_json::Value::from(s)
}

/// `Value::from` on a `u64`: the number with the same value.
#[verifier::external_body]
pub(crate) fn unsigned(n: u64) -> (value: serde_json::Value)
    ensures
        value_json(value) == Json::Number(n as int),
{
    serde_json::Value::from(n)
}

/// `Value::from` on an `i64`: the number with the same value.
#[verifier::external_body]
pub(crate) fn signed(n: i64) -> (value: serde_json::Value)
    ensures
        value_json(value) == Json::Number(n as int),
{
    serde_json::Value::from(n)
}

/// `Value::from` on a `bool`: the boolean with the same value.
#[verifier::external_body]
pub(crate) fn boolean(b: bool) -> (value: serde_json::Value)
    ensures
        value_json(value) == Json::Bool(b),
{
    serde_json::Value::from(b)
}

/// `Value::from` on a vector of values: the array of the same documents, in
/// the same order.
#[verifier::external_body]
pub(crate) fn array(items: Vec<serde_json::Value>) -> (value: serde_json::Value)
    ensures
        value_json(value) == Json::Array(items@.map_values(|item| value_json(item))),
{
    serde_json::Value::from(items)
}

/// `serde_json::to_string`: whether it succeeds, and the text it then
/// gives, depend on the document alone. Nothing is claimed about which
/// documents it accepts, nor about the text.
#[verifier::external_body]
pub(crate) fn to_text(value: &serde_json::Value) -> (text: Result<String, serde_json::Error>)
    ensures
        text is Ok <==> json_text(value_json(*value)) is Some,
        text matches Ok(s) ==> json_text(value_json(*value)) == Some(s@),
{
    serde_json::to_string(value)
}

/// The array of the strings in `items`, in order.
pub open spec fn text_array(items: Seq<String>) -> Json {
    Json::Array(items.map_values(|s: String| Json::Text(s@)))
}

/// Builds the JSON array of the strings in `items`.
pub(crate) fn strings(items: &Vec<String>) -> (value: serde_json::Value)
    ensures
        value_json(value) == text_array(items@),
{
    let mut values: Vec<serde_json::Value> = Vec::new();
    let mut i: usize = 0;
    while i < items.len()
        invariant
            i <= items.len(),
            values@.len() == i,
            forall|j: int| 0 <= j < i ==> value_json(#[trigger] values@[j]) == Json::Text(items@[j]@),
        decreases items.len() - i,
    {
        values.push(text(items[i].as_str()));
        i += 1;
    }
    let value = array(values);
    assert(values@.map_values(|item| value_json(item)) =~= items@.map_values(
        |s: String| Json::Text(s@),
    ));
    value
}

} // verus!
