//! JSON documents, which `serde_json` builds and parses.
use vstd::prelude::*;
use crate::text;

verus! {

/// A JSON document.
#[verifier::external_type_specification]
#[verifier::external_body]
pub struct ExJsonValue(serde_json::Value);

/// The members of a JSON object.
#[verifier::external_type_specification]
#[verifier::external_body]
#[verifier::reject_recursive_types(K)]
#[verifier::reject_recursive_types(V)]
pub struct ExJsonMap<K, V>(serde_json::Map<K, V>);

/// What a `serde_json::Map` holds.
pub uninterp spec fn members(
    object: serde_json::Map<String, serde_json::Value>,
) -> Map<Seq<char>, serde_json::Value>;

/// The JSON string with this text.
pub uninterp spec fn json_string(text: Seq<char>) -> serde_json::Value;

/// The JSON number with this value.
pub uninterp spec fn json_number(n: int) -> serde_json::Value;

/// The JSON array with these items.
pub uninterp spec fn json_array(items: Seq<serde_json::Value>) -> serde_json::Value;

/// The JSON object with these members.
pub uninterp spec fn json_object(
    members: Map<Seq<char>, serde_json::Value>,
) -> serde_json::Value;

/// What `serde_json::from_str` makes of a text: the document, or the words of its error.
pub uninterp spec fn json_parse(text: Seq<char>) -> Result<serde_json::Value, Seq<char>>;

/// The object without members.
pub open spec fn no_members() -> Map<Seq<char>, serde_json::Value> {
    Map::empty()
}

/// `serde_json::Map::new` makes a map without members.
#[verifier::external_body]
pub(crate) fn new_object() -> (object: serde_json::Map<String, serde_json::Value>)
    ensures
        members(object) == no_members(),
{
    serde_json::Map::new()
}

/// `serde_json::Map::insert` gives a name its value, in place of the one it had.
#[verifier::external_body]
pub(crate) fn set_member(
    object: &mut serde_json::Map<String, serde_json::Value>,
    name: &str,
    value: serde_json::Value,
)
    ensures
        members(*final(object)) == members(*old(object)).insert(name@, value),
{
    object.insert(name.to_string(), value);
}

/// `serde_json::Value::from` a map is the object with the members of the map.
#[verifier::external_body]
pub(crate) fn object_value(object: serde_json::Map<String, serde_json::Value>) -> (value:
    serde_json::Value)
    ensures
        value == json_object(members(object)),
{
    serde_json::Value::from(object)
}

/// `serde_json::Value::from` a string slice is the string with its text.
#[verifier::external_body]
pub(crate) fn string_value(text: &str) -> (value: serde_json::Value)
    ensures
        value == json_string(text@),
{
    serde_json::Value::from(text)
}

/// `serde_json::Value::from` an integer is the number with its value.
#[verifier::external_body]
pub(crate) fn number_value(n: u32) -> (value: serde_json::Value)
    ensures
        value == json_number(n as int),
{
    serde_json::Value::from(n)
}

/// `serde_json::Value::from` a vector is the array with its items, in their order.
#[verifier::external_body]
pub(crate) fn array_value(items: Vec<serde_json::Value>) -> (value: serde_json::Value)
    ensures
        value == json_array(items@),
{
    serde_json::Value::from(items)
}

/// `serde_json::from_str` parses a text as one JSON document. Which document it is, or what the
/// error says, depends on the text alone.
#[verifier::external_body]
pub(crate) fn parse_json(text: &str) -> (document: Result<serde_json::Value, String>)
    ensures
        text::agrees(document, json_parse(text@)),
{
    serde_json::from_str(text).map_err(|error| error.to_string())
}

}
