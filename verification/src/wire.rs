//! JSON text, as `serde_json` reads and writes it.
//!
//! What is said here of `serde_json` is not proved: each item that calls it states, in its
//! contract, what the crate does with the values that a [`JsonView`] describes.
use crate::json::{Json, JsonObject, JsonView};
use crate::json::{entries_model, items_model, lemma_items_model};
use serde_json::Value;
use vstd::prelude::*;

verus! {

// --------------------------------------------------------------- serde_json's types

/// `serde_json::Value`, a JSON value of any shape.
#[verifier::external_type_specification]
#[verifier::external_body]
pub struct ExValue(serde_json::Value);

/// `serde_json::Map`, the members of a JSON object.
#[verifier::external_type_specification]
#[verifier::external_body]
#[verifier::reject_recursive_types(K)]
#[verifier::reject_recursive_types(V)]
pub struct ExMap<K, V>(serde_json::Map<K, V>);

/// `serde_json::Error`, why a text is not JSON.
#[verifier::external_type_specification]
#[verifier::external_body]
pub struct ExError(serde_json::Error);

/// What a `serde_json::Value` holds: its variant, and what stands in it. A number for which
/// `Number::as_u64` gives one is that number; any other number is the text it is displayed as.
pub uninterp spec fn value_json(value: serde_json::Value) -> JsonView;

/// What a `serde_json::Map` holds: for each of its keys, what the value of that key holds.
pub uninterp spec fn map_members(map: serde_json::Map<String, serde_json::Value>) -> Map<
    Seq<char>,
    JsonView,
>;

/// What each of a list of values holds.
pub open spec fn values_json(values: Seq<serde_json::Value>) -> Seq<JsonView> {
    Seq::new(values.len(), |i: int| value_json(values[i]))
}

/// The members of an object without any.
pub open spec fn no_members() -> Map<Seq<char>, JsonView> {
    Map::empty()
}

// ---------------------------------------------------------------------- constructors

/// `serde_json::Value::Null`: the value holds `null`.
#[verifier::external_body]
fn null_value() -> (value: serde_json::Value)
    ensures
        value_json(value) == JsonView::Null,
{
    serde_json::Value::Null
}

/// `serde_json::Value::Bool`: the value holds the boolean.
#[verifier::external_body]
fn bool_value(b: bool) -> (value: serde_json::Value)
    ensures
        value_json(value) == JsonView::Bool(b),
{
    serde_json::Value::Bool(b)
}

/// `serde_json::Value::from` of a `u64`: the value holds the number.
#[verifier::external_body]
fn number_value(n: u64) -> (value: serde_json::Value)
    ensures
        value_json(value) == JsonView::Number(n),
{
    serde_json::Value::from(n)
}

/// `serde_json::Value::String`: the value holds the text.
#[verifier::external_body]
fn string_value(text: String) -> (value: serde_json::Value)
    ensures
        value_json(value) == JsonView::Str(text@),
{
    serde_json::Value::String(text)
}

/// `serde_json::Value::Array`: the value holds what the items hold, in their order.
#[verifier::external_body]
fn array_value(items: Vec<serde_json::Value>) -> (value: serde_json::Value)
    ensures
        value_json(value) == JsonView::Array(values_json(items@)),
{
    serde_json::Value::Array(items)
}

/// `serde_json::Value::Object`: the value holds the members of the map.
#[verifier::external_body]
fn object_value(map: serde_json::Map<String, serde_json::Value>) -> (value: serde_json::Value)
    ensures
        value_json(value) == JsonView::Object(map_members(map)),
{
    serde_json::Value::Object(map)
}

/// `serde_json::Map::new`: the map has no members.
#[verifier::external_body]
fn empty_map() -> (members: serde_json::Map<String, serde_json::Value>)
    ensures
        map_members(members) == no_members(),
{
    serde_json::Map::new()
}

/// `serde_json::Map::insert`: the value becomes the member of that key, in place of an earlier
/// one; the other members stay.
#[verifier::external_body]
fn map_insert(
    map: &mut serde_json::Map<String, serde_json::Value>,
    key: String,
    value: serde_json::Value,
)
    ensures
        map_members(*final(map)) == map_members(*old(map)).insert(key@, value_json(value)),
{
    map.insert(key, value);
}

// --------------------------------------------------------------------------- reading

/// What `serde_json::from_slice` reads a text as; nothing where the text is not JSON, or is
/// nested too deeply for it.
pub uninterp spec fn parsed_json(text: Seq<u8>) -> Option<JsonView>;

/// `serde_json::from_slice`, asked for a `Value`: whether it succeeds, and what the value then
/// holds, depends on the bytes alone.
#[verifier::external_body]
pub(crate) fn from_slice(text: &[u8]) -> (parsed: Result<serde_json::Value, serde_json::Error>)
    ensures
        match parsed {
            Ok(value) => parsed_json(text@) == Some(value_json(value)),
            Err(_) => parsed_json(text@) is None,
        },
{
    serde_json::from_slice(text)
}

/// `serde_json::Value::get` with a string: the member of that key, where the value is an object
/// that has it.
#[verifier::external_body]
pub(crate) fn value_get<'a>(value: &'a serde_json::Value, key: &str) -> (member: Option<&'a serde_json::Value>)
    ensures
        match member {
            Some(v) => value_json(*value).member(key@) == Some(value_json(*v)),
            None => value_json(*value).member(key@) is None,
        },
{
    value.get(key)
}

/// `serde_json::Value::as_str`: the text, where the value is a string.
#[verifier::external_body]
pub(crate) fn value_as_str(value: &serde_json::Value) -> (text: Option<&str>)
    ensures
        match text {
            Some(t) => value_json(*value) == JsonView::Str(t@),
            None => !(value_json(*value) is Str),
        },
{
    value.as_str()
}

// --------------------------------------------------------------------------- writing

/// What `serde_json::to_vec` writes a value as.
pub uninterp spec fn json_text(value: JsonView) -> Seq<u8>;

/// `serde_json::to_vec` on a `Value`: the bytes depend on what the value holds alone, since the
/// members of an object are written in the order of their keys. It does not fail: the keys are
/// strings, nothing in a `Value` refuses to be written, and the bytes go to memory. `from_slice` reads
/// the bytes as what the value holds, as long as that is not nested too deeply for it and every number
/// is a count; how it reads other numbers is not said here.
#[verifier::external_body]
fn to_vec(value: &serde_json::Value) -> (text: Result<Vec<u8>, String>)
    ensures
        match text {
            Ok(bytes) => bytes@ == json_text(value_json(*value)) && (value_json(*value).nests_within(127)
                ==> parsed_json(bytes@) == Some(value_json(*value))),
            Err(_) => false,
        },
{
    serde_json::to_vec(value).map_err(|e| e.to_string())
}

// ------------------------------------------------------------------------ conversion

/// The `serde_json` value that says what `json` says.
pub fn to_value(json: &Json) -> (value: Value)
    ensures
        value_json(value) == json@,
    decreases json,
{
    match json {
        Json::Null => null_value(),
        Json::Bool(b) => bool_value(*b),
        Json::Number(n) => number_value(*n),
        Json::Str(text) => string_value(text.clone()),
        Json::Array(items) => array_value(to_values(items)),
        Json::Object(object) => object_value(to_map(object)),
    }
}

/// The `serde_json` values that say what `items` say.
fn to_values(items: &Vec<Json>) -> (values: Vec<Value>)
    ensures
        values_json(values@) == items_model(items@),
    decreases items@,
{
    let mut values: Vec<Value> = Vec::new();
    let mut i: usize = 0;
    while i < items.len()
        invariant
            i == values@.len(),
            i <= items@.len(),
            forall|j: int| 0 <= j < i ==> value_json(#[trigger] values@[j]) == items@[j]@,
        decreases items@.len() - i,
    {
        values.push(to_value(&items[i]));
        i += 1;
    }
    proof {
        lemma_items_model(items@);
    }
    assert(values_json(values@) =~= items_model(items@));
    values
}

/// The `serde_json` map that has the members of `object`.
pub fn to_map(object: &JsonObject) -> (members: serde_json::Map<String, Value>)
    ensures
        map_members(members) == object@,
    decreases object.entries@,
{
    let mut members = empty_map();
    let mut i: usize = 0;
    while i < object.entries.len()
        invariant
            i <= object.entries@.len(),
            map_members(members) == entries_model(object.entries@.take(i as int)),
        decreases object.entries@.len() - i,
    {
        assert(object.entries@.take(i + 1).drop_last() =~= object.entries@.take(i as int));
        map_insert(&mut members, object.entries[i].0.clone(), to_value(&object.entries[i].1));
        i += 1;
    }
    assert(object.entries@.take(i as int) =~= object.entries@);
    members
}

/// The text of `json`. There always is one, and it is read as what `json` says unless that is nested
/// too deeply.
pub fn write_json(json: &Json) -> (text: Result<Vec<u8>, String>)
    ensures
        text matches Ok(bytes) && bytes@ == json_text(json@) && (json@.nests_within(127)
            ==> parsed_json(bytes@) == Some(json@)),
{
    to_vec(&to_value(json))
}

} // verus!
