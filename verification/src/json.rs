//! JSON values, as `serde_json` parses, builds and prints them.
//!
//! A `serde_json::Value` is modelled by `json_view`: a `JsonView` tree whose
//! objects are maps from key to value (serde_json keeps object keys sorted,
//! so the order of insertion leaves no trace) and whose numbers are the text
//! that `serde_json::Number` displays.

use serde_json::Value;
use vstd::prelude::*;
use vstd::string::*;

verus! {

#[verifier::external_type_specification]
#[verifier::external_body]
pub struct ExJsonValue(Value);

/// A JSON value as the logic reads it.
pub enum JsonView {
    Null,
    Bool(bool),
    /// A number, by the text that `serde_json::Number` displays.
    Number(Seq<char>),
    Str(Seq<char>),
    Array(Seq<JsonView>),
    Object(Map<Seq<char>, JsonView>),
}

/// What a `serde_json::Value` holds.
pub uninterp spec fn json_view(value: Value) -> JsonView;

/// What `serde_json::from_slice::<Value>` gives for these bytes: the value,
/// or the text of its error.
pub uninterp spec fn serde_json_from_slice(bytes: Seq<u8>) -> Result<JsonView, Seq<char>>;

/// What `serde_json::to_vec` gives for a value: its JSON text as bytes.
pub uninterp spec fn serde_json_to_vec(value: JsonView) -> Seq<u8>;

/// The views of a sequence of values.
pub open spec fn json_views(values: Seq<Value>) -> Seq<JsonView> {
    values.map_values(|v: Value| json_view(v))
}

/// The view of a value-or-message result.
pub open spec fn json_result_view(result: Result<Value, String>) -> Result<JsonView, Seq<char>> {
    match result {
        Ok(value) => Ok(json_view(value)),
        Err(message) => Err(message@),
    }
}

/// The view of a bytes-or-message result.
pub open spec fn bytes_result_view(result: Result<Vec<u8>, String>) -> Result<Seq<u8>, Seq<char>> {
    match result {
        Ok(bytes) => Ok(bytes@),
        Err(message) => Err(message@),
    }
}

/// The member `key` of `value`, when `value` is an object that has it; as
/// `Value::get` with a string index gives it.
pub open spec fn object_field(value: JsonView, key: Seq<char>) -> Option<JsonView> {
    match value {
        JsonView::Object(members) => if members.contains_key(key) {
            Some(members[key])
        } else {
            None
        },
        _ => None,
    }
}

/// Decimal digits of a natural number, as integers display.
pub open spec fn decimal_text(n: nat) -> Seq<char>
    decreases n,
{
    let digit = (('0' as u32) + (n % 10) as u32) as char;
    if n < 10 {
        seq![digit]
    } else {
        decimal_text(n / 10).push(digit)
    }
}

/// The empty JSON object.
pub open spec fn empty_object() -> Map<Seq<char>, JsonView> {
    Map::empty()
}

/// `serde_json::from_slice::<Value>`: the parsed value, or the error's text.
#[verifier::external_body]
pub(crate) fn json_from_slice(bytes: &[u8]) -> (parsed: Result<Value, String>)
    ensures
        json_result_view(parsed) == serde_json_from_slice(bytes@),
{
    match serde_json::from_slice::<Value>(bytes) {
        Ok(value) => Ok(value),
        Err(err) => Err(err.to_string()),
    }
}

/// `serde_json::to_vec`: the value's JSON text. Encoding a `Value` into a
/// `Vec` does not fail: serde_json fails only where a `Serialize` impl
/// fails or a map key is not a string, and a `Value` has neither.
#[verifier::external_body]
pub(crate) fn json_to_vec(value: &Value) -> (encoded: Result<Vec<u8>, String>)
    ensures
        encoded is Ok,
        encoded matches Ok(bytes) ==> bytes@ == serde_json_to_vec(json_view(*value)),
{
    match serde_json::to_vec(value) {
        Ok(bytes) => Ok(bytes),
        Err(err) => Err(err.to_string()),
    }
}

/// `Value::get` with a string index: the member `key` of an object.
#[verifier::external_body]
pub(crate) fn json_get<'a>(value: &'a Value, key: &str) -> (member: Option<&'a Value>)
    ensures
        member is Some <==> object_field(json_view(*value), key@) is Some,
        member matches Some(m) ==> object_field(json_view(*value), key@) == Some(json_view(*m)),
{
    value.get(key)
}

/// `Value::as_array`: the items of an array.
#[verifier::external_body]
pub(crate) fn json_as_array<'a>(value: &'a Value) -> (items: Option<&'a Vec<Value>>)
    ensures
        items is Some <==> json_view(*value) is Array,
        items matches Some(a) ==> json_view(*value) == JsonView::Array(json_views(a@)),
{
    value.as_array()
}

/// `Value::as_str`: the text of a string.
#[verifier::external_body]
pub(crate) fn json_as_str<'a>(value: &'a Value) -> (text: Option<&'a str>)
    ensures
        text is Some <==> json_view(*value) is Str,
        text matches Some(t) ==> json_view(*value) == JsonView::Str(t@),
{
    value.as_str()
}

/// `Value::is_object`.
#[verifier::external_body]
pub(crate) fn json_is_object(value: &Value) -> (is_object: bool)
    ensures
        is_object == (json_view(*value) is Object),
{
    value.is_object()
}

/// `Value::is_array`.
#[verifier::external_body]
pub(crate) fn json_is_array(value: &Value) -> (is_array: bool)
    ensures
        is_array == (json_view(*value) is Array),
{
    value.is_array()
}

/// `Value::clone`: an equal value.
#[verifier::external_body]
pub(crate) fn json_clone(value: &Value) -> (copy: Value)
    ensures
        json_view(copy) == json_view(*value),
{
    value.clone()
}

/// `Value::Bool`.
#[verifier::external_body]
pub(crate) fn json_bool(flag: bool) -> (value: Value)
    ensures
        json_view(value) == JsonView::Bool(flag),
{
    Value::Bool(flag)
}

/// `Value::String` holding a copy of `text`.
#[verifier::external_body]
pub(crate) fn json_string(text: &str) -> (value: Value)
    ensures
        json_view(value) == JsonView::Str(text@),
{
    Value::String(text.to_string())
}

/// `Value::from` an unsigned integer: a number that displays in decimal.
#[verifier::external_body]
pub(crate) fn json_u64(n: u64) -> (value: Value)
    ensures
        json_view(value) == JsonView::Number(decimal_text(n as nat)),
{
    Value::from(n)
}

/// `Value::Array` of the given items.
#[verifier::external_body]
pub(crate) fn json_array(items: Vec<Value>) -> (value: Value)
    ensures
        json_view(value) == JsonView::Array(json_views(items@)),
{
    Value::Array(items)
}

/// `Value::Object` with no member.
#[verifier::external_body]
pub(crate) fn json_object_new() -> (value: Value)
    ensures
        json_view(value) == JsonView::Object(empty_object()),
{
    Value::Object(serde_json::Map::new())
}

/// `serde_json::Map::insert` on an object: `key` now holds `item`, any
/// earlier member of that key is replaced, no other member changes.
#[verifier::external_body]
pub(crate) fn json_object_insert(value: &mut Value, key: &str, item: Value)
    requires
        json_view(*old(value)) is Object,
    ensures
        json_view(*old(value)) matches JsonView::Object(members) && json_view(*final(value))
            == JsonView::Object(members.insert(key@, json_view(item))),
{
    if let Some(members) = value.as_object_mut() {
        members.insert(key.to_string(), item);
    }
}

} // verus!
