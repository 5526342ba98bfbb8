//! JSON values by what they hold.
use serde_json::Value;
use vstd::prelude::*;

use crate::string_map;
use crate::string_map::StringMap;

verus! {

/// What a JSON value holds. Of the numbers, the whole ones from `i64::MIN` to
/// `u64::MAX` are told apart.
#[verifier::ext_equal]
pub enum Json {
    Null,
    Bool(bool),
    Number(u64),
    Negative(i64),
    OtherNumber,
    Text(Seq<char>),
    Array(Seq<Json>),
    Object(Map<Seq<char>, Json>),
}

/// A JSON value of serde_json.
#[verifier::external_type_specification]
#[verifier::external_body]
pub struct ExValue(serde_json::Value);

/// The members of a JSON object of serde_json.
#[verifier::external_type_specification]
#[verifier::external_body]
#[verifier::reject_recursive_types(K)]
#[verifier::reject_recursive_types(V)]
pub struct ExMembers<K, V>(serde_json::Map<K, V>);

/// What a JSON value of serde_json holds.
pub uninterp spec fn json_of(value: Value) -> Json;

/// What the members of a JSON object of serde_json hold, by name.
pub uninterp spec fn members(object: serde_json::Map<String, Value>) -> Map<Seq<char>, Json>;

/// Whether every number in a JSON value is told apart from every other.
pub open spec fn exact(value: Json) -> bool
    decreases value,
{
    match value {
        Json::OtherNumber => false,
        Json::Array(items) => forall|i: int| 0 <= i < items.len() ==> exact(#[trigger] items[i]),
        Json::Object(members) => forall|name: Seq<char>|
            members.contains_key(name) ==> exact(#[trigger] members[name]),
        _ => true,
    }
}

/// Whether `Value::eq` finds two values to be the same.
pub uninterp spec fn same_value(a: Value, b: Value) -> bool;

/// `Value`'s equality: equal values hold the same, and values that hold the same
/// are equal, as long as every number in them is told apart.
#[verifier::external_body]
pub(crate) fn is_same(a: &Value, b: &Value) -> (r: bool)
    ensures
        r == same_value(*a, *b),
        r ==> json_of(*a) == json_of(*b),
        json_of(*a) == json_of(*b) && exact(json_of(*a)) ==> r,
{
    a == b
}

/// `Value::Null`.
#[verifier::external_body]
pub(crate) fn null_value() -> (r: Value)
    ensures
        json_of(r) == Json::Null,
{
    Value::Null
}

/// `Value::from(bool)`: the JSON truth value.
#[verifier::external_body]
pub(crate) fn bool_value(value: bool) -> (r: Value)
    ensures
        json_of(r) == Json::Bool(value),
{
    Value::from(value)
}

/// `Value::from(u64)`: the JSON number.
#[verifier::external_body]
pub(crate) fn number_value(value: u64) -> (r: Value)
    ensures
        json_of(r) == Json::Number(value),
{
    Value::from(value)
}

/// `Value::from(&str)`: the JSON string with the same characters.
#[verifier::external_body]
pub(crate) fn text_value(value: &str) -> (r: Value)
    ensures
        json_of(r) == Json::Text(value@),
{
    Value::from(value)
}

/// `Value::Array`: the JSON array of the values, in their order.
#[verifier::external_body]
pub(crate) fn array_value(values: Vec<Value>) -> (r: Value)
    ensures
        json_of(r) == Json::Array(Seq::new(values@.len(), |i: int| json_of(values@[i]))),
{
    Value::Array(values)
}

/// `Value::Object`: the JSON object with these members.
#[verifier::external_body]
pub(crate) fn object_value(object: serde_json::Map<String, Value>) -> (r: Value)
    ensures
        json_of(r) == Json::Object(members(object)),
{
    Value::Object(object)
}

/// No members.
pub open spec fn nothing() -> Map<Seq<char>, Json> {
    Map::empty()
}

/// `serde_json::Map::new`: no members.
#[verifier::external_body]
pub(crate) fn no_members() -> (r: serde_json::Map<String, Value>)
    ensures
        members(r) == nothing(),
{
    serde_json::Map::new()
}

/// `serde_json::Map::insert`: the member of that name is the value, whether or
/// not there was one before; the others stay.
#[verifier::external_body]
pub(crate) fn put(object: &mut serde_json::Map<String, Value>, name: &str, value: Value)
    ensures
        members(*final(object)) == members(*old(object)).insert(name@, json_of(value)),
{
    object.insert(name.to_owned(), value);
}

/// Adds a text member.
pub(crate) fn put_text(object: &mut serde_json::Map<String, Value>, name: &str, value: &str)
    ensures
        members(*final(object)) == members(*old(object)).insert(name@, Json::Text(value@)),
{
    put(object, name, text_value(value));
}

/// Adds a number member.
pub(crate) fn put_number(object: &mut serde_json::Map<String, Value>, name: &str, value: u64)
    ensures
        members(*final(object)) == members(*old(object)).insert(name@, Json::Number(value)),
{
    put(object, name, number_value(value));
}

/// The members with one more text, where it is given.
pub open spec fn with_optional_text(
    object: Map<Seq<char>, Json>,
    name: Seq<char>,
    value: Option<Seq<char>>,
) -> Map<Seq<char>, Json> {
    match value {
        Some(value) => object.insert(name, Json::Text(value)),
        None => object,
    }
}

/// Adds a text member, where it is given.
pub(crate) fn put_optional_text(
    object: &mut serde_json::Map<String, Value>,
    name: &str,
    value: &Option<String>,
)
    ensures
        members(*final(object)) == with_optional_text(
            members(*old(object)),
            name@,
            value.deep_view(),
        ),
{
    if let Some(value) = value {
        put_text(object, name, value.as_str());
    }
}

/// The JSON object of a map of texts.
pub open spec fn text_map(values: Map<Seq<char>, Seq<char>>) -> Json {
    Json::Object(values.map_values(|value: Seq<char>| Json::Text(value)))
}

/// The JSON object of a map of texts.
pub(crate) fn text_map_value(values: &StringMap<String>) -> (r: Value)
    ensures
        json_of(r) == text_map(values.deep_view()),
{
    let ghost pairs = values.pairs();
    let mut object = no_members();
    let count: usize = values.len();
    let mut i: usize = 0;
    assert(pairs.take(0) =~= Seq::empty());
    assert(members(object) =~= string_map::map_of_pairs(pairs.take(0)).map_values(
        |value: Seq<char>| Json::Text(value),
    ));
    while i < count
        invariant
            0 <= i <= count,
            count == pairs.len(),
            pairs == values.pairs(),
            members(object) == string_map::map_of_pairs(pairs.take(i as int)).map_values(
                |value: Seq<char>| Json::Text(value),
            ),
        decreases count - i,
    {
        let key = values.key_at(i);
        let value = values.value_at(i);
        put_text(&mut object, key, value.as_str());
        proof {
            let before = pairs.take(i as int);
            let after = pairs.take(i + 1);
            assert(after.drop_last() =~= before);
            assert(after.last() == pairs[i as int]);
            assert(members(object) =~= string_map::map_of_pairs(after).map_values(
                |value: Seq<char>| Json::Text(value),
            ));
        }
        i = i + 1;
    }
    assert(pairs.take(i as int) =~= pairs);
    object_value(object)
}

/// The member of a JSON object.
pub open spec fn json_member(value: Json, name: Seq<char>) -> Option<Json> {
    match value {
        Json::Object(object) => if object.contains_key(name) {
            Some(object[name])
        } else {
            None
        },
        _ => None,
    }
}

/// The text of a JSON string.
pub open spec fn json_text(value: Option<Json>) -> Option<Seq<char>> {
    match value {
        Some(Json::Text(text)) => Some(text),
        _ => None,
    }
}

/// The number of a JSON number from zero to `u64::MAX`.
pub open spec fn json_number(value: Option<Json>) -> Option<u64> {
    match value {
        Some(Json::Number(number)) => Some(number),
        _ => None,
    }
}

/// What `serde_json::from_str` makes of a text.
pub uninterp spec fn parsed(text: Seq<char>) -> Option<Json>;

/// `serde_json::from_str`: the JSON value that the text is, or none.
#[verifier::external_body]
pub(crate) fn parse(text: &str) -> (r: Option<Value>)
    ensures
        r is Some == parsed(text@) is Some,
        r matches Some(value) ==> json_of(value) == parsed(text@)->0,
{
    serde_json::from_str(text).ok()
}

/// `Value::get`: the member of an object; none of any other value.
#[verifier::external_body]
pub(crate) fn member<'a>(value: &'a Value, name: &str) -> (r: Option<&'a Value>)
    ensures
        r is Some == json_member(json_of(*value), name@) is Some,
        r matches Some(found) ==> json_of(*found) == json_member(json_of(*value), name@)->0,
{
    value.get(name)
}

/// `Value::as_str`: the text of a string; none of any other value.
#[verifier::external_body]
pub(crate) fn text_of(value: &Value) -> (r: Option<&str>)
    ensures
        r.deep_view() == json_text(Some(json_of(*value))),
{
    value.as_str()
}

/// `Value::as_u64`: a number from zero to `u64::MAX`; none of any other value.
#[verifier::external_body]
pub(crate) fn number_of(value: &Value) -> (r: Option<u64>)
    ensures
        r == json_number(Some(json_of(*value))),
{
    value.as_u64()
}

/// The truth value of a JSON truth value.
pub open spec fn json_bool(value: Option<Json>) -> Option<bool> {
    match value {
        Some(Json::Bool(truth)) => Some(truth),
        _ => None,
    }
}

/// `Value::as_bool`: a truth value; none of any other value.
#[verifier::external_body]
pub(crate) fn bool_of(value: &Value) -> (r: Option<bool>)
    ensures
        r == json_bool(Some(json_of(*value))),
{
    value.as_bool()
}

/// The number of a JSON number from `i64::MIN` to `i64::MAX`.
pub open spec fn json_integer(value: Option<Json>) -> Option<i64> {
    match value {
        Some(Json::Number(number)) => if number <= i64::MAX {
            Some(number as i64)
        } else {
            None
        },
        Some(Json::Negative(number)) => Some(number),
        _ => None,
    }
}

/// `Value::as_i64`: a whole number from `i64::MIN` to `i64::MAX`; none of any other
/// value.
#[verifier::external_body]
pub(crate) fn integer_of(value: &Value) -> (r: Option<i64>)
    ensures
        r == json_integer(Some(json_of(*value))),
{
    value.as_i64()
}

/// `Value::as_array`: the values of an array in their order; none of any other
/// value.
#[verifier::external_body]
pub(crate) fn items_of(value: &Value) -> (r: Option<&Vec<Value>>)
    ensures
        r is Some == json_of(*value) is Array,
        r matches Some(items) ==> json_of(*value) == Json::Array(
            Seq::new(items@.len(), |i: int| json_of(items@[i])),
        ),
{
    value.as_array()
}

/// `Value::is_object`.
#[verifier::external_body]
pub(crate) fn is_object(value: &Value) -> (r: bool)
    ensures
        r == (json_of(*value) is Object),
{
    value.is_object()
}

/// The text of a member that is a string.
pub(crate) fn text_member<'a>(value: &'a Value, name: &str) -> (r: Option<&'a str>)
    ensures
        r.deep_view() == json_text(json_member(json_of(*value), name@)),
{
    match member(value, name) {
        Some(found) => text_of(found),
        None => None,
    }
}

/// The number of a member that is one from zero to `u64::MAX`.
pub(crate) fn number_member(value: &Value, name: &str) -> (r: Option<u64>)
    ensures
        r == json_number(json_member(json_of(*value), name@)),
{
    match member(value, name) {
        Some(found) => number_of(found),
        None => None,
    }
}

/// The number of a member that is one from `i64::MIN` to `i64::MAX`.
pub(crate) fn integer_member(value: &Value, name: &str) -> (r: Option<i64>)
    ensures
        r == json_integer(json_member(json_of(*value), name@)),
{
    match member(value, name) {
        Some(found) => integer_of(found),
        None => None,
    }
}

} // verus!
