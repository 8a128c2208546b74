//! JSON values as the executor sees them.
//!
//! Values themselves are `serde_json::Value`s. Contracts speak of their content, a [`Json`]
//! tree, through [`json_of`]. Everything that is believed of `serde_json` without proof stands in
//! this file; it is true of `serde_json` with its default features, where a number is an integer
//! of 64 bits or a double and an object keeps its entries in the order of their keys.
use serde_json::Value;
use vstd::prelude::*;

verus! {

/// What a JSON number holds: a non-negative integer, a negative integer, or the bit pattern of
/// a finite double.
pub enum JsonNumber {
    PosInt(u64),
    NegInt(i64),
    Float(u64),
}

/// The content of a JSON value.
pub enum Json {
    Null,
    Bool(bool),
    Number(JsonNumber),
    Text(Seq<char>),
    Array(Seq<Json>),
    Object(Map<Seq<char>, Json>),
}

impl Json {
    /// The member `key` of an object; nothing else has members.
    pub open spec fn member(self, key: Seq<char>) -> Option<Json> {
        match self {
            Json::Object(entries) => if entries.contains_key(key) {
                Some(entries[key])
            } else {
                None
            },
            _ => None,
        }
    }

    pub open spec fn text(self) -> Option<Seq<char>> {
        match self {
            Json::Text(text) => Some(text),
            _ => None,
        }
    }

    pub open spec fn boolean(self) -> Option<bool> {
        match self {
            Json::Bool(b) => Some(b),
            _ => None,
        }
    }

    pub open spec fn unsigned(self) -> Option<u64> {
        match self {
            Json::Number(JsonNumber::PosInt(n)) => Some(n),
            _ => None,
        }
    }

    pub open spec fn array(self) -> Option<Seq<Json>> {
        match self {
            Json::Array(items) => Some(items),
            _ => None,
        }
    }

    /// The member `key`, if it is a string.
    pub open spec fn text_member(self, key: Seq<char>) -> Option<Seq<char>> {
        match self.member(key) {
            Some(value) => value.text(),
            None => None,
        }
    }

    /// The member `key`, if it is a boolean.
    pub open spec fn boolean_member(self, key: Seq<char>) -> Option<bool> {
        match self.member(key) {
            Some(value) => value.boolean(),
            None => None,
        }
    }

    /// The member `key`, if it is a non-negative integer.
    pub open spec fn unsigned_member(self, key: Seq<char>) -> Option<u64> {
        match self.member(key) {
            Some(value) => value.unsigned(),
            None => None,
        }
    }
}

/// `serde_json::Value`: opaque, read through [`json_of`].
#[verifier::external_type_specification]
#[verifier::external_body]
pub struct ExValue(serde_json::Value);

/// `serde_json::Map`: opaque, read through [`entries_of`].
#[verifier::external_type_specification]
#[verifier::external_body]
#[verifier::reject_recursive_types(K)]
#[verifier::reject_recursive_types(V)]
pub struct ExJsonMap<K, V>(serde_json::Map<K, V>);

/// `serde_json::Error`: opaque, never looked into.
#[verifier::external_type_specification]
#[verifier::external_body]
pub struct ExJsonError(serde_json::Error);

/// The content of a `serde_json::Value`.
pub uninterp spec fn json_of(value: serde_json::Value) -> Json;

/// The entries of a `serde_json::Map`.
pub uninterp spec fn entries_of(
    map: serde_json::Map<String, serde_json::Value>,
) -> Map<Seq<char>, Json>;

/// The text that `serde_json::to_string` gives for an array.
pub uninterp spec fn array_text(items: Seq<Json>) -> Seq<char>;

/// The array that `serde_json::from_str` reads from a text, if it reads one.
pub uninterp spec fn parsed_array(text: Seq<char>) -> Option<Seq<Json>>;

/// What an empty object holds.
pub open spec fn no_entries() -> Map<Seq<char>, Json> {
    Map::empty()
}

/// The contents of several values, in order.
pub open spec fn jsons_of(values: Seq<Value>) -> Seq<Json> {
    values.map_values(|value: Value| json_of(value))
}

/// `Value::as_str`: the text of a string value, `None` of any other value.
pub assume_specification[ serde_json::Value::as_str ](
    value: &serde_json::Value,
) -> (text: Option<&str>)
    ensures
        match json_of(*value).text() {
            Some(content) => text is Some && text->0@ == content,
            None => text is None,
        },
;

/// `Value::as_bool`: the boolean that a boolean value holds, `None` of any other value.
pub assume_specification[ serde_json::Value::as_bool ](
    value: &serde_json::Value,
) -> (boolean: Option<bool>)
    ensures
        boolean == json_of(*value).boolean(),
;

/// `Value::as_u64`: the integer of a number that is a non-negative integer, `None` of a negative
/// or floating-point number and of any other value.
pub assume_specification[ serde_json::Value::as_u64 ](
    value: &serde_json::Value,
) -> (integer: Option<u64>)
    ensures
        integer == json_of(*value).unsigned(),
;

/// `Value::is_number`: whether the value is a number.
pub assume_specification[ serde_json::Value::is_number ](
    value: &serde_json::Value,
) -> (number: bool)
    ensures
        number == (json_of(*value) is Number),
;

/// `Value::as_array`: the items of an array, `None` of any other value.
pub assume_specification[ serde_json::Value::as_array ](
    value: &serde_json::Value,
) -> (items: Option<&Vec<serde_json::Value>>)
    ensures
        match json_of(*value).array() {
            Some(content) => items is Some && jsons_of(items->0@) == content,
            None => items is None,
        },
;

/// `Value::as_array_mut`: the items of an array, to be changed in place; `None` of any other
/// value, which stays as it is.
pub assume_specification[ serde_json::Value::as_array_mut ](
    value: &mut serde_json::Value,
) -> (items: Option<&mut Vec<serde_json::Value>>)
    ensures
        match json_of(*old(value)) {
            Json::Array(content) => {
                &&& items is Some
                &&& jsons_of((*items->0)@) == content
                &&& json_of(*final(value)) == Json::Array(jsons_of((*final(items->0))@))
            },
            _ => items is None && json_of(*final(value)) == json_of(*old(value)),
        },
;

/// `Value::as_object_mut`: the entries of an object, to be changed in place; `None` of any other
/// value, which stays as it is.
pub assume_specification[ serde_json::Value::as_object_mut ](
    value: &mut serde_json::Value,
) -> (object: Option<&mut serde_json::Map<String, serde_json::Value>>)
    ensures
        match json_of(*old(value)) {
            Json::Object(content) => {
                &&& object is Some
                &&& entries_of(*object->0) == content
                &&& json_of(*final(value)) == Json::Object(entries_of(*final(object->0)))
            },
            _ => object is None && json_of(*final(value)) == json_of(*old(value)),
        },
;

/// `<Value as Clone>::clone`: a value with the same content.
pub assume_specification[ <serde_json::Value as Clone>::clone ](
    value: &serde_json::Value,
) -> (copy: serde_json::Value)
    ensures
        json_of(copy) == json_of(*value),
;

/// `Map::new`: a map without entries.
pub assume_specification[ serde_json::Map::<String, serde_json::Value>::new ]() -> (
    fresh: serde_json::Map<String, serde_json::Value>
)
    ensures
        entries_of(fresh) == no_entries(),
;

/// `Map::insert`: sets the entry of `k`, adding or replacing it, and returns what it replaced.
pub assume_specification[ serde_json::Map::<String, serde_json::Value>::insert ](
    map: &mut serde_json::Map<String, serde_json::Value>,
    k: String,
    v: serde_json::Value,
) -> (replaced: Option<serde_json::Value>)
    ensures
        entries_of(*final(map)) == entries_of(*old(map)).insert(k@, json_of(v)),
        replaced is Some <==> entries_of(*old(map)).contains_key(k@),
        replaced is Some ==> json_of(replaced->0) == entries_of(*old(map))[k@],
;

/// `Map::remove` with a string key: drops the entry of `key`, if there is one, and returns it.
#[verifier::external_body]
pub(crate) fn remove_entry(map: &mut serde_json::Map<String, Value>, key: &str) -> (removed: Option<
    Value,
>)
    ensures
        entries_of(*final(map)) == entries_of(*old(map)).remove(key@),
        removed is Some <==> entries_of(*old(map)).contains_key(key@),
        removed is Some ==> json_of(removed->0) == entries_of(*old(map))[key@],
{
    map.remove(key)
}

/// `Value::get` with a string key: the member `key` of an object, `None` where the object has no
/// such member or the value is no object.
#[verifier::external_body]
pub(crate) fn member_of<'a>(value: &'a Value, key: &str) -> (found: Option<&'a Value>)
    ensures
        match json_of(*value).member(key@) {
            Some(content) => found is Some && json_of(*found->0) == content,
            None => found is None,
        },
{
    value.get(key)
}

/// `Value::Null`: the null value.
#[verifier::external_body]
pub(crate) fn null_value() -> (value: Value)
    ensures
        json_of(value) == Json::Null,
{
    Value::Null
}

/// `Value::String`: a string value.
#[verifier::external_body]
pub(crate) fn text_value(text: String) -> (value: Value)
    ensures
        json_of(value) == Json::Text(text@),
{
    Value::String(text)
}

/// `Value::Object`: an object with the entries of a map.
#[verifier::external_body]
pub(crate) fn object_value(map: serde_json::Map<String, Value>) -> (value: Value)
    ensures
        json_of(value) == Json::Object(entries_of(map)),
{
    Value::Object(map)
}

/// `serde_json::to_string` of a list of values: its text. A `serde_json::Value` can always be
/// printed, as its keys are strings and the text is written to memory. The text depends on the
/// contents alone, since a `serde_json::Map` is walked in the order of its keys; what the text
/// is, is not stated.
#[verifier::external_body]
pub(crate) fn print_array(items: &Vec<Value>) -> (printed: Result<String, String>)
    ensures
        printed is Ok && printed->Ok_0@ == array_text(jsons_of(items@)),
{
    match serde_json::to_string(items) {
        Ok(text) => Ok(text),
        Err(error) => Err(error.to_string()),
    }
}

/// `serde_json::from_str` into a list of values: the items of the array that the text holds, or
/// an error where it holds none. Which texts hold which arrays is not stated.
#[verifier::external_body]
pub(crate) fn parse_array(text: &str) -> (parsed: Result<Vec<Value>, serde_json::Error>)
    ensures
        match parsed {
            Ok(items) => parsed_array(text@) == Some(jsons_of(items@)),
            Err(_) => parsed_array(text@) is None,
        },
{
    serde_json::from_str(text)
}

/// The member `key` as text: `Value::get` followed by `Value::as_str`.
pub(crate) fn text_member_of<'a>(value: &'a Value, key: &str) -> (found: Option<&'a str>)
    ensures
        match json_of(*value).text_member(key@) {
            Some(content) => found is Some && found->0@ == content,
            None => found is None,
        },
{
    match member_of(value, key) {
        Some(member) => member.as_str(),
        None => None,
    }
}

/// The member `key` as a non-negative integer: `Value::get` followed by `Value::as_u64`.
pub(crate) fn unsigned_member_of(value: &Value, key: &str) -> (found: Option<u64>)
    ensures
        found == json_of(*value).unsigned_member(key@),
{
    match member_of(value, key) {
        Some(member) => member.as_u64(),
        None => None,
    }
}

/// The member `key` as a boolean: `Value::get` followed by `Value::as_bool`.
pub(crate) fn boolean_member_of(value: &Value, key: &str) -> (found: Option<bool>)
    ensures
        found == json_of(*value).boolean_member(key@),
{
    match member_of(value, key) {
        Some(member) => member.as_bool(),
        None => None,
    }
}

} // verus!
