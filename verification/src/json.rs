//! Reading JSON documents through `serde_json`.
//!
//! A `serde_json::Value` is opaque to the verifier. What a value holds is
//! named by `json_tree`, a tree of plain values, and each accessor's
//! contract ties what it returns to that tree. None of these contracts is
//! proved: they restate what `serde_json` documents for its accessors.

use vstd::prelude::*;

verus! {

#[verifier::external_type_specification]
#[verifier::external_body]
pub struct ExJsonValue(serde_json::Value);

/// A JSON value.
pub ghost enum JsonModel {
    Null,
    Bool(bool),
    /// A number, with its value where it is a non-negative integer below
    /// 2^64.
    Number(Option<u64>),
    Text(Seq<char>),
    List(Seq<JsonModel>),
    Object(Map<Seq<char>, JsonModel>),
}

/// What a `serde_json::Value` holds.
pub uninterp spec fn json_tree(value: serde_json::Value) -> JsonModel;

/// The document that `serde_json::from_str` reads from a text, if the text
/// is one JSON value.
pub uninterp spec fn json_document(text: Seq<char>) -> Option<JsonModel>;

/// What each value of a list holds.
pub open spec fn trees(values: Seq<serde_json::Value>) -> Seq<JsonModel> {
    values.map_values(|v: serde_json::Value| json_tree(v))
}

/// The member of an object under a key; `None` for a missing key and for a
/// value that is no object.
pub open spec fn member_of(value: JsonModel, key: Seq<char>) -> Option<JsonModel> {
    match value {
        JsonModel::Object(members) => if members.contains_key(key) {
            Some(members[key])
        } else {
            None
        },
        _ => None,
    }
}

/// The elements of an array; `None` for any other value.
pub open spec fn items_of(value: JsonModel) -> Option<Seq<JsonModel>> {
    match value {
        JsonModel::List(elements) => Some(elements),
        _ => None,
    }
}

/// The text of a string; `None` for any other value.
pub open spec fn text_of(value: JsonModel) -> Option<Seq<char>> {
    match value {
        JsonModel::Text(text) => Some(text),
        _ => None,
    }
}

/// A number that is a non-negative integer below 2^64; `None` for any
/// other value.
pub open spec fn number_of(value: JsonModel) -> Option<u64> {
    match value {
        JsonModel::Number(n) => n,
        _ => None,
    }
}

/// The text of the member under `key`, where that member is a string.
pub open spec fn text_member(value: JsonModel, key: Seq<char>) -> Option<Seq<char>> {
    match member_of(value, key) {
        Some(v) => text_of(v),
        None => None,
    }
}

/// `serde_json::from_str` at type `Value`: the parsed document, or `None`
/// where the parser reports an error. What the document holds is
/// `json_document` of the text.
#[verifier::external_body]
pub(crate) fn parse(text: &str) -> (doc: Option<serde_json::Value>)
    ensures
        match doc {
            Some(d) => json_document(text@) == Some(json_tree(d)),
            None => json_document(text@).is_none(),
        },
{
    serde_json::from_str::<serde_json::Value>(text).ok()
}

/// `Value::get` with a string key: the object's member under that key.
#[verifier::external_body]
pub(crate) fn member<'a>(value: &'a serde_json::Value, key: &str) -> (found: Option<
    &'a serde_json::Value,
>)
    ensures
        match found {
            Some(v) => member_of(json_tree(*value), key@) == Some(json_tree(*v)),
            None => member_of(json_tree(*value), key@).is_none(),
        },
{
    value.get(key)
}

/// `Value::as_array`: the elements, if the value is an array.
#[verifier::external_body]
pub(crate) fn items<'a>(value: &'a serde_json::Value) -> (found: Option<
    &'a Vec<serde_json::Value>,
>)
    ensures
        match found {
            Some(v) => items_of(json_tree(*value)) == Some(trees(v@)),
            None => items_of(json_tree(*value)).is_none(),
        },
{
    value.as_array()
}

/// `Value::as_str`: the text, if the value is a string.
#[verifier::external_body]
pub(crate) fn text<'a>(value: &'a serde_json::Value) -> (found: Option<&'a str>)
    ensures
        match found {
            Some(s) => text_of(json_tree(*value)) == Some(s@),
            None => text_of(json_tree(*value)).is_none(),
        },
{
    value.as_str()
}

/// `Value::as_u64`: the number, if the value is a non-negative integer
/// that fits in 64 bits.
#[verifier::external_body]
pub(crate) fn number(value: &serde_json::Value) -> (found: Option<u64>)
    ensures
        found == number_of(json_tree(*value)),
{
    value.as_u64()
}

/// Reads the string member under `key`.
pub fn read_text_member(value: &serde_json::Value, key: &str) -> (found: Option<String>)
    ensures
        match found {
            Some(s) => text_member(json_tree(*value), key@) == Some(s@),
            None => text_member(json_tree(*value), key@).is_none(),
        },
{
    match member(value, key) {
        Some(v) => match text(v) {
            Some(s) => Some(s.to_owned()),
            None => None,
        },
        None => None,
    }
}

} // verus!
