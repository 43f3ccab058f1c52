//! JSON documents, as `serde_json` parses and holds them.
//!
//! A document is kept as the `serde_json::Value` that the parser gave. What
//! such a value holds is modelled by [`Json`]; the value's own accessors read
//! it, and their contracts say what each of them returns of that model.

use vstd::prelude::*;

verus! {

/// `serde_json::Value`: a JSON document or a part of one. It is read through
/// the accessors below and never looked into otherwise.
#[verifier::external_type_specification]
#[verifier::external_body]
pub struct ExValue(serde_json::Value);

/// `serde_json::Error`: why a text is no JSON document. It is carried as it
/// is and never looked into.
#[verifier::external_type_specification]
#[verifier::external_body]
pub struct ExError(serde_json::Error);

/// A JSON number, by the two ways in which it is read.
pub struct JsonNumber {
    /// The number itself, where it is held as an integer from 0 to
    /// `u64::MAX`: where it was written without sign, fraction or exponent.
    pub unsigned: Option<u64>,
    /// The bit pattern of the IEEE 754 binary64 number that stands for it.
    pub binary64: u64,
}

/// A JSON value as a mathematical value.
pub enum Json {
    Null,
    Bool(bool),
    Number(JsonNumber),
    Text(Seq<char>),
    Array(Seq<Json>),
    /// An object: its members by their keys.
    Object(Map<Seq<char>, Json>),
}

/// What `value` holds.
pub uninterp spec fn json_contents(value: serde_json::Value) -> Json;

/// What `serde_json` reads from `text` as one JSON document, or `None` where
/// it refuses `text`: where `text` is no well-formed JSON, goes on behind its
/// document, or nests deeper than the parser follows. Of two members of one
/// object under the same key it keeps the later.
pub uninterp spec fn json_document(text: Seq<char>) -> Option<Json>;

/// The member of `value` under `key`, where `value` is an object that has
/// one.
pub open spec fn member_of(value: Json, key: Seq<char>) -> Option<Json> {
    match value {
        Json::Object(members) => if members.contains_key(key) {
            Some(members[key])
        } else {
            None
        },
        _ => None,
    }
}

/// The text of `value`, where `value` is a string.
pub open spec fn text_of(value: Json) -> Option<Seq<char>> {
    match value {
        Json::Text(text) => Some(text),
        _ => None,
    }
}

/// The number `value`, where `value` is an integer from 0 to `u64::MAX`.
pub open spec fn unsigned_of(value: Json) -> Option<u64> {
    match value {
        Json::Number(number) => number.unsigned,
        _ => None,
    }
}

/// The number `value` in binary64, where `value` is a number.
pub open spec fn binary64_of(value: Json) -> Option<u64> {
    match value {
        Json::Number(number) => Some(number.binary64),
        _ => None,
    }
}

/// `serde_json::from_str` at the type `serde_json::Value`: reads `text` as
/// one JSON document. What it returns depends on `text` alone; the contract
/// gives that result its name and claims no more.
#[verifier::external_body]
pub(crate) fn parse(text: &str) -> (outcome: Result<serde_json::Value, serde_json::Error>)
    ensures
        match outcome {
            Ok(value) => json_document(text@) == Some(json_contents(value)),
            Err(_) => json_document(text@) is None,
        },
{
    serde_json::from_str::<serde_json::Value>(text)
}

/// `serde_json::Value::is_object`: whether the value is a JSON object.
#[verifier::external_body]
pub(crate) fn is_object(value: &serde_json::Value) -> (object: bool)
    ensures
        object == (json_contents(*value) is Object),
{
    value.is_object()
}

/// `serde_json::Value::get` with a string for its index: the member of an
/// object under `key`, and nothing for a missing member or a value that is no
/// object.
#[verifier::external_body]
pub(crate) fn member<'a>(value: &'a serde_json::Value, key: &str) -> (found: Option<
    &'a serde_json::Value,
>)
    ensures
        match found {
            Some(inner) => member_of(json_contents(*value), key@) == Some(json_contents(*inner)),
            None => member_of(json_contents(*value), key@) is None,
        },
{
    value.get(key)
}

/// `serde_json::Value::as_str`: the text of a JSON string, and nothing for any
/// other value.
#[verifier::external_body]
pub(crate) fn as_text<'a>(value: &'a serde_json::Value) -> (text: Option<&'a str>)
    ensures
        match text {
            Some(inner) => text_of(json_contents(*value)) == Some(inner@),
            None => text_of(json_contents(*value)) is None,
        },
{
    value.as_str()
}

/// `serde_json::Value::as_u64`: the value of a JSON integer that is not
/// negative and fits 64 bits, and nothing for any other value, a number with
/// a fraction or an exponent among them.
#[verifier::external_body]
pub(crate) fn as_unsigned(value: &serde_json::Value) -> (number: Option<u64>)
    ensures
        number == unsigned_of(json_contents(*value)),
{
    value.as_u64()
}

/// `serde_json::Value::as_f64`, its result handed over as the number's bit
/// pattern: any JSON number as IEEE 754 binary64, and nothing for a value
/// that is no number.
#[verifier::external_body]
pub(crate) fn as_binary64(value: &serde_json::Value) -> (bits: Option<u64>)
    ensures
        bits == binary64_of(json_contents(*value)),
{
    match value.as_f64() {
        Some(number) => Some(number.to_bits()),
        None => None,
    }
}

} // verus!
