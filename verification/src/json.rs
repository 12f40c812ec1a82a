//! JSON values of `serde_json`, as this library sees them.
//!
//! A `serde_json::Value` is opaque to the verifier. What the library reads of
//! one is named by the spec functions below, and each function of this file
//! makes one call into `serde_json` whose result is stated over those names.
//! None of these statements is proved.

use vstd::prelude::*;
use serde_json::Value;

verus! {

/// `serde_json::Value`, carried through without looking inside.
#[verifier::external_type_specification]
#[verifier::external_body]
pub struct ExValue(serde_json::Value);

/// The value that `serde_json::from_slice` reads from `bytes`, if it reads one.
pub uninterp spec fn json_parsed(bytes: Seq<u8>) -> Option<Value>;

/// The compact text that `Value`'s `Display` writes.
pub uninterp spec fn json_text(value: Value) -> Seq<char>;

/// The member that `Value::get` finds under a string key.
pub uninterp spec fn json_member(value: Value, key: Seq<char>) -> Option<Value>;

/// The elements that `Value::as_array` gives.
pub uninterp spec fn json_items(value: Value) -> Option<Seq<Value>>;

/// The string that `Value::as_str` gives.
pub uninterp spec fn json_str(value: Value) -> Option<Seq<char>>;

/// The number that `Value::as_u64` gives.
pub uninterp spec fn json_u64(value: Value) -> Option<u64>;

/// What `Value::is_null` answers.
pub uninterp spec fn json_is_null(value: Value) -> bool;

/// What `Value::is_object` answers.
pub uninterp spec fn json_is_object(value: Value) -> bool;

/// What a borrowed optional value refers to.
pub open spec fn referent(r: Option<&Value>) -> Option<Value> {
    match r {
        Some(m) => Some(*m),
        None => None,
    }
}

/// Calls `serde_json::from_slice` at type `Value`. The contract only names the
/// outcome: a body that is not JSON gives `None`.
#[verifier::external_body]
pub(crate) fn parse(bytes: &[u8]) -> (r: Option<Value>)
    ensures
        r == json_parsed(bytes@),
{
    serde_json::from_slice::<Value>(bytes).ok()
}

/// Calls `to_string` on a `Value`, which goes through its `Display`. The
/// contract only names the text.
#[verifier::external_body]
pub(crate) fn text(value: &Value) -> (r: String)
    ensures
        r@ == json_text(*value),
{
    value.to_string()
}

/// Calls `Value::get` with a string key: the member of an object under that
/// key, `None` where there is none or the value is no object.
#[verifier::external_body]
pub(crate) fn member<'v>(value: &'v Value, key: &str) -> (r: Option<&'v Value>)
    ensures
        referent(r) == json_member(*value, key@),
{
    value.get(key)
}

/// Calls `Value::as_array`: the elements of an array, `None` for any other
/// value.
#[verifier::external_body]
pub(crate) fn items(value: &Value) -> (r: Option<&Vec<Value>>)
    ensures
        r is Some <==> json_items(*value) is Some,
        r matches Some(v) ==> json_items(*value) == Some(v@),
{
    value.as_array()
}

/// Calls `Value::as_str`: the text of a string, `None` for any other value.
#[verifier::external_body]
pub(crate) fn as_str(value: &Value) -> (r: Option<&str>)
    ensures
        r is Some <==> json_str(*value) is Some,
        r matches Some(s) ==> json_str(*value) == Some(s@),
{
    value.as_str()
}

/// Calls `Value::as_u64`: a number that is an integer in the range of `u64`,
/// `None` for any other value.
#[verifier::external_body]
pub(crate) fn as_u64(value: &Value) -> (r: Option<u64>)
    ensures
        r == json_u64(*value),
{
    value.as_u64()
}

/// Calls `Value::is_null`.
#[verifier::external_body]
pub(crate) fn is_null(value: &Value) -> (r: bool)
    ensures
        r == json_is_null(*value),
{
    value.is_null()
}

/// Calls `Value::is_object`.
#[verifier::external_body]
pub(crate) fn is_object(value: &Value) -> (r: bool)
    ensures
        r == json_is_object(*value),
{
    value.is_object()
}

/// `Value::clone`: the copy is the same value.
pub assume_specification[ <serde_json::Value as Clone>::clone ](value: &serde_json::Value) -> (r:
    serde_json::Value)
    ensures
        r == *value,
;

/// Builds `Value::Null`, the value for which `is_null` holds.
#[verifier::external_body]
pub(crate) fn null() -> (r: Value)
    ensures
        json_is_null(r),
{
    Value::Null
}

/// Builds `Value::String` from a text: `as_str` gives that text back.
#[verifier::external_body]
pub(crate) fn string(s: &str) -> (r: Value)
    ensures
        json_str(r) == Some(s@),
{
    Value::String(s.to_string())
}

/// Collects pairs with distinct keys into a `serde_json::Map` and wraps it in
/// `Value::Object`: the result is an object whose members are those pairs and
/// no others.
#[verifier::external_body]
pub(crate) fn object(entries: Vec<(String, Value)>) -> (r: Value)
    requires
        forall|i: int, j: int|
            0 <= i < j < entries@.len() ==> (#[trigger] entries@[i]).0@ != (#[trigger] entries@[j]).0@,
    ensures
        json_is_object(r),
        forall|i: int|
            0 <= i < entries@.len() ==> json_member(r, (#[trigger] entries@[i]).0@) == Some(
                entries@[i].1,
            ),
        forall|key: Seq<char>|
            (forall|i: int| 0 <= i < entries@.len() ==> (#[trigger] entries@[i]).0@ != key)
                ==> (#[trigger] json_member(r, key)) is None,
{
    Value::Object(entries.into_iter().collect())
}

} // verus!
