//! The part of a JSON document that the probes read, and the calls into
//! `serde_json` that give access to it.
//!
//! Nothing in this file is proved: it states what `serde_json` is relied on
//! to do. The rules that use it live in `probe`.

use vstd::prelude::*;

verus! {

/// A JSON document as far as this library looks into it.
///
/// Strings, arrays and objects are kept in full. `null`, booleans and
/// numbers are never read by any rule here and share one variant.
pub ghost enum JsonTree {
    Text(Seq<char>),
    Array(Seq<JsonTree>),
    Object(Map<Seq<char>, JsonTree>),
    Other,
}

/// `serde_json::Value`, carried through verified code as an opaque value.
#[verifier::external_type_specification]
#[verifier::external_body]
pub struct ExValue(serde_json::Value);

/// The document that a `serde_json::Value` holds: its strings by their
/// characters, its arrays in order, its objects as maps from key to member.
pub uninterp spec fn json_tree(value: serde_json::Value) -> JsonTree;

/// What `serde_json::from_slice::<serde_json::Value>` makes of a byte string:
/// the document it reads, or `None` where it reports an error.
pub uninterp spec fn parsed_json(bytes: Seq<u8>) -> Option<JsonTree>;

/// `serde_json::from_slice` at type `serde_json::Value`, with the error
/// dropped. The outcome is a function of the bytes alone; which function is
/// left to `serde_json`.
#[verifier::external_body]
pub(crate) fn parse_json(bytes: &[u8]) -> (parsed: Option<serde_json::Value>)
    ensures
        match parsed {
            Some(value) => parsed_json(bytes@) == Some(json_tree(value)),
            None => parsed_json(bytes@) is None,
        },
{
    serde_json::from_slice::<serde_json::Value>(bytes).ok()
}

/// `serde_json::Value::get` with a string key: the member stored under `key`
/// if the value is an object that has one, otherwise `None` (in particular
/// for every value that is not an object).
#[verifier::external_body]
pub(crate) fn json_member<'a>(value: &'a serde_json::Value, key: &str) -> (member: Option<
    &'a serde_json::Value,
>)
    ensures
        match member {
            Some(found) => json_tree(*value) matches JsonTree::Object(fields)
                && fields.contains_key(key@) && fields[key@] == json_tree(*found),
            None => !(json_tree(*value) matches JsonTree::Object(fields) && fields.contains_key(
                key@,
            )),
        },
{
    value.get(key)
}

/// `serde_json::Value::as_array`: the elements if the value is an array,
/// otherwise `None`.
pub assume_specification<'a>[ serde_json::Value::as_array ](value: &'a serde_json::Value) -> (items:
    Option<&'a Vec<serde_json::Value>>)
    ensures
        match items {
            Some(list) => json_tree(*value) == JsonTree::Array(
                list@.map_values(|item: serde_json::Value| json_tree(item)),
            ),
            None => !(json_tree(*value) is Array),
        },
;

/// `serde_json::Value::as_str`: the text if the value is a string,
/// otherwise `None`.
pub assume_specification<'a>[ serde_json::Value::as_str ](value: &'a serde_json::Value) -> (text:
    Option<&'a str>)
    ensures
        match text {
            Some(s) => json_tree(*value) == JsonTree::Text(s@),
            None => !(json_tree(*value) is Text),
        },
;

} // verus!
