//! JSON documents, read through `serde_json`.
//!
//! A parsed document is kept as a `serde_json::Value`.  The gateway only
//! ever looks at the string and the unsigned integer members of a top-level
//! object, so those two maps are all that the contracts speak of.

use vstd::prelude::*;

verus! {

#[verifier::external_type_specification]
#[verifier::external_body]
pub struct ExJsonValue(serde_json::Value);

/// The members of a JSON object whose value is a string, by member name.
/// Empty for a value that is not an object.
pub uninterp spec fn json_strings(value: serde_json::Value) -> Map<Seq<char>, Seq<char>>;

/// The members of a JSON object whose value is an integer in the range of
/// `u64`, by member name.  Empty for a value that is not an object.
pub uninterp spec fn json_numbers(value: serde_json::Value) -> Map<Seq<char>, u64>;

/// What the gateway reads of a JSON object: its string members and its
/// unsigned integer members.
pub struct JsonMembers {
    pub strings: Map<Seq<char>, Seq<char>>,
    pub numbers: Map<Seq<char>, u64>,
}

/// The members of a parsed value.
pub open spec fn json_members(value: serde_json::Value) -> JsonMembers {
    JsonMembers { strings: json_strings(value), numbers: json_numbers(value) }
}

/// The string members of the object that a byte string spells in JSON, or
/// `None` where the bytes are not one JSON value.
pub uninterp spec fn document_strings(document: Seq<u8>) -> Option<Map<Seq<char>, Seq<char>>>;

/// `serde_json::from_slice::<Value>`: parses one JSON value out of the
/// whole byte string.  Trusted: the result is a function of the bytes, and
/// a parsed value holds the string members that the text spells.
#[verifier::external_body]
pub(crate) fn parse_document(document: &[u8]) -> (r: Option<serde_json::Value>)
    ensures
        match r {
            Some(value) => document_strings(document@) == Some(json_strings(value)),
            None => document_strings(document@) is None,
        },
{
    serde_json::from_slice::<serde_json::Value>(document).ok()
}

/// `Value::get` with a member name, then `Value::as_str`.  Trusted: the
/// member is returned exactly when the value is an object that has a member
/// of that name whose value is a JSON string.
#[verifier::external_body]
pub(crate) fn string_member(value: &serde_json::Value, name: &str) -> (r: Option<String>)
    ensures
        match r {
            Some(text) => json_strings(*value).contains_key(name@) && json_strings(*value)[name@]
                == text@,
            None => !json_strings(*value).contains_key(name@),
        },
{
    value.get(name).and_then(|member| member.as_str()).map(|text| text.to_string())
}

/// `Value::get` with a member name, then `Value::as_u64`.  Trusted: the
/// number is returned exactly when the value is an object that has a member
/// of that name whose value is a non-negative integer that fits in `u64`.
#[verifier::external_body]
pub(crate) fn number_member(value: &serde_json::Value, name: &str) -> (r: Option<u64>)
    ensures
        match r {
            Some(number) => json_numbers(*value).contains_key(name@) && json_numbers(*value)[name@]
                == number,
            None => !json_numbers(*value).contains_key(name@),
        },
{
    value.get(name).and_then(|member| member.as_u64())
}

} // verus!
