//! Reading JSON documents through `simd_json`.

use vstd::prelude::*;

verus! {

/// `simd_json::OwnedValue`, a JSON document. What it holds is read through the functions below.
#[verifier::external_type_specification]
#[verifier::external_body]
pub struct ExJsonValue(simd_json::OwnedValue);

/// `simd_json::Error`, carried as it comes.
#[verifier::external_type_specification]
#[verifier::external_body]
pub struct ExJsonError(simd_json::Error);

/// What parsing a text as JSON gives: the document, or the parser's error.
pub uninterp spec fn json_parse(text: Seq<char>) -> Result<simd_json::OwnedValue, simd_json::Error>;

/// The member `key` of a JSON object; `None` where the value is no object or has no such member.
pub uninterp spec fn json_member(value: simd_json::OwnedValue, key: Seq<char>) -> Option<
    simd_json::OwnedValue,
>;

/// The elements of a JSON array; `None` where the value is no array.
pub uninterp spec fn json_array(value: simd_json::OwnedValue) -> Option<Seq<simd_json::OwnedValue>>;

/// The text of a JSON string; `None` for any other value.
pub uninterp spec fn json_string(value: simd_json::OwnedValue) -> Option<Seq<char>>;

/// The number held by a JSON value, where it is an integer from 0 to 2^64 - 1; `None` for any
/// other value.
pub uninterp spec fn json_u64(value: simd_json::OwnedValue) -> Option<u64>;

/// Calls `simd_json::to_owned_value` on the bytes of `text`. The parser's error comes back where
/// the text is not JSON.
#[verifier::external_body]
pub(crate) fn parse(text: String) -> (parsed: Result<simd_json::OwnedValue, simd_json::Error>)
    ensures
        parsed == json_parse(text@),
{
    let mut bytes = text.into_bytes();
    simd_json::to_owned_value(&mut bytes)
}

/// Calls `get` of `simd_json`'s object access with a string key.
#[verifier::external_body]
pub(crate) fn member<'a>(value: &'a simd_json::OwnedValue, key: &str) -> (found: Option<
    &'a simd_json::OwnedValue,
>)
    ensures
        match found {
            Some(inner) => json_member(*value, key@) == Some(*inner),
            None => json_member(*value, key@) is None,
        },
{
    simd_json::prelude::ValueObjectAccess::get(value, key)
}

/// Calls `as_array` of `simd_json`'s array access.
#[verifier::external_body]
pub(crate) fn array(value: &simd_json::OwnedValue) -> (elements: Option<&Vec<simd_json::OwnedValue>>)
    ensures
        match elements {
            Some(list) => json_array(*value) == Some(list@),
            None => json_array(*value) is None,
        },
{
    simd_json::prelude::ValueAsArray::as_array(value)
}

/// Calls `as_str` of `simd_json`'s scalar access and copies the text.
#[verifier::external_body]
pub(crate) fn string(value: &simd_json::OwnedValue) -> (text: Option<String>)
    ensures
        match text {
            Some(s) => json_string(*value) == Some(s@),
            None => json_string(*value) is None,
        },
{
    simd_json::prelude::ValueAsScalar::as_str(value).map(str::to_owned)
}

/// Calls `as_u64` of `simd_json`'s scalar access.
#[verifier::external_body]
pub(crate) fn unsigned(value: &simd_json::OwnedValue) -> (number: Option<u64>)
    ensures
        number == json_u64(*value),
{
    simd_json::prelude::ValueAsScalar::as_u64(value)
}

/// Whether a JSON value is a number, whole or not.
pub uninterp spec fn json_is_number(value: simd_json::OwnedValue) -> bool;

/// Calls `is_number` of `simd_json`'s scalar type tests.
#[verifier::external_body]
pub(crate) fn is_number(value: &simd_json::OwnedValue) -> (number: bool)
    ensures
        number == json_is_number(*value),
{
    simd_json::prelude::TypedScalarValue::is_number(value)
}

/// A copy of a JSON value is the same value.
pub assume_specification[ <simd_json::OwnedValue as Clone>::clone ](
    value: &simd_json::OwnedValue,
) -> (copy: simd_json::OwnedValue)
    ensures
        copy == *value,
;

/// The text of the member `key`, where there is such a member and it is a string.
pub open spec fn spec_member_string(value: simd_json::OwnedValue, key: Seq<char>) -> Option<
    Seq<char>,
> {
    match json_member(value, key) {
        Some(inner) => json_string(inner),
        None => None,
    }
}

/// The number of the member `key`, where there is such a member and it is an unsigned integer.
pub open spec fn spec_member_u64(value: simd_json::OwnedValue, key: Seq<char>) -> Option<u64> {
    match json_member(value, key) {
        Some(inner) => json_u64(inner),
        None => None,
    }
}

/// The text of the member `key`, where there is such a member and it is a string.
pub fn member_string(value: &simd_json::OwnedValue, key: &str) -> (text: Option<String>)
    ensures
        match text {
            Some(s) => spec_member_string(*value, key@) == Some(s@),
            None => spec_member_string(*value, key@) is None,
        },
{
    match member(value, key) {
        Some(inner) => string(inner),
        None => None,
    }
}

/// The number of the member `key`, where there is such a member and it is an unsigned integer.
pub fn member_u64(value: &simd_json::OwnedValue, key: &str) -> (number: Option<u64>)
    ensures
        number == spec_member_u64(*value, key@),
{
    match member(value, key) {
        Some(inner) => unsigned(inner),
        None => None,
    }
}

} // verus!
