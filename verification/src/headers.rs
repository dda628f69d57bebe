//! What the library reads from the header map of a response.
//!
//! The map and its values belong to the HTTP types that the transport hands
//! over. Nothing in this file is proved: each contract states what the
//! documentation of the underlying method gives.

use reqwest::header::{HeaderMap, HeaderValue};
use vstd::prelude::*;

verus! {

#[verifier::external_type_specification]
#[verifier::external_body]
#[verifier::reject_recursive_types(T)]
pub struct ExHeaderMap<T>(HeaderMap<T>);

#[verifier::external_type_specification]
#[verifier::external_body]
pub struct ExHeaderValue(HeaderValue);

/// What `HeaderMap::get` finds in `headers` under `name`: the first value
/// stored under that name, or nothing where there is none.
pub uninterp spec fn header_value(headers: HeaderMap, name: Seq<char>) -> Option<HeaderValue>;

/// What `HeaderValue::to_str` makes of `value`: its bytes as text where all
/// of them are visible ASCII, and nothing otherwise.
pub uninterp spec fn header_text(value: HeaderValue) -> Option<Seq<char>>;

/// The text found under `name`, if a value is stored there and is text.
pub open spec fn text_under(headers: HeaderMap, name: Seq<char>) -> Option<Seq<char>> {
    match header_value(headers, name) {
        Some(value) => header_text(value),
        None => None,
    }
}

/// Calls `HeaderMap::get` with a string key. The result is the value that
/// `header_value` names; the map is not changed.
#[verifier::external_body]
pub(crate) fn first_value<'a>(headers: &'a HeaderMap, name: &str) -> (found: Option<
    &'a HeaderValue,
>)
    ensures
        found == match header_value(*headers, name@) {
            Some(value) => Some(&value),
            None => None,
        },
{
    headers.get(name)
}

/// Calls `HeaderValue::to_str` and drops the error. The result is the text
/// that `header_text` names.
#[verifier::external_body]
pub(crate) fn value_text<'a>(value: &'a HeaderValue) -> (text: Option<&'a str>)
    ensures
        match text {
            Some(t) => header_text(*value) == Some(t@),
            None => header_text(*value) is None,
        },
{
    value.to_str().ok()
}

/// Reads the text stored under `name`.
pub fn text_of<'a>(headers: &'a HeaderMap, name: &str) -> (text: Option<&'a str>)
    ensures
        match text {
            Some(t) => text_under(*headers, name@) == Some(t@),
            None => text_under(*headers, name@) is None,
        },
{
    match first_value(headers, name) {
        Some(value) => value_text(value),
        None => None,
    }
}

} // verus!
