//! Where in a response body the payload stands.

use crate::error::{ClientError, DeserializeError};
use serde_json::Value;
use vstd::prelude::*;
use vstd::string::*;

verus! {

#[verifier::external_type_specification]
#[verifier::external_body]
pub struct ExValue(Value);

/// What `Value::get` finds in `body` for the string index `key`: the member
/// of that name where `body` is an object that has one, and nothing where
/// it has none or `body` is no object.
pub uninterp spec fn json_member(body: Value, key: Seq<char>) -> Option<Value>;

/// Calls `Value::get` with a string index. The result is the member that
/// `json_member` names; the body is not changed. Nothing of this is proved.
#[verifier::external_body]
pub(crate) fn member<'a>(body: &'a Value, key: &str) -> (found: Option<&'a Value>)
    ensures
        found == match json_member(*body, key@) {
            Some(value) => Some(&value),
            None => None,
        },
{
    body.get(key)
}

/// Calls `Value::clone`. Nothing of this is proved.
#[verifier::external_body]
pub(crate) fn copy_of(value: &Value) -> (copy: Value)
    ensures
        copy == *value,
{
    value.clone()
}

/// How the payload is found in the body of a response.
#[derive(Debug)]
pub enum Decode {
    /// The body is the payload.
    Direct,
    /// The body is an object, and the payload is its member of this name.
    Member(String),
}

/// What a `Decode` holds.
pub enum DecodeView {
    Direct,
    Member(Seq<char>),
}

impl View for Decode {
    type V = DecodeView;

    open spec fn view(&self) -> DecodeView {
        match self {
            Decode::Direct => DecodeView::Direct,
            Decode::Member(key) => DecodeView::Member(key@),
        }
    }
}

/// The message of the error for a body without the member `key`.
pub open spec fn missing_key_message(key: Seq<char>) -> Seq<char> {
    "JSON missing key '"@ + key + "'"@
}

/// The payload that `decode` finds in `body`, if it finds one.
pub open spec fn payload_of(decode: DecodeView, body: Value) -> Option<Value> {
    match decode {
        DecodeView::Direct => Some(body),
        DecodeView::Member(key) => json_member(body, key),
    }
}

impl Decode {
    /// Takes the payload out of the body of a response.
    ///
    /// A body that lacks the expected member is an error that names the
    /// member; it never yields an empty payload.
    pub fn select(&self, body: Value) -> (payload: Result<Value, ClientError>)
        ensures
            payload is Ok <==> payload_of(self@, body) is Some,
            match payload {
                Ok(value) => payload_of(self@, body) == Some(value),
                Err(ClientError::MissingKey(error)) => {
                    &&& self@ matches DecodeView::Member(key)
                    &&& json_member(body, key) is None
                    &&& error@ == missing_key_message(key)
                },
                Err(_) => false,
            },
    {
        match self {
            Decode::Direct => Ok(body),
            Decode::Member(key) => match member(&body, key.as_str()) {
                Some(value) => Ok(copy_of(value)),
                None => {
                    let mut message = String::from_str("JSON missing key '");
                    message.append(key.as_str());
                    message.append("'");
                    Err(ClientError::MissingKey(DeserializeError::new(message.as_str())))
                },
            },
        }
    }
}

} // verus!
