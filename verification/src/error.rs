//! The failures that the library reports.

use vstd::prelude::*;
use vstd::string::*;

verus! {

/// A response body that does not have the expected shape.
#[derive(Debug)]
pub struct DeserializeError {
    msg: String,
}

impl View for DeserializeError {
    type V = Seq<char>;

    /// The message of the error.
    closed spec fn view(&self) -> Seq<char> {
        self.msg@
    }
}

impl DeserializeError {
    /// An error with the message `m`.
    pub fn new(m: &str) -> (error: DeserializeError)
        ensures
            error@ == m@,
    {
        DeserializeError { msg: String::from_str(m) }
    }

    /// The message of the error.
    pub fn message(&self) -> (text: &str)
        ensures
            text@ == self@,
    {
        self.msg.as_str()
    }

    /// The message of the error, as an owned string.
    pub fn to_string(&self) -> (text: String)
        ensures
            text@ == self@,
    {
        self.msg.clone()
    }
}

/// Why a request could not be built, or its response not be used.
#[derive(Debug)]
pub enum ClientError {
    /// The path or the parameters do not make a URL.
    MalformedUrl,
    /// The body lacks the member under which the payload was expected.
    MissingKey(DeserializeError),
}

} // verus!
