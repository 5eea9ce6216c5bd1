//! Transport-level errors.
use vstd::prelude::*;
use vstd::string::*;

verus! {

/// A transport-level error: a message, the HTTP response body where one
/// came back, and the text of the underlying error where there was one.
#[derive(Debug, Clone)]
pub struct TransportError {
    pub message: String,
    pub body: Option<Vec<u8>>,
    pub source: Option<String>,
}

impl TransportError {
    pub fn new(message: &str) -> (r: Self)
        ensures
            r.message@ == message@,
            r.body is None,
            r.source is None,
    {
        TransportError { message: String::from_str(message), body: None, source: None }
    }

    /// An error caused by another one, whose text is kept as the source.
    pub fn with_source(message: &str, source: &str) -> (r: Self)
        ensures
            r.message@ == message@,
            r.body is None,
            r.source matches Some(s) && s@ == source@,
    {
        TransportError { message: String::from_str(message), body: None, source: Some(String::from_str(source)) }
    }

    /// An error that carries the HTTP response body.
    pub fn with_body(message: &str, body: Vec<u8>) -> (r: Self)
        ensures
            r.message@ == message@,
            r.body == Some(body),
            r.source is None,
    {
        TransportError { message: String::from_str(message), body: Some(body), source: None }
    }
}

} // verus!
