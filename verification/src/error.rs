//! The error taxonomy: configuration, transport, body reading, schema
//! mismatch, structured upstream rejections, and query-string decoding.

use vstd::prelude::*;

verus! {

/// The structured error body the server sends with a non-2xx status:
/// `{ "error": "<message>" }`.
#[derive(Clone, Debug, PartialEq, Eq)]
pub struct CongressError {
    pub error: String,
}

impl CongressError {
    /// The upstream message, for display.
    pub fn message(&self) -> (r: String)
        ensures
            r@ == self.error@,
    {
        self.error.clone()
    }
}

/// What went wrong decoding query parameters: which recognized field's
/// value is malformed, or that a pagination link carried no query string
/// to decode at all.
#[derive(Clone, Copy, Debug, PartialEq, Eq, Structural)]
pub enum DecodeError {
    Limit,
    Offset,
    FromDate,
    ToDate,
    Sort,
    MissingQuery,
}

#[derive(Clone, Debug, PartialEq, Eq)]
pub enum Error {
    /// Unable to build the underlying HTTP client
    ClientBuildError { message: String },
    /// The base URL is invalid
    InvalidBaseUrlError { message: String },
    /// The URL is invalid
    InvalidUrl { message: String },
    /// Error sending the HTTP request
    SendError { message: String },
    /// Error reading the HTTP response body
    ResponseError { message: String },
    /// The body is not valid JSON or does not match the expected schema;
    /// `path` points at the field where deserialization diverged
    JsonParseError { path: String, message: String },
    /// The server rejected the request and said why
    Congress { source: CongressError },
    /// A pagination URL carried no query string, or one that does not
    /// decode
    Parameter { source: DecodeError },
}

impl Error {
    /// A short fixed description of the error class, for display.
    pub fn describe(&self) -> (r: &'static str)
        ensures
            (self is ClientBuildError) == (r@ == "unable to build the underlying client"@),
            (self is InvalidBaseUrlError) == (r@ == "invalid base URL"@),
            (self is InvalidUrl) == (r@ == "invalid URL"@),
            (self is SendError) == (r@ == "error sending the HTTP request"@),
            (self is ResponseError) == (r@ == "error reading the HTTP response"@),
            (self is JsonParseError) == (r@ == "JSON error"@),
            (self is Congress) == (r@ == "congress API error"@),
            (self is Parameter) == (r@ == "query parameter error"@),
    {
        proof {
            lemma_description_lengths();
        }
        match self {
            Error::ClientBuildError { .. } => "unable to build the underlying client",
            Error::InvalidBaseUrlError { .. } => "invalid base URL",
            Error::InvalidUrl { .. } => "invalid URL",
            Error::SendError { .. } => "error sending the HTTP request",
            Error::ResponseError { .. } => "error reading the HTTP response",
            Error::JsonParseError { .. } => "JSON error",
            Error::Congress { .. } => "congress API error",
            Error::Parameter { .. } => "query parameter error",
        }
    }
}

/// The lengths tell the description literals apart.
proof fn lemma_description_lengths()
    ensures
        "unable to build the underlying client"@.len() == 37,
        "invalid base URL"@.len() == 16,
        "invalid URL"@.len() == 11,
        "error sending the HTTP request"@.len() == 30,
        "error reading the HTTP response"@.len() == 31,
        "JSON error"@.len() == 10,
        "congress API error"@.len() == 18,
        "query parameter error"@.len() == 21,
{
    reveal_strlit("unable to build the underlying client");
    reveal_strlit("invalid base URL");
    reveal_strlit("invalid URL");
    reveal_strlit("error sending the HTTP request");
    reveal_strlit("error reading the HTTP response");
    reveal_strlit("JSON error");
    reveal_strlit("congress API error");
    reveal_strlit("query parameter error");
}

} // verus!
