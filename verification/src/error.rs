use vstd::prelude::*;

verus! {

/// Every failure this library or its transport layer reports.
///
/// `MalformedUrl` is the only error produced while building a request URL:
/// a path holds a character that cannot stand in a URL path. The remaining
/// variants are produced at the transport edge and carried through the same
/// type: an HTTP status in the 4xx/5xx range, a connection-level failure, and
/// a response body that does not match the expected shape.
#[derive(Debug, PartialEq, Eq)]
pub enum ApiError {
    /// The request path cannot be joined into a valid URL.
    MalformedUrl,
    /// The server answered with the carried 4xx or 5xx status code.
    HttpStatus(u16),
    /// The connection itself failed (DNS, IO, protocol).
    Transport,
    /// The response body did not match the expected shape; the payload
    /// describes the offending field or text.
    Deserialization(String),
}

/// Classify an HTTP status code as the transport layer must: every code in
/// the 4xx or 5xx range is an `HttpStatus` error carrying that code, and
/// every other code passes.
pub fn classify_status(code: u16) -> (r: Option<ApiError>)
    ensures
        r == (if 400 <= code < 600 {
            Some(ApiError::HttpStatus(code))
        } else {
            None::<ApiError>
        }),
{
    if 400 <= code && code < 600 {
        Some(ApiError::HttpStatus(code))
    } else {
        None
    }
}

impl ApiError {
    /// A short fixed description of the error's kind.
    pub fn kind_str(&self) -> (r: &'static str)
        ensures
            (*self is MalformedUrl) ==> r@ == "malformed url"@,
            (*self is HttpStatus) ==> r@ == "http status error"@,
            (*self is Transport) ==> r@ == "transport error"@,
            (*self is Deserialization) ==> r@ == "deserialization error"@,
    {
        match self {
            ApiError::MalformedUrl => "malformed url",
            ApiError::HttpStatus(_) => "http status error",
            ApiError::Transport => "transport error",
            ApiError::Deserialization(_) => "deserialization error",
        }
    }
}

} // verus!
