//! The failures that the client can report.

use vstd::prelude::*;

verus! {

/// `reqwest::header::InvalidHeaderValue`, the error of a text that cannot be
/// a header value. It is carried, never inspected.
#[verifier::external_type_specification]
#[verifier::external_body]
pub struct ExInvalidHeaderValue(reqwest::header::InvalidHeaderValue);

/// `reqwest::Error`, the error of the HTTP transport. It is carried, never
/// inspected.
#[verifier::external_type_specification]
#[verifier::external_body]
pub struct ExTransportError(reqwest::Error);

/// Why building a client or performing a request failed.
#[derive(Debug)]
pub enum CanvasError {
    /// The access token cannot be written into an `Authorization` header.
    CreatingHeader { header: reqwest::header::InvalidHeaderValue },
    /// The HTTP transport failed: while it was being set up, while a request
    /// was under way, or while the response was decoded.
    Reqwest(reqwest::Error),
}

impl From<reqwest::Error> for CanvasError {
    fn from(e: reqwest::Error) -> (r: CanvasError) {
        CanvasError::Reqwest(e)
    }
}

impl vstd::std_specs::convert::FromSpecImpl<reqwest::Error> for CanvasError {
    open spec fn obeys_from_spec() -> bool {
        true
    }

    open spec fn from_spec(e: reqwest::Error) -> CanvasError {
        CanvasError::Reqwest(e)
    }
}

} // verus!
