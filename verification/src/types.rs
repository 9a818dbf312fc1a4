//! Shared result types of the backend capability surface.

use vstd::prelude::*;

verus! {

/// Outcome of overlaying per-invocation flags onto a backend configuration.
/// A help request is not an error: it carries the text to print instead.
#[derive(Debug)]
pub enum ApplyOutcome {
    Applied,
    Help(String),
    Invalid(String),
}

/// Why a paste could not be turned into a URL once a response was in hand,
/// or could not even be prepared.
#[derive(Debug)]
pub enum PasteError {
    /// The remote answered with a non-success status code.
    BadStatus(u16),
    /// The remote accepted the request but signalled a logical failure.
    Rejected(String),
    /// The response could not be read as the protocol demands.
    BadResponse(String),
    /// A configured target could not be understood as a URL.
    BadTarget(String),
}

/// One fully shaped request, ready for a transport to carry out.
#[derive(Debug)]
pub enum PasteRequest {
    /// POST the body verbatim to the URL.
    RawBody { url: String, body: String },
    /// POST the fields as an urlencoded form.
    Form { url: String, fields: Vec<(String, String)> },
    /// POST the fields as a multipart form.
    Multipart { url: String, fields: Vec<(String, String)> },
    /// Connect to domain:port, write the payload, read until the peer closes.
    Tcp { domain: String, port: u16, payload: String },
}

/// What a transport hands back from one HTTP round trip.
pub struct HttpResponse {
    /// The status code of the final response.
    pub status: u16,
    /// The URL the final response came from, after any redirects.
    pub final_url: String,
    /// The response body, decoded as text.
    pub body: String,
}

/// A status code counts as success exactly when it lies in the 2xx range.
pub open spec fn spec_is_success(status: u16) -> bool {
    200 <= status < 300
}

pub fn is_success(status: u16) -> (r: bool)
    ensures
        r == spec_is_success(status),
{
    200 <= status && status < 300
}

} // verus!
