//! The shape of one REST request to the engine, and of the decoded
//! response envelope that one round-trip yields.

use vstd::prelude::*;

verus! {

/// The HTTP method of a request, restricted to the verbs the engine's
/// API uses.
#[derive(Clone, Copy, PartialEq, Eq, Structural, Debug)]
pub enum RestMethod {
    Post,
    Get,
    Del,
    Put,
}

impl RestMethod {
    /// The exact token this method puts on the wire.
    pub open spec fn spec_str(self) -> Seq<char> {
        match self {
            RestMethod::Post => "POST"@,
            RestMethod::Get => "GET"@,
            RestMethod::Del => "DEL"@,
            RestMethod::Put => "PUT"@,
        }
    }

    /// Renders the method as its wire token.
    pub fn as_str(&self) -> (r: &'static str)
        ensures
            r@ == self.spec_str(),
    {
        match self {
            RestMethod::Post => "POST",
            RestMethod::Get => "GET",
            RestMethod::Del => "DEL",
            RestMethod::Put => "PUT",
        }
    }
}

/// The engine's own error schema: every well-formed non-success response
/// body decodes into these three fields.
#[derive(Debug)]
pub struct ResponseError {
    pub cause: String,
    pub message: String,
    pub response: i64,
}

/// The decoded outcome of one round-trip: the numeric status code, and
/// either the success payload (status in [200, 300)) or the engine's
/// error payload (any other status) - never both.
pub struct PodmanResponse<T> {
    pub status_code: u16,
    pub response: Result<T, ResponseError>,
}

/// A request contract: one statically declared API endpoint, giving the
/// HTTP method, the request path, and how a success body decodes.
pub trait PodmanRequest {
    /// The payload a success body decodes into.
    type Response;

    /// The HTTP method this endpoint uses.
    spec fn spec_method() -> RestMethod;

    /// The request path, with any parameters already substituted.
    spec fn spec_path(&self) -> Seq<char>;

    /// What a success body decodes to: the payload, or nothing when the
    /// body does not match the endpoint's success schema.
    spec fn spec_success_of(body: Seq<u8>) -> Option<Self::Response>;

    /// The HTTP method this endpoint uses.
    fn request_method() -> (m: RestMethod)
        ensures
            m == Self::spec_method(),
    ;

    /// Produces the request path for this endpoint.
    fn get_request(&self) -> (p: String)
        ensures
            p@ == self.spec_path(),
    ;

    /// Decodes a success body into the endpoint's payload.
    fn decode_success(body: &[u8]) -> (r: Option<Self::Response>)
        ensures
            r == Self::spec_success_of(body@),
    ;
}

} // verus!
