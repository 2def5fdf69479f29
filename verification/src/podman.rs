//! The podman protocol client: request contracts, wire rendering,
//! response parsing, and the decision logic above one round-trip.

pub mod request;
pub mod requests;
pub mod socket;

use vstd::prelude::*;

use crate::podman::request::PodmanResponse;
use crate::podman::requests::ImageExistsResponse;
use crate::podman::socket::PodmanSockErr;

verus! {

/// The status code by which the engine says an image is not present.
pub const NOT_FOUND: u16 = 404;

/// Decides, from the envelope of one "image exists" round-trip, whether
/// the image is loaded: a success envelope means it is; the not-found
/// engine error means it is not (and a load may follow); any other
/// engine error propagates unchanged as the recoverable `ApiError`.
pub fn image_loaded(envelope: PodmanResponse<ImageExistsResponse>) -> (r: Result<
    bool,
    PodmanSockErr,
>)
    ensures
        envelope.response is Ok ==> r == Ok::<bool, PodmanSockErr>(true),
        (envelope.response is Err && envelope.status_code == NOT_FOUND) ==> r == Ok::<
            bool,
            PodmanSockErr,
        >(false),
        envelope.response matches Err(e) ==> (envelope.status_code != NOT_FOUND ==> (r matches Err(
            pe,
        ) && (pe matches PodmanSockErr::ApiError(x) && x.cause@ == e.cause@ && x.message@
            == e.message@ && x.response == e.response))),
{
    match envelope.response {
        Ok(_) => Ok(true),
        Err(e) => {
            if envelope.status_code == NOT_FOUND {
                Ok(false)
            } else {
                Err(PodmanSockErr::ApiError(e))
            }
        },
    }
}

} // verus!
