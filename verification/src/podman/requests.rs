//! Concrete request contracts for the endpoints the tool needs.

use vstd::prelude::*;

use crate::podman::request::{PodmanRequest, RestMethod};
use vstd::string::StringExecFns;

verus! {

/// Request asking whether the given image is present in the engine's
/// store. The parameter is the image reference (for instance a digest).
pub struct ImageExists(pub &'static str);

/// Marker payload of a successful "image exists" check: the success
/// status is itself the answer, and no body fields are read.
pub struct ImageExistsResponse();

impl PodmanRequest for ImageExists {
    type Response = ImageExistsResponse;

    open spec fn spec_method() -> RestMethod {
        RestMethod::Get
    }

    open spec fn spec_path(&self) -> Seq<char> {
        "/images/"@ + self.0@ + "/exists"@
    }

    open spec fn spec_success_of(body: Seq<u8>) -> Option<ImageExistsResponse> {
        Some(ImageExistsResponse())
    }

    fn request_method() -> (m: RestMethod) {
        RestMethod::Get
    }

    fn get_request(&self) -> (p: String) {
        let mut p = String::from_str("/images/");
        p.append(self.0);
        p.append("/exists");
        proof {
            assert(p@ =~= "/images/"@ + self.0@ + "/exists"@);
        }
        p
    }

    fn decode_success(body: &[u8]) -> (r: Option<ImageExistsResponse>) {
        Some(ImageExistsResponse())
    }
}

} // verus!
