//! The top-level handle of the tool, behind which backends are driven.

use vstd::prelude::*;

use crate::podman::socket::PodmanSockErr;

verus! {

/// A project directory the tool operates on.
pub struct Project {
    /// The project's filesystem path, as plain text.
    pub path: String,
}

/// The tool's top-level handle.
pub struct Cryopod();

impl Cryopod {
    /// Builds the handle; construction itself cannot fail.
    pub fn new() -> (r: Result<Cryopod, PodmanSockErr>)
        ensures
            r is Ok,
    {
        Ok(Cryopod())
    }

    /// Enters development mode; the minimal design always succeeds.
    pub fn develop(&self) -> (r: Result<(), PodmanSockErr>)
        ensures
            r is Ok,
    {
        Ok(())
    }
}

} // verus!
