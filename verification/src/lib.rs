//! A minimal client for a container engine's administrative REST API,
//! spoken over a Unix domain socket in hand-rolled HTTP/1.1.
//!
//! The library holds the protocol logic: choosing the control socket
//! endpoint, rendering a typed request as wire text, framing and parsing
//! the raw response, and decoding its body into a success payload or a
//! structured engine error. The surrounding binary owns the actual I/O
//! (connecting, writing, reading) and hands this library plain bytes.

pub mod cryopod;
pub mod podman;
