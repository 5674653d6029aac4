//! Errors of the discovery-request parser. Malformed datagrams are
//! reported to the caller, logged there, and discarded; they are never
//! fatal to the listening loop.

use vstd::prelude::*;

verus! {

/// Why an inbound datagram was rejected.
#[derive(Clone, Copy, Debug, PartialEq, Eq, Structural)]
pub enum Error {
    /// The datagram's request line carries no method token.
    NoSSDPMethod,
    /// The datagram is not shaped like an SSDP request at all.
    MalformedPacket,
}

impl Error {
    /// A human-readable description of the rejection.
    pub fn message(&self) -> (r: &'static str)
        ensures
            *self == Error::NoSSDPMethod ==> r@ == "No SSDP method found while parsing packet."@,
            *self == Error::MalformedPacket ==> r@ == "Failed to parse packet as SSDP."@,
    {
        match self {
            Error::NoSSDPMethod => "No SSDP method found while parsing packet.",
            Error::MalformedPacket => "Failed to parse packet as SSDP.",
        }
    }
}

} // verus!
