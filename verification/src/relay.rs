//! The optional TCP relay. When a proxy bind address is configured,
//! each accepted client connection is paired one-to-one with a fresh
//! connection to the upstream server's original address, and raw bytes
//! are copied both ways until either side closes or errors; a failed
//! upstream connection drops only that pair. All of that is socket and
//! thread work done outside the library around this marker.

use vstd::prelude::*;

verus! {

/// The relay itself; it holds no state of its own.
pub struct TCPProxy;

} // verus!
