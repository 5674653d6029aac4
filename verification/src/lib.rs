//! SSDP presence relay for a remote DLNA media server.
//!
//! The library holds the protocol logic: the wire-accurate SSDP packet
//! codec, the discovery-request parser and responder decision, the
//! RFC 2822 date formatter used in search responses, the broadcast
//! scheduler's state machine, and the configuration-derived values.
//! Socket, HTTP and timer plumbing live outside the library and hand
//! it plain values.

pub mod config;
pub mod date;
pub mod digits;
pub mod endpoint;
pub mod error;
pub mod layout;
pub mod listener;
pub mod packet;
pub mod relay;
pub mod scheduler;

pub use config::cache_max_age;
