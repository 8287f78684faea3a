//! The decision core of a SOCKS5 forward proxy: the wire codec, the
//! destination choice under an access policy, the per-connection state
//! machine and the registry of live sessions.
//!
//! Nothing here touches a socket. A driver reads and writes bytes, resolves
//! names and opens connections; every decision about what to send and what to
//! do next is taken by the verified functions of this crate.

pub mod address;
pub mod connect;
pub mod greeting;
pub mod reply;
pub mod request;
pub mod stats;
pub mod wire;
pub mod worker;
