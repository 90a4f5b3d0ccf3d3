//! A multi-interface mDNS reflector core.
//!
//! The library holds the verified logic of the reflector: the address and
//! CIDR model, the socket-configuration plans for each interface endpoint,
//! the filter policy applied to every received datagram, and the fan-out
//! decision that copies a datagram to every other endpoint of the same
//! address family. The surrounding binary performs the actual socket
//! system calls and the readiness loop, feeding plain values in and
//! carrying the decided actions out.

pub mod addr;
pub mod config;
pub mod dns;
pub mod interface;
pub mod reflector;
pub mod sockets;
