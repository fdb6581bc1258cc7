//! A bridge between a byte-oriented serial device and a UDP endpoint.
//!
//! Bytes read from the serial device are forwarded as UDP datagrams
//! (optionally fanned out to a configured secondary destination), and UDP
//! datagrams received on a bound socket are written byte-for-byte onto the
//! serial device.

pub mod config;
pub mod error;
pub mod logger;
pub mod relay;
pub mod serial;

use vstd::prelude::*;

verus! {

/// The fixed chunk size for one serial read in the serial-to-UDP direction.
pub const SERIAL_CHUNK_SIZE: usize = 400;

/// The fixed buffer size for one received datagram in the UDP-to-serial
/// direction.
pub const UDP_BUFFER_SIZE: usize = 4000;

} // verus!
