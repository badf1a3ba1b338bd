//! Core of a latency-measurement tool for IP datagram networks: a client
//! emits timestamped datagrams at scheduled absolute times, a server
//! receives them and optionally echoes each one back.  This crate holds the
//! verified logic: the wire codec, the generator plans, the sender and
//! server state machines, and the record handling.  The surrounding
//! processes do the socket, clock and thread work and feed plain values in.
use vstd::prelude::*;

pub mod client;
pub mod codec;
pub mod generator;
pub mod options;
pub mod process;
pub mod record;
pub mod sender;
pub mod server;
pub mod time;

verus! {

/// Bit 0 of the flags byte: the sender requests that the server echo the
/// packet back.
pub const ECHO_FLAG: u8 = 1;

/// Minimum wire length of a packet: a 4-byte sequence number, an 8-byte
/// seconds field, an 8-byte nanoseconds field and one flags byte.
pub const MIN_SIZE: usize = 21;

} // verus!
