//! Rendezvous service for NAT traversal: a listing directory, the session
//! registry behind it, and the decisions of the UDP hole-punching protocol.
//!
//! All times are readings of one monotonic clock in milliseconds; the caller
//! takes the reading and hands it in.

use vstd::prelude::*;

pub mod addr;
pub mod client;
pub mod godot_client;
pub mod id;
pub mod proto;
pub mod server;

verus! {

/// The bound on every RPC call, on the wait for the first message of a
/// stream, on the wait for a punch report and on a whole punch.
pub const TIMEOUT: u64 = 10_000;

} // verus!
