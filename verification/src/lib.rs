//! A single-consumer, multiple-producer inter-process message queue:
//! named channels that any number of senders may write discrete byte
//! messages into and one receiver drains in arrival order.
//!
//! The heart of the crate is the receive side: turning a platform
//! facility that answers "is a message ready, and how large" into a
//! uniform `Option<Vec<u8>>` result, and bridging that non-blocking
//! poll into a cooperative single-shot suspension.

use vstd::prelude::*;

pub mod bridge;
pub mod channel;
pub mod error;
pub mod mac;
pub mod text;
pub mod windows;

pub use channel::Channel;
pub use error::Error;

verus! {

/// Hard per-message ceiling, in bytes, on the platform whose transport
/// bounds network messages. Messages longer than this are rejected
/// before any write is attempted.
pub const MESSAGE_SIZE_CEILING: usize = 424;

/// How long, in milliseconds, one bounded receive attempt may wait
/// before reporting "no message". A latency/busy-wait trade-off, not
/// load-bearing for correctness.
pub const POLL_TIMEOUT_MS: u32 = 100;

} // verus!
