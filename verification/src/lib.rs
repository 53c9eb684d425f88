//! A minimal in-memory character-device model: a fixed-capacity shared
//! buffer with a cursor counting the valid bytes it holds, exposed through
//! byte-stream write/read semantics, plus a gated variant in which a reader
//! waits on a completion signal raised by each write.
//!
//! The library holds the device state machines themselves; the surrounding
//! kernel plumbing (device registration, user-space byte transport, thread
//! blocking) lives outside and hands plain byte values in and out.

use vstd::prelude::*;

pub mod device;
pub mod errors;
pub mod gate;
pub mod gated;

verus! {

/// Capacity of the shared buffer in bytes, fixed for the life of a device.
pub const BUFFER_CAPACITY: usize = 4096;

} // verus!
