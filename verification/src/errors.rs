//! The error taxonomy of the device: every failure a device operation can
//! report to its caller.

use vstd::prelude::*;

verus! {

/// Why a device operation failed.
///
/// `CapacityExceeded` is the only error the in-memory state machines
/// themselves produce: a write that would overflow the fixed buffer is
/// rejected whole, with no partial effect. The other two arise at the
/// boundary around the library: `AllocationFailure` when a per-open session
/// object cannot be constructed, and `TransferFailure` when the byte
/// transport between the caller and the device fails mid-copy.
#[derive(Clone, Copy, Debug, PartialEq, Eq, Structural)]
pub enum DeviceError {
    /// The write would push the count of valid bytes past the buffer's
    /// capacity; nothing was written.
    CapacityExceeded,
    /// A per-open session object could not be allocated; the open fails.
    AllocationFailure,
    /// The byte transport failed while copying to or from the caller.
    TransferFailure,
}

} // verus!
