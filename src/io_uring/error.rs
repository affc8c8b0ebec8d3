//! Errors of the driver itself.

use vstd::prelude::*;

verus! {

/// The kernel's errno for a busy ring.
pub const EBUSY: i32 = 16;

/// The kernel's errno for a wait that timed out.
pub const ETIME: i32 = 62;

/// A failure of the driver that it cannot recover from.
#[derive(Debug, Clone, Copy, PartialEq, Eq, Structural)]
pub enum Error {
    /// Submitting to the ring failed with this errno.
    IO(i32),
}

/// Whether a failed submit with this errno leaves the ring usable.
pub open spec fn is_transient(errno: i32) -> bool {
    errno == EBUSY || errno == ETIME
}

} // verus!
