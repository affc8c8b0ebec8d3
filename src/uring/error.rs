//! The errors an I/O operation hands back to the task that awaits it.

use vstd::prelude::*;

verus! {

/// Why an I/O operation failed.
#[derive(Debug, Clone, Copy, PartialEq, Eq, Structural)]
pub enum Error {
    /// The kernel reported an error; the value is the (positive) errno.
    IO(i32),
    /// The peer closed the connection: a stream receive or send moved zero bytes.
    Disconnected,
    /// The kernel handed back a socket address of a family other than IPv4 or IPv6.
    InvalidAddress,
}

/// The errno carried by a negative completion result. Kernel results never go below
/// -4095; the one value whose negation does not fit saturates.
pub open spec fn errno_of(res: i32) -> i32 {
    if res == i32::MIN {
        i32::MAX
    } else {
        (-res) as i32
    }
}

impl Error {
    /// The error that a negative completion result stands for.
    pub fn from_result(res: i32) -> (e: Error)
        requires
            res < 0,
        ensures
            e == Error::IO(errno_of(res)),
            errno_of(res) > 0,
    {
        if res == i32::MIN {
            Error::IO(i32::MAX)
        } else {
            Error::IO(-res)
        }
    }

    /// A short description of the error.
    pub fn message(&self) -> (s: &'static str) {
        match self {
            Error::IO(_) => "I/O operation failed",
            Error::Disconnected => "client disconnected unexpectedly",
            Error::InvalidAddress => "invalid socket address",
        }
    }
}

} // verus!
