//! Result channels between the I/O driver and the tasks that wait on it.

use vstd::prelude::*;

pub mod multishot;
pub mod oneshot;

pub use multishot::{channel, Receiver, Sender, TryRecvError};
pub use oneshot::{OneShot, OneShotState};

verus! {

#[verifier::external_type_specification]
#[verifier::external_body]
pub struct ExWaker(std::task::Waker);

/// Relies on `std::task::Waker::wake`: it schedules the task that the waker belongs to.
#[verifier::external_body]
pub(crate) fn wake(waker: std::task::Waker) {
    waker.wake()
}

} // verus!
