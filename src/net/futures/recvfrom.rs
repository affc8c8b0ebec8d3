//! Datagram receive into one buffer, with the sender's address.

use std::task::Waker;

use vstd::prelude::*;

use crate::io_uring::engine::UringDriver;
use crate::io_uring::operation::Operation;
use crate::net::addr::{SocketAddr, SOCKADDR_IN6_LEN};
use crate::net::types::{deep, describes};
use crate::sync::{OneShot, OneShotState};
use crate::uring::error::Error;

use super::recvmsg::RecvMsgCompletion;

verus! {

/// The single buffer of a one-buffer message receive, with the sender's address.
pub fn single_buffer(r: Result<(Vec<Vec<u8>>, SocketAddr), Error>) -> (out: Result<
    (Vec<u8>, SocketAddr),
    Error,
>)
    ensures
        r matches Err(e) ==> out == Err::<(Vec<u8>, SocketAddr), Error>(e),
        r matches Ok((bufs, from)) ==> (out matches Ok((buf, from2)) && from2 == from && (
        bufs@.len() > 0 ==> buf == bufs@[0]) && (bufs@.len() == 0 ==> buf@.len() == 0)),
{
    match r {
        Err(e) => Err(e),
        Ok((bufs, from)) => {
            let mut bufs = bufs;
            if bufs.len() > 0 {
                let first = bufs.remove(0);
                Ok((first, from))
            } else {
                Ok((Vec::new(), from))
            }
        },
    }
}

/// A datagram receive into one buffer, awaited through a one-shot channel. It is a message
/// receive with a single buffer.
pub struct RecvFrom {
    id: usize,
    ticket: u64,
    result: OneShot<Result<(Vec<Vec<u8>>, SocketAddr), Error>>,
}

impl RecvFrom {
    /// The slot the operation is registered under.
    pub closed spec fn slot(&self) -> usize {
        self.id
    }

    /// The ticket the operation was registered with.
    pub closed spec fn ticket(&self) -> u64 {
        self.ticket
    }

    /// Registers a receive on `fd` into `buf`, whose whole length is the receive window.
    pub fn new(driver: &mut UringDriver, fd: i32, buf: Vec<u8>) -> (r: RecvFrom)
        requires
            old(driver).wf(),
        ensures
            final(driver).wf(),
            old(driver).drained() ==> final(driver).drained(),
            old(driver).registered(final(driver).ops()[r.slot()], *final(driver), r.slot()),
            r.ticket() == old(driver).next_ticket(),
            final(driver).holds(r.slot(), r.ticket()),
            final(driver).ops()[r.slot()] matches Operation::RecvMsg(op) && op.fd() == fd
                && op.bufs() == seq![buf@] && describes(op.iovecs(), seq![buf@]) && op.hdr().len()
                == 7 && op.hdr()[1] == SOCKADDR_IN6_LEN && op.hdr()[3] == 1
                && op.delivered() is None,
    {
        let result = OneShot::new();
        let ghost contents = buf@;
        let bufs = vec![buf];
        assert(deep(bufs@) =~= seq![contents]);
        let op = RecvMsgCompletion::new(fd, bufs, result.share());
        let (id, ticket) = driver.register_ticketed(Operation::RecvMsg(op));
        RecvFrom { id, ticket, result }
    }

    /// The slot the operation is registered under.
    pub fn id(&self) -> (r: usize)
        ensures
            r == self.slot(),
    {
        self.id
    }

    /// The result channel as this handle's last call found it, and as it left it.
    pub closed spec fn last_step(&self) -> Option<(OneShotState<Result<(Vec<Vec<u8>>, SocketAddr), Error>>, OneShotState<Result<(Vec<Vec<u8>>, SocketAddr), Error>>)> {
        self.result.last_step()
    }

    /// Makes `waker` the one woken when the result arrives. A result already delivered
    /// stays for `poll`.
    pub fn set_waker(&mut self, waker: Waker)
        ensures
            final(self).slot() == old(self).slot(),
            final(self).ticket() == old(self).ticket(),
            final(self).last_step() matches Some((before, after)) && after.result == before.result
                && after.completed == before.completed && after.waker == Some(waker),
    {
        self.result.set_waker(waker);
    }

    /// Replaces the waker, then takes the result if it has arrived: the bytes received and
    /// the sender's address, taken from what the channel held, which holds nothing
    /// afterwards.
    pub fn poll(&mut self, waker: Waker) -> (r: Option<Result<(Vec<u8>, SocketAddr), Error>>)
        ensures
            final(self).slot() == old(self).slot(),
            final(self).ticket() == old(self).ticket(),
            final(self).last_step() matches Some((before, after)) && after == before.taken() && (
            before.result is None <==> r is None) && (before.result matches Some(Err(e)) ==> r
                == Some(Err::<(Vec<u8>, SocketAddr), Error>(e))) && (before.result matches Some(
                Ok((bufs, from)),
            ) ==> (r matches Some(Ok((buf, from2))) && from2 == from && (bufs@.len() > 0 ==> buf
                == bufs@[0]))),
    {
        self.set_waker(waker);
        match self.result.take() {
            None => None,
            Some(r) => Some(single_buffer(r)),
        }
    }

    /// Gives the operation up. While the slot still holds this operation it is freed and
    /// one cancel targeting it is enqueued; a slot already freed, or holding a newer
    /// operation, is left alone.
    pub fn cancel(&self, driver: &mut UringDriver)
        requires
            old(driver).wf(),
        ensures
            final(driver).wf(),
            old(driver).drained() ==> final(driver).drained(),
            old(driver).holds(self.slot(), self.ticket()) ==> old(driver).deregistered(
                self.slot(),
                *final(driver),
            ),
            !old(driver).holds(self.slot(), self.ticket()) ==> old(driver).unchanged(
                *final(driver),
            ),
    {
        driver.deregister_if(self.id, self.ticket);
    }
}

} // verus!
