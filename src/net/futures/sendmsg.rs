//! Datagram send from several buffers, optionally to an explicit address.

use std::task::Waker;

use vstd::prelude::*;

use crate::io_uring::completion::{
    Completion, CompletionEntry, CompletionStatus, Opcode, Submission,
};
use crate::io_uring::engine::UringDriver;
use crate::io_uring::operation::Operation;
use crate::net::addr::{encode, encoded_len, sockaddr_bytes, SocketAddr};
use crate::net::types::{deep, describes, io_vectors, msghdr};
use crate::ptr::{buffer_address, buffer_address_mut};
use crate::sync::{OneShot, OneShotState};
use crate::uring::error::{errno_of, Error};

verus! {

/// What a message send from `bufs` that returned `res` yields: the count sent and the
/// buffers back, or the kernel's error.
pub open spec fn sendmsg_outcome(res: i32, bufs: Vec<Vec<u8>>) -> Result<
    (usize, Vec<Vec<u8>>),
    Error,
> {
    if res < 0 {
        Err(Error::IO(errno_of(res)))
    } else {
        Ok((res as usize, bufs))
    }
}

/// Decodes a message send, as `sendmsg_outcome` says.
pub fn sendmsg_result(res: i32, bufs: Vec<Vec<u8>>) -> (r: Result<(usize, Vec<Vec<u8>>), Error>)
    ensures
        r == sendmsg_outcome(res, bufs),
{
    if res < 0 {
        Err(Error::from_result(res))
    } else {
        Ok((res as usize, bufs))
    }
}

/// The encoded destination: none on a connected socket.
pub open spec fn name_of(to: Option<SocketAddr>) -> Seq<u8> {
    match to {
        Some(a) => sockaddr_bytes(a),
        None => Seq::empty(),
    }
}

/// A message send, owning its buffers, the encoded destination (empty on a connected
/// socket) and the descriptors the kernel reads. Their addresses are taken once, by `new`.
pub struct SendMsgCompletion {
    fd: i32,
    addr: Vec<u8>,
    bufs: Vec<Vec<u8>>,
    iovecs: Vec<u64>,
    hdr: Vec<u64>,
    hdr_addr: u64,
    result: OneShot<Result<(usize, Vec<Vec<u8>>), Error>>,
}

impl SendMsgCompletion {
    /// The socket sent on.
    pub closed spec fn fd(&self) -> i32 {
        self.fd
    }

    /// The buffers' contents, sent one after another.
    pub closed spec fn bufs(&self) -> Seq<Seq<u8>> {
        deep(self.bufs@)
    }

    /// The buffers, as handed back after the send.
    pub closed spec fn buffers(&self) -> Vec<Vec<u8>> {
        self.bufs
    }

    /// The encoded destination.
    pub closed spec fn name(&self) -> Seq<u8> {
        self.addr@
    }

    /// The I/O vector describing the buffers.
    pub closed spec fn iovecs(&self) -> Seq<u64> {
        self.iovecs@
    }

    /// The message header.
    pub closed spec fn hdr(&self) -> Seq<u64> {
        self.hdr@
    }

    /// The value handed to the waiting task, once the completion was resolved.
    pub closed spec fn delivered(&self) -> Option<Result<(usize, Vec<Vec<u8>>), Error>> {
        self.result.offered()
    }

    /// A message send on `fd` gathering from `bufs`, to `to` when given, delivering into
    /// `result`. The header names the encoded destination with its length (no name and
    /// length zero without one) and the I/O vector with one entry per buffer, in order.
    pub fn new(
        fd: i32,
        bufs: Vec<Vec<u8>>,
        to: Option<SocketAddr>,
        result: OneShot<Result<(usize, Vec<Vec<u8>>), Error>>,
    ) -> (op: Self)
        requires
            bufs@.len() <= usize::MAX / 2,
        ensures
            op.fd() == fd,
            op.bufs() == deep(bufs@),
            op.name() == name_of(to),
            describes(op.iovecs(), deep(bufs@)),
            op.hdr().len() == 7,
            op.hdr()[1] == name_of(to).len(),
            to is None ==> op.hdr()[0] == 0,
            op.hdr()[3] == bufs@.len(),
            op.hdr()[4] == 0 && op.hdr()[5] == 0,
            op.delivered() == result.offered(),
    {
        let (addr, name, name_len) = match to {
            Some(a) => {
                let encoded = encode(&a);
                let name = buffer_address(&encoded);
                (encoded, name, encoded_len(&a))
            },
            None => {
                let none: Vec<u8> = Vec::new();
                assert(none@ =~= name_of(to));
                (none, 0u64, 0u32)
            },
        };
        let (bufs, mut iovecs) = io_vectors(bufs);
        let iov = buffer_address_mut(&mut iovecs);
        let count = bufs.len();
        let mut hdr = msghdr(name, name_len, iov, count);
        let hdr_addr = buffer_address_mut(&mut hdr);
        SendMsgCompletion { fd, addr, bufs, iovecs, hdr, hdr_addr, result }
    }

    /// The submission: send the message described by the header.
    pub closed spec fn entry_spec(&self) -> Submission {
        Submission {
            opcode: Opcode::SendMsg,
            fd: self.fd,
            addr: self.hdr_addr,
            len: 0,
            addr2: 0,
            user_data: 0,
            skip_success: false,
        }
    }

    pub fn entry(&self) -> (s: Submission)
        ensures
            s == self.entry_spec(),
            s.opcode == Opcode::SendMsg && s.fd == self.fd(),
    {
        Submission::new(Opcode::SendMsg, self.fd, self.hdr_addr, 0)
    }

    /// Hands the decoded send, with the buffers, to the waiting task; a message send is
    /// single-shot.
    pub fn resolve_entry(&mut self, value: CompletionEntry) -> (r: CompletionStatus)
        ensures
            r == CompletionStatus::Finalized,
            final(self).entry_spec() == old(self).entry_spec(),
            final(self).delivered() == Some(sendmsg_outcome(value.result, old(self).buffers())),
    {
        let mut bufs: Vec<Vec<u8>> = Vec::new();
        std::mem::swap(&mut bufs, &mut self.bufs);
        let _ = self.result.complete(sendmsg_result(value.result, bufs));
        CompletionStatus::Finalized
    }
}

impl Completion for SendMsgCompletion {
    fn resolve(&mut self, value: CompletionEntry) -> (r: CompletionStatus)
        ensures
            r == CompletionStatus::Finalized,
            final(self).entry_spec() == old(self).entry_spec(),
            final(self).delivered() == Some(sendmsg_outcome(value.result, old(self).buffers())),
    {
        self.resolve_entry(value)
    }

    fn as_entry(&mut self) -> (s: Submission)
        ensures
            s == old(self).entry_spec(),
            *final(self) == *old(self),
    {
        self.entry()
    }
}

/// A message send from several buffers, awaited through a one-shot channel.
pub struct SendMsg {
    id: usize,
    ticket: u64,
    result: OneShot<Result<(usize, Vec<Vec<u8>>), Error>>,
}

impl SendMsg {
    /// The slot the operation is registered under.
    pub closed spec fn slot(&self) -> usize {
        self.id
    }

    /// The ticket the operation was registered with.
    pub closed spec fn ticket(&self) -> u64 {
        self.ticket
    }

    /// Registers a message send on `fd` gathering from `bufs`, to `to` when given.
    pub fn new(driver: &mut UringDriver, fd: i32, bufs: Vec<Vec<u8>>, to: Option<SocketAddr>) -> (r: SendMsg)
        requires
            old(driver).wf(),
            bufs@.len() <= usize::MAX / 2,
        ensures
            final(driver).wf(),
            old(driver).drained() ==> final(driver).drained(),
            old(driver).registered(final(driver).ops()[r.slot()], *final(driver), r.slot()),
            r.ticket() == old(driver).next_ticket(),
            final(driver).holds(r.slot(), r.ticket()),
            final(driver).ops()[r.slot()] matches Operation::SendMsg(op) && op.fd() == fd && op.bufs() == deep(bufs@) && op.name() == name_of(to) && describes(op.iovecs(), deep(bufs@)) && op.hdr().len() == 7 && op.hdr()[1] == name_of(to).len() && (to is None ==> op.hdr()[0] == 0) && op.hdr()[3] == bufs@.len() && op.delivered() is None,
    {
        let result = OneShot::new();
        let op = SendMsgCompletion::new(fd, bufs, to, result.share());
        let (id, ticket) = driver.register_ticketed(Operation::SendMsg(op));
        SendMsg { id, ticket, result }
    }

    /// The slot the operation is registered under.
    pub fn id(&self) -> (r: usize)
        ensures
            r == self.slot(),
    {
        self.id
    }

    /// The result channel as this handle's last call found it, and as it left it.
    pub closed spec fn last_step(&self) -> Option<(OneShotState<Result<(usize, Vec<Vec<u8>>), Error>>, OneShotState<Result<(usize, Vec<Vec<u8>>), Error>>)> {
        self.result.last_step()
    }

    /// Makes `waker` the one woken when the result arrives. A result already delivered
    /// stays for `poll`.
    pub fn set_waker(&mut self, waker: Waker)
        ensures
            final(self).slot() == old(self).slot(),
            final(self).ticket() == old(self).ticket(),
            final(self).last_step() matches Some((before, after)) && after.result == before.result
                && after.completed == before.completed && after.waker == Some(waker),
    {
        self.result.set_waker(waker);
    }

    /// Replaces the waker, then takes the result if it has arrived: the result is the value
    /// the channel held, and the channel holds none afterwards.
    pub fn poll(&mut self, waker: Waker) -> (r: Option<Result<(usize, Vec<Vec<u8>>), Error>>)
        ensures
            final(self).slot() == old(self).slot(),
            final(self).ticket() == old(self).ticket(),
            final(self).last_step() matches Some((before, after)) && r == before.result && after
                == before.taken(),
    {
        self.set_waker(waker);
        self.result.take()
    }

    /// Gives the operation up. While the slot still holds this operation it is freed and
    /// one cancel targeting it is enqueued; a slot already freed, or holding a newer
    /// operation, is left alone.
    pub fn cancel(&self, driver: &mut UringDriver)
        requires
            old(driver).wf(),
        ensures
            final(driver).wf(),
            old(driver).drained() ==> final(driver).drained(),
            old(driver).holds(self.slot(), self.ticket()) ==> old(driver).deregistered(
                self.slot(),
                *final(driver),
            ),
            !old(driver).holds(self.slot(), self.ticket()) ==> old(driver).unchanged(
                *final(driver),
            ),
    {
        driver.deregister_if(self.id, self.ticket);
    }
}

} // verus!
