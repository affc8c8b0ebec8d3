//! Single-shot accept on a listening socket.

use std::task::Waker;

use vstd::prelude::*;

use crate::io_uring::completion::{
    Completion, CompletionEntry, CompletionStatus, Opcode, Submission,
};
use crate::io_uring::engine::UringDriver;
use crate::io_uring::operation::Operation;
use crate::net::addr::{decode, sockaddr_of, storage, SocketAddr, SOCKADDR_IN6_LEN};
use crate::ptr::{buffer_address_mut, written_back};
use crate::sync::{OneShot, OneShotState};
use crate::uring::error::{errno_of, Error};

verus! {

/// What an accept that returned `res` yields: the new connection's descriptor, or the
/// kernel's error.
pub open spec fn accept_outcome(res: i32) -> Result<i32, Error> {
    if res < 0 {
        Err(Error::IO(errno_of(res)))
    } else {
        Ok(res)
    }
}

/// Decodes an accept, as `accept_outcome` says.
pub fn accept_result(res: i32) -> (r: Result<i32, Error>)
    ensures
        r == accept_outcome(res),
{
    if res < 0 {
        Err(Error::from_result(res))
    } else {
        Ok(res)
    }
}

/// What an accept that returned `res`, with the peer's address written as `name`, yields:
/// the new connection's descriptor with the peer's address when it is one this runtime
/// understands, or the kernel's error.
pub open spec fn accept_peer_outcome(res: i32, name: Seq<u8>) -> Result<
    (i32, Option<SocketAddr>),
    Error,
> {
    if res < 0 {
        Err(Error::IO(errno_of(res)))
    } else {
        Ok((res, sockaddr_of(name)))
    }
}

/// Decodes an accept with the peer's address, as `accept_peer_outcome` says.
pub fn accept_peer_result(res: i32, name: &Vec<u8>) -> (r: Result<(i32, Option<SocketAddr>), Error>)
    ensures
        r == accept_peer_outcome(res, name@),
{
    if res < 0 {
        Err(Error::from_result(res))
    } else {
        Ok((res, decode(name)))
    }
}

/// An accept of one connection. It owns the storage the kernel writes the peer's address
/// into, and the length the kernel reads and writes back; their addresses are taken once,
/// by `new`.
pub struct AcceptCompletion {
    fd: i32,
    name: Vec<u8>,
    name_len: Vec<u32>,
    name_addr: u64,
    len_addr: u64,
    conn: OneShot<Result<(i32, Option<SocketAddr>), Error>>,
}

impl AcceptCompletion {
    /// The listening socket.
    pub closed spec fn fd(&self) -> i32 {
        self.fd
    }

    /// The storage for the peer's address.
    pub closed spec fn name(&self) -> Seq<u8> {
        self.name@
    }

    /// The length cell the kernel reads and writes back.
    pub closed spec fn name_len(&self) -> Seq<u32> {
        self.name_len@
    }

    /// The value handed to the waiting task, once the completion was resolved.
    pub closed spec fn delivered(&self) -> Option<Result<(i32, Option<SocketAddr>), Error>> {
        self.conn.offered()
    }

    /// An accept on listener `fd`, delivering into `result`.
    pub fn new(fd: i32, result: OneShot<Result<(i32, Option<SocketAddr>), Error>>) -> (op:
        AcceptCompletion)
        ensures
            op.fd() == fd,
            op.name().len() == SOCKADDR_IN6_LEN,
            op.name_len() == seq![SOCKADDR_IN6_LEN as u32],
            op.delivered() == result.offered(),
    {
        let mut name = storage();
        let name_addr = buffer_address_mut(&mut name);
        let mut name_len: Vec<u32> = Vec::new();
        name_len.push(SOCKADDR_IN6_LEN as u32);
        assert(name_len@ =~= seq![SOCKADDR_IN6_LEN as u32]);
        let len_addr = buffer_address_mut(&mut name_len);
        AcceptCompletion { fd, name, name_len, name_addr, len_addr, conn: result }
    }

    /// The submission: accept on `fd`, writing the peer's address to the storage.
    pub closed spec fn entry_spec(&self) -> Submission {
        Submission {
            opcode: Opcode::Accept,
            fd: self.fd,
            addr: self.name_addr,
            len: 0,
            addr2: self.len_addr,
            user_data: 0,
            skip_success: false,
        }
    }

    pub fn entry(&self) -> (s: Submission)
        ensures
            s == self.entry_spec(),
            s.opcode == Opcode::Accept && s.fd == self.fd(),
    {
        Submission::new(Opcode::Accept, self.fd, self.name_addr, 0).with_addr2(self.len_addr)
    }

    /// Reads the peer's address back as the kernel left it and hands the decoded accept to
    /// the waiting task; an accept is single-shot.
    pub fn resolve_entry(&mut self, value: CompletionEntry) -> (r: CompletionStatus)
        ensures
            r == CompletionStatus::Finalized,
            final(self).entry_spec() == old(self).entry_spec(),
            final(self).delivered() matches Some(out) && exists|nm: Seq<u8>|
                nm.len() == old(self).name().len() && out == #[trigger] accept_peer_outcome(
                    value.result,
                    nm,
                ),
    {
        let mut name: Vec<u8> = Vec::new();
        std::mem::swap(&mut name, &mut self.name);
        let peer = written_back(name);
        let out = accept_peer_result(value.result, &peer);
        assert(out == accept_peer_outcome(value.result, peer@));
        let _ = self.conn.complete(out);
        CompletionStatus::Finalized
    }
}

impl Completion for AcceptCompletion {
    fn resolve(&mut self, value: CompletionEntry) -> (r: CompletionStatus)
        ensures
            r == CompletionStatus::Finalized,
            final(self).entry_spec() == old(self).entry_spec(),
            final(self).delivered() matches Some(out) && exists|nm: Seq<u8>|
                nm.len() == old(self).name().len() && out == #[trigger] accept_peer_outcome(
                    value.result,
                    nm,
                ),
    {
        self.resolve_entry(value)
    }

    fn as_entry(&mut self) -> (s: Submission)
        ensures
            s == old(self).entry_spec(),
            *final(self) == *old(self),
    {
        self.entry()
    }
}

/// An accept of one connection, awaited through a one-shot channel.
pub struct Accept {
    id: usize,
    ticket: u64,
    result: OneShot<Result<(i32, Option<SocketAddr>), Error>>,
}

impl Accept {
    /// The slot the operation is registered under.
    pub closed spec fn slot(&self) -> usize {
        self.id
    }

    /// The ticket the operation was registered with.
    pub closed spec fn ticket(&self) -> u64 {
        self.ticket
    }

    /// Registers an accept on listener `fd`.
    pub fn new(driver: &mut UringDriver, fd: i32) -> (r: Accept)
        requires
            old(driver).wf(),
        ensures
            final(driver).wf(),
            old(driver).drained() ==> final(driver).drained(),
            old(driver).registered(final(driver).ops()[r.slot()], *final(driver), r.slot()),
            r.ticket() == old(driver).next_ticket(),
            final(driver).holds(r.slot(), r.ticket()),
            final(driver).ops()[r.slot()] matches Operation::Accept(op) && op.fd() == fd && op.delivered() is None,
    {
        let result = OneShot::new();
        let op = AcceptCompletion::new(fd, result.share());
        let (id, ticket) = driver.register_ticketed(Operation::Accept(op));
        Accept { id, ticket, result }
    }

    /// The slot the operation is registered under.
    pub fn id(&self) -> (r: usize)
        ensures
            r == self.slot(),
    {
        self.id
    }

    /// The result channel as this handle's last call found it, and as it left it.
    pub closed spec fn last_step(&self) -> Option<(OneShotState<Result<(i32, Option<SocketAddr>), Error>>, OneShotState<Result<(i32, Option<SocketAddr>), Error>>)> {
        self.result.last_step()
    }

    /// Makes `waker` the one woken when the result arrives. A result already delivered
    /// stays for `poll`.
    pub fn set_waker(&mut self, waker: Waker)
        ensures
            final(self).slot() == old(self).slot(),
            final(self).ticket() == old(self).ticket(),
            final(self).last_step() matches Some((before, after)) && after.result == before.result
                && after.completed == before.completed && after.waker == Some(waker),
    {
        self.result.set_waker(waker);
    }

    /// Replaces the waker, then takes the result if it has arrived: the result is the value
    /// the channel held, and the channel holds none afterwards.
    pub fn poll(&mut self, waker: Waker) -> (r: Option<Result<(i32, Option<SocketAddr>), Error>>)
        ensures
            final(self).slot() == old(self).slot(),
            final(self).ticket() == old(self).ticket(),
            final(self).last_step() matches Some((before, after)) && r == before.result && after
                == before.taken(),
    {
        self.set_waker(waker);
        self.result.take()
    }

    /// Gives the operation up. While the slot still holds this operation it is freed and
    /// one cancel targeting it is enqueued; a slot already freed, or holding a newer
    /// operation, is left alone.
    pub fn cancel(&self, driver: &mut UringDriver)
        requires
            old(driver).wf(),
        ensures
            final(driver).wf(),
            old(driver).drained() ==> final(driver).drained(),
            old(driver).holds(self.slot(), self.ticket()) ==> old(driver).deregistered(
                self.slot(),
                *final(driver),
            ),
            !old(driver).holds(self.slot(), self.ticket()) ==> old(driver).unchanged(
                *final(driver),
            ),
    {
        driver.deregister_if(self.id, self.ticket);
    }
}

} // verus!
