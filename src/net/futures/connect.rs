//! Connecting a socket to a remote address.

use std::task::Waker;

use vstd::prelude::*;

use crate::io_uring::completion::{
    Completion, CompletionEntry, CompletionStatus, Opcode, Submission,
};
use crate::io_uring::engine::UringDriver;
use crate::io_uring::operation::Operation;
use crate::net::addr::{encode, encoded_len, sockaddr_bytes, SocketAddr};
use crate::ptr::buffer_address;
use crate::sync::{OneShot, OneShotState};
use crate::uring::error::{errno_of, Error};

verus! {

/// What a connect that returned `res` yields: success, or the kernel's error.
pub open spec fn connect_outcome(res: i32) -> Result<(), Error> {
    if res < 0 {
        Err(Error::IO(errno_of(res)))
    } else {
        Ok(())
    }
}

/// Decodes a connect, as `connect_outcome` says.
pub fn connect_result(res: i32) -> (r: Result<(), Error>)
    ensures
        r == connect_outcome(res),
{
    if res < 0 {
        Err(Error::from_result(res))
    } else {
        Ok(())
    }
}

/// A connect, owning the encoded remote address the kernel reads; its address is taken
/// once, by `new`.
pub struct ConnectCompletion {
    fd: i32,
    addr: Vec<u8>,
    addr_addr: u64,
    addr_len: u32,
    result: OneShot<Result<(), Error>>,
}

impl ConnectCompletion {
    /// The socket being connected.
    pub closed spec fn fd(&self) -> i32 {
        self.fd
    }

    /// The encoded remote address.
    pub closed spec fn addr(&self) -> Seq<u8> {
        self.addr@
    }

    /// The length submitted with the address.
    pub closed spec fn addr_len(&self) -> u32 {
        self.addr_len
    }

    /// The value handed to the waiting task, once the completion was resolved.
    pub closed spec fn delivered(&self) -> Option<Result<(), Error>> {
        self.result.offered()
    }

    /// A connect of `fd` to `remote`, delivering into `result`.
    pub fn new(fd: i32, remote: &SocketAddr, result: OneShot<Result<(), Error>>) -> (op: Self)
        ensures
            op.fd() == fd,
            op.addr() == sockaddr_bytes(*remote),
            op.addr_len() == sockaddr_bytes(*remote).len(),
            op.delivered() == result.offered(),
    {
        let addr = encode(remote);
        let addr_addr = buffer_address(&addr);
        let addr_len = encoded_len(remote);
        ConnectCompletion { fd, addr, addr_addr, addr_len, result }
    }

    /// The submission: connect `fd` to the encoded address.
    pub closed spec fn entry_spec(&self) -> Submission {
        Submission {
            opcode: Opcode::Connect,
            fd: self.fd,
            addr: self.addr_addr,
            len: self.addr_len,
            addr2: 0,
            user_data: 0,
            skip_success: false,
        }
    }

    pub fn entry(&self) -> (s: Submission)
        ensures
            s == self.entry_spec(),
            s.opcode == Opcode::Connect && s.fd == self.fd() && s.len == self.addr_len(),
    {
        Submission::new(Opcode::Connect, self.fd, self.addr_addr, self.addr_len)
    }

    /// Hands the decoded connect to the waiting task; a connect is single-shot.
    pub fn resolve_entry(&mut self, value: CompletionEntry) -> (r: CompletionStatus)
        ensures
            r == CompletionStatus::Finalized,
            final(self).entry_spec() == old(self).entry_spec(),
            final(self).delivered() == Some(connect_outcome(value.result)),
    {
        let _ = self.result.complete(connect_result(value.result));
        CompletionStatus::Finalized
    }
}

impl Completion for ConnectCompletion {
    fn resolve(&mut self, value: CompletionEntry) -> (r: CompletionStatus)
        ensures
            r == CompletionStatus::Finalized,
            final(self).entry_spec() == old(self).entry_spec(),
            final(self).delivered() == Some(connect_outcome(value.result)),
    {
        self.resolve_entry(value)
    }

    fn as_entry(&mut self) -> (s: Submission)
        ensures
            s == old(self).entry_spec(),
            *final(self) == *old(self),
    {
        self.entry()
    }
}

/// A connect, awaited through a one-shot channel.
pub struct Connect {
    id: usize,
    ticket: u64,
    result: OneShot<Result<(), Error>>,
}

impl Connect {
    /// The slot the operation is registered under.
    pub closed spec fn slot(&self) -> usize {
        self.id
    }

    /// The ticket the operation was registered with.
    pub closed spec fn ticket(&self) -> u64 {
        self.ticket
    }

    /// Registers a connect of `fd` to `remote`.
    pub fn new(driver: &mut UringDriver, fd: i32, remote: &SocketAddr) -> (r: Connect)
        requires
            old(driver).wf(),
        ensures
            final(driver).wf(),
            old(driver).drained() ==> final(driver).drained(),
            old(driver).registered(final(driver).ops()[r.slot()], *final(driver), r.slot()),
            r.ticket() == old(driver).next_ticket(),
            final(driver).holds(r.slot(), r.ticket()),
            final(driver).ops()[r.slot()] matches Operation::Connect(op) && op.fd() == fd && op.addr() == sockaddr_bytes(*remote) && op.addr_len() == sockaddr_bytes(*remote).len() && op.delivered() is None,
    {
        let result = OneShot::new();
        let op = ConnectCompletion::new(fd, remote, result.share());
        let (id, ticket) = driver.register_ticketed(Operation::Connect(op));
        Connect { id, ticket, result }
    }

    /// The slot the operation is registered under.
    pub fn id(&self) -> (r: usize)
        ensures
            r == self.slot(),
    {
        self.id
    }

    /// The result channel as this handle's last call found it, and as it left it.
    pub closed spec fn last_step(&self) -> Option<(OneShotState<Result<(), Error>>, OneShotState<Result<(), Error>>)> {
        self.result.last_step()
    }

    /// Makes `waker` the one woken when the result arrives. A result already delivered
    /// stays for `poll`.
    pub fn set_waker(&mut self, waker: Waker)
        ensures
            final(self).slot() == old(self).slot(),
            final(self).ticket() == old(self).ticket(),
            final(self).last_step() matches Some((before, after)) && after.result == before.result
                && after.completed == before.completed && after.waker == Some(waker),
    {
        self.result.set_waker(waker);
    }

    /// Replaces the waker, then takes the result if it has arrived: the result is the value
    /// the channel held, and the channel holds none afterwards.
    pub fn poll(&mut self, waker: Waker) -> (r: Option<Result<(), Error>>)
        ensures
            final(self).slot() == old(self).slot(),
            final(self).ticket() == old(self).ticket(),
            final(self).last_step() matches Some((before, after)) && r == before.result && after
                == before.taken(),
    {
        self.set_waker(waker);
        self.result.take()
    }

    /// Gives the operation up. While the slot still holds this operation it is freed and
    /// one cancel targeting it is enqueued; a slot already freed, or holding a newer
    /// operation, is left alone.
    pub fn cancel(&self, driver: &mut UringDriver)
        requires
            old(driver).wf(),
        ensures
            final(driver).wf(),
            old(driver).drained() ==> final(driver).drained(),
            old(driver).holds(self.slot(), self.ticket()) ==> old(driver).deregistered(
                self.slot(),
                *final(driver),
            ),
            !old(driver).holds(self.slot(), self.ticket()) ==> old(driver).unchanged(
                *final(driver),
            ),
    {
        driver.deregister_if(self.id, self.ticket);
    }
}

} // verus!
