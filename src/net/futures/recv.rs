//! Receive on a connected stream.

use std::task::Waker;

use vstd::prelude::*;

use crate::io_uring::completion::{
    Completion, CompletionEntry, CompletionStatus, Opcode, Submission,
};
use crate::io_uring::engine::UringDriver;
use crate::io_uring::operation::Operation;
use crate::ptr::{buffer_address_mut, written_back};
use crate::sync::{OneShot, OneShotState};
use crate::uring::error::{errno_of, Error};

verus! {

/// The smaller of two integers.
pub open spec fn min_int(a: int, b: int) -> int {
    if a <= b {
        a
    } else {
        b
    }
}

/// What a stream receive of `res` bytes into `buf` yields: an error for a negative result,
/// peer-closed for zero, else the first `res` bytes of the buffer.
pub open spec fn recv_outcome(res: i32, buf: Seq<u8>) -> Result<Seq<u8>, Error> {
    if res < 0 {
        Err(Error::IO(errno_of(res)))
    } else if res == 0 {
        Err(Error::Disconnected)
    } else {
        Ok(buf.take(min_int(res as int, buf.len() as int)))
    }
}

/// Whether `r` is what a stream receive of `res` bytes into `buf` yields.
pub open spec fn recv_matches(res: i32, buf: Seq<u8>, r: Result<Vec<u8>, Error>) -> bool {
    match r {
        Ok(v) => recv_outcome(res, buf) == Ok::<Seq<u8>, Error>(v@),
        Err(e) => recv_outcome(res, buf) == Err::<Seq<u8>, Error>(e),
    }
}

/// What a stream receive that returned `res` into a buffer of `len` bytes hands on: the
/// kernel's error, peer-closed for zero, else the buffer the kernel wrote, cut to the
/// `res` bytes it reported (at most the buffer's length).
pub open spec fn recv_settles(res: i32, len: nat, r: Result<Vec<u8>, Error>) -> bool {
    if res < 0 {
        r == Err::<Vec<u8>, Error>(Error::IO(errno_of(res)))
    } else if res == 0 {
        r == Err::<Vec<u8>, Error>(Error::Disconnected)
    } else {
        r matches Ok(v) && v@.len() == min_int(res as int, len as int)
    }
}

/// Decodes a stream receive: the buffer cut to the bytes the kernel wrote, peer-closed for a
/// zero result, or the kernel's error.
pub fn recv_result(res: i32, buf: Vec<u8>) -> (r: Result<Vec<u8>, Error>)
    ensures
        recv_matches(res, buf@, r),
{
    if res < 0 {
        Err(Error::from_result(res))
    } else if res == 0 {
        Err(Error::Disconnected)
    } else {
        let ghost whole = buf@;
        let mut buf = buf;
        buf.truncate(res as usize);
        assert(buf@ =~= whole.take(min_int(res as int, whole.len() as int)));
        Ok(buf)
    }
}

/// The length the kernel may fill: the buffer's length, capped at what a submission holds.
pub open spec fn window(len: nat) -> u32 {
    if len <= u32::MAX {
        len as u32
    } else {
        u32::MAX
    }
}

pub(crate) fn window_of(len: usize) -> (r: u32)
    ensures
        r == window(len as nat),
{
    if len <= u32::MAX as usize {
        len as u32
    } else {
        u32::MAX
    }
}

/// A receive into an owned buffer. The whole length of the buffer is the receive window.
/// The buffer's address is taken once, by `new`, and the buffer is not resized while the
/// operation is in flight.
pub struct RecvCompletion {
    fd: i32,
    buf: Vec<u8>,
    buf_addr: u64,
    buf_len: u32,
    result: OneShot<Result<Vec<u8>, Error>>,
}

impl RecvCompletion {
    /// The socket received from.
    pub closed spec fn fd(&self) -> i32 {
        self.fd
    }

    /// The buffer the kernel writes into.
    pub closed spec fn buf(&self) -> Vec<u8> {
        self.buf
    }

    /// The receive window.
    pub closed spec fn buf_len(&self) -> u32 {
        self.buf_len
    }

    /// The value handed to the waiting task, once the completion was resolved.
    pub closed spec fn delivered(&self) -> Option<Result<Vec<u8>, Error>> {
        self.result.offered()
    }

    /// A receive on `fd` into `buf`, delivering into `result`.
    pub fn new(fd: i32, buf: Vec<u8>, result: OneShot<Result<Vec<u8>, Error>>) -> (op: Self)
        ensures
            op.fd() == fd,
            op.buf()@ == buf@,
            op.buf_len() == window(buf@.len()),
            op.delivered() == result.offered(),
    {
        let mut buf = buf;
        let buf_addr = buffer_address_mut(&mut buf);
        let buf_len = window_of(buf.len());
        RecvCompletion { fd, buf, buf_addr, buf_len, result }
    }

    /// The submission: receive up to the window into the buffer.
    pub closed spec fn entry_spec(&self) -> Submission {
        Submission {
            opcode: Opcode::Recv,
            fd: self.fd,
            addr: self.buf_addr,
            len: self.buf_len,
            addr2: 0,
            user_data: 0,
            skip_success: false,
        }
    }

    pub fn entry(&self) -> (s: Submission)
        ensures
            s == self.entry_spec(),
            s.opcode == Opcode::Recv && s.fd == self.fd() && s.len == self.buf_len(),
    {
        Submission::new(Opcode::Recv, self.fd, self.buf_addr, self.buf_len)
    }

    /// Reads the buffer back as the kernel left it and hands the decoded receive to the
    /// waiting task; a receive is single-shot.
    pub fn resolve_entry(&mut self, value: CompletionEntry) -> (r: CompletionStatus)
        ensures
            r == CompletionStatus::Finalized,
            final(self).entry_spec() == old(self).entry_spec(),
            final(self).delivered() matches Some(out) && recv_settles(
                value.result,
                old(self).buf()@.len(),
                out,
            ),
    {
        let mut buf: Vec<u8> = Vec::new();
        std::mem::swap(&mut buf, &mut self.buf);
        let received = written_back(buf);
        let out = recv_result(value.result, received);
        let _ = self.result.complete(out);
        CompletionStatus::Finalized
    }
}

impl Completion for RecvCompletion {
    fn resolve(&mut self, value: CompletionEntry) -> (r: CompletionStatus)
        ensures
            r == CompletionStatus::Finalized,
            final(self).entry_spec() == old(self).entry_spec(),
            final(self).delivered() matches Some(out) && recv_settles(
                value.result,
                old(self).buf()@.len(),
                out,
            ),
    {
        self.resolve_entry(value)
    }

    fn as_entry(&mut self) -> (s: Submission)
        ensures
            s == old(self).entry_spec(),
            *final(self) == *old(self),
    {
        self.entry()
    }
}

/// A receive on a connected stream, awaited through a one-shot channel.
pub struct Recv {
    id: usize,
    ticket: u64,
    result: OneShot<Result<Vec<u8>, Error>>,
}

impl Recv {
    /// The slot the operation is registered under.
    pub closed spec fn slot(&self) -> usize {
        self.id
    }

    /// The ticket the operation was registered with.
    pub closed spec fn ticket(&self) -> u64 {
        self.ticket
    }

    /// Registers a receive on `fd` into `buf`, whose whole length is the receive window.
    pub fn new(driver: &mut UringDriver, fd: i32, buf: Vec<u8>) -> (r: Recv)
        requires
            old(driver).wf(),
        ensures
            final(driver).wf(),
            old(driver).drained() ==> final(driver).drained(),
            old(driver).registered(final(driver).ops()[r.slot()], *final(driver), r.slot()),
            r.ticket() == old(driver).next_ticket(),
            final(driver).holds(r.slot(), r.ticket()),
            final(driver).ops()[r.slot()] matches Operation::Recv(op) && op.fd() == fd
                && op.buf()@ == buf@ && op.buf_len() == window(buf@.len()) && op.delivered() is None,
    {
        let result = OneShot::new();
        let op = RecvCompletion::new(fd, buf, result.share());
        let (id, ticket) = driver.register_ticketed(Operation::Recv(op));
        Recv { id, ticket, result }
    }

    /// The slot the operation is registered under.
    pub fn id(&self) -> (r: usize)
        ensures
            r == self.slot(),
    {
        self.id
    }

    /// The result channel as this handle's last call found it, and as it left it.
    pub closed spec fn last_step(&self) -> Option<(OneShotState<Result<Vec<u8>, Error>>, OneShotState<Result<Vec<u8>, Error>>)> {
        self.result.last_step()
    }

    /// Makes `waker` the one woken when the result arrives. A result already delivered
    /// stays for `poll`.
    pub fn set_waker(&mut self, waker: Waker)
        ensures
            final(self).slot() == old(self).slot(),
            final(self).ticket() == old(self).ticket(),
            final(self).last_step() matches Some((before, after)) && after.result == before.result
                && after.completed == before.completed && after.waker == Some(waker),
    {
        self.result.set_waker(waker);
    }

    /// Replaces the waker, then takes the result if it has arrived: the result is the value
    /// the channel held, and the channel holds none afterwards.
    pub fn poll(&mut self, waker: Waker) -> (r: Option<Result<Vec<u8>, Error>>)
        ensures
            final(self).slot() == old(self).slot(),
            final(self).ticket() == old(self).ticket(),
            final(self).last_step() matches Some((before, after)) && r == before.result && after
                == before.taken(),
    {
        self.set_waker(waker);
        self.result.take()
    }

    /// Gives the operation up. While the slot still holds this operation it is freed and
    /// one cancel targeting it is enqueued; a slot already freed, or holding a newer
    /// operation, is left alone.
    pub fn cancel(&self, driver: &mut UringDriver)
        requires
            old(driver).wf(),
        ensures
            final(driver).wf(),
            old(driver).drained() ==> final(driver).drained(),
            old(driver).holds(self.slot(), self.ticket()) ==> old(driver).deregistered(
                self.slot(),
                *final(driver),
            ),
            !old(driver).holds(self.slot(), self.ticket()) ==> old(driver).unchanged(
                *final(driver),
            ),
    {
        driver.deregister_if(self.id, self.ticket);
    }
}

} // verus!
