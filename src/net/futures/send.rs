//! Send on a connected stream.

use std::task::Waker;

use vstd::prelude::*;

use crate::io_uring::completion::{
    Completion, CompletionEntry, CompletionStatus, Opcode, Submission,
};
use crate::io_uring::engine::UringDriver;
use crate::io_uring::operation::Operation;
use crate::ptr::buffer_address;
use crate::sync::{OneShot, OneShotState};
use crate::uring::error::{errno_of, Error};

use super::recv::{window, window_of};

verus! {

/// What a stream send of `res` bytes from `buf` yields: the count sent and the buffer
/// back, peer-closed for zero, or the kernel's error.
pub open spec fn send_outcome(res: i32, buf: Vec<u8>) -> Result<(usize, Vec<u8>), Error> {
    if res < 0 {
        Err(Error::IO(errno_of(res)))
    } else if res == 0 {
        Err(Error::Disconnected)
    } else {
        Ok((res as usize, buf))
    }
}

/// Decodes a stream send, as `send_outcome` says.
pub fn send_result(res: i32, buf: Vec<u8>) -> (r: Result<(usize, Vec<u8>), Error>)
    ensures
        r == send_outcome(res, buf),
{
    if res < 0 {
        Err(Error::from_result(res))
    } else if res == 0 {
        Err(Error::Disconnected)
    } else {
        Ok((res as usize, buf))
    }
}

/// A send from an owned buffer, which is handed back with the count sent. The buffer's
/// address is taken once, by `new`.
pub struct SendCompletion {
    fd: i32,
    buf: Vec<u8>,
    buf_addr: u64,
    buf_len: u32,
    result: OneShot<Result<(usize, Vec<u8>), Error>>,
}

impl SendCompletion {
    /// The socket sent on.
    pub closed spec fn fd(&self) -> i32 {
        self.fd
    }

    /// The buffer the kernel reads from.
    pub closed spec fn buf(&self) -> Vec<u8> {
        self.buf
    }

    /// The number of bytes submitted.
    pub closed spec fn buf_len(&self) -> u32 {
        self.buf_len
    }

    /// The value handed to the waiting task, once the completion was resolved.
    pub closed spec fn delivered(&self) -> Option<Result<(usize, Vec<u8>), Error>> {
        self.result.offered()
    }

    /// A send of `buf` on `fd`, delivering into `result`.
    pub fn new(fd: i32, buf: Vec<u8>, result: OneShot<Result<(usize, Vec<u8>), Error>>) -> (op:
        Self)
        ensures
            op.fd() == fd,
            op.buf() == buf,
            op.buf_len() == window(buf@.len()),
            op.delivered() == result.offered(),
    {
        let buf_addr = buffer_address(&buf);
        let buf_len = window_of(buf.len());
        SendCompletion { fd, buf, buf_addr, buf_len, result }
    }

    /// The submission: send the buffer.
    pub closed spec fn entry_spec(&self) -> Submission {
        Submission {
            opcode: Opcode::Send,
            fd: self.fd,
            addr: self.buf_addr,
            len: self.buf_len,
            addr2: 0,
            user_data: 0,
            skip_success: false,
        }
    }

    pub fn entry(&self) -> (s: Submission)
        ensures
            s == self.entry_spec(),
            s.opcode == Opcode::Send && s.fd == self.fd() && s.len == self.buf_len(),
    {
        Submission::new(Opcode::Send, self.fd, self.buf_addr, self.buf_len)
    }

    /// Hands the decoded send to the waiting task; a send is single-shot.
    pub fn resolve_entry(&mut self, value: CompletionEntry) -> (r: CompletionStatus)
        ensures
            r == CompletionStatus::Finalized,
            final(self).entry_spec() == old(self).entry_spec(),
            final(self).delivered() == Some(send_outcome(value.result, old(self).buf())),
    {
        let mut buf: Vec<u8> = Vec::new();
        std::mem::swap(&mut buf, &mut self.buf);
        let out = send_result(value.result, buf);
        let _ = self.result.complete(out);
        CompletionStatus::Finalized
    }
}

impl Completion for SendCompletion {
    fn resolve(&mut self, value: CompletionEntry) -> (r: CompletionStatus)
        ensures
            r == CompletionStatus::Finalized,
            final(self).entry_spec() == old(self).entry_spec(),
            final(self).delivered() == Some(send_outcome(value.result, old(self).buf())),
    {
        self.resolve_entry(value)
    }

    fn as_entry(&mut self) -> (s: Submission)
        ensures
            s == old(self).entry_spec(),
            *final(self) == *old(self),
    {
        self.entry()
    }
}

/// A send on a connected stream, awaited through a one-shot channel.
pub struct Send {
    id: usize,
    ticket: u64,
    result: OneShot<Result<(usize, Vec<u8>), Error>>,
}

impl Send {
    /// The slot the operation is registered under.
    pub closed spec fn slot(&self) -> usize {
        self.id
    }

    /// The ticket the operation was registered with.
    pub closed spec fn ticket(&self) -> u64 {
        self.ticket
    }

    /// Registers a send of `buf` on `fd`.
    pub fn new(driver: &mut UringDriver, fd: i32, buf: Vec<u8>) -> (r: Send)
        requires
            old(driver).wf(),
        ensures
            final(driver).wf(),
            old(driver).drained() ==> final(driver).drained(),
            old(driver).registered(final(driver).ops()[r.slot()], *final(driver), r.slot()),
            r.ticket() == old(driver).next_ticket(),
            final(driver).holds(r.slot(), r.ticket()),
            final(driver).ops()[r.slot()] matches Operation::Send(op) && op.fd() == fd && op.buf()@ == buf@ && op.buf_len() == window(buf@.len()) && op.delivered() is None,
    {
        let result = OneShot::new();
        let op = SendCompletion::new(fd, buf, result.share());
        let (id, ticket) = driver.register_ticketed(Operation::Send(op));
        Send { id, ticket, result }
    }

    /// The slot the operation is registered under.
    pub fn id(&self) -> (r: usize)
        ensures
            r == self.slot(),
    {
        self.id
    }

    /// The result channel as this handle's last call found it, and as it left it.
    pub closed spec fn last_step(&self) -> Option<(OneShotState<Result<(usize, Vec<u8>), Error>>, OneShotState<Result<(usize, Vec<u8>), Error>>)> {
        self.result.last_step()
    }

    /// Makes `waker` the one woken when the result arrives. A result already delivered
    /// stays for `poll`.
    pub fn set_waker(&mut self, waker: Waker)
        ensures
            final(self).slot() == old(self).slot(),
            final(self).ticket() == old(self).ticket(),
            final(self).last_step() matches Some((before, after)) && after.result == before.result
                && after.completed == before.completed && after.waker == Some(waker),
    {
        self.result.set_waker(waker);
    }

    /// Replaces the waker, then takes the result if it has arrived: the result is the value
    /// the channel held, and the channel holds none afterwards.
    pub fn poll(&mut self, waker: Waker) -> (r: Option<Result<(usize, Vec<u8>), Error>>)
        ensures
            final(self).slot() == old(self).slot(),
            final(self).ticket() == old(self).ticket(),
            final(self).last_step() matches Some((before, after)) && r == before.result && after
                == before.taken(),
    {
        self.set_waker(waker);
        self.result.take()
    }

    /// Gives the operation up. While the slot still holds this operation it is freed and
    /// one cancel targeting it is enqueued; a slot already freed, or holding a newer
    /// operation, is left alone.
    pub fn cancel(&self, driver: &mut UringDriver)
        requires
            old(driver).wf(),
        ensures
            final(driver).wf(),
            old(driver).drained() ==> final(driver).drained(),
            old(driver).holds(self.slot(), self.ticket()) ==> old(driver).deregistered(
                self.slot(),
                *final(driver),
            ),
            !old(driver).holds(self.slot(), self.ticket()) ==> old(driver).unchanged(
                *final(driver),
            ),
    {
        driver.deregister_if(self.id, self.ticket);
    }
}

} // verus!
