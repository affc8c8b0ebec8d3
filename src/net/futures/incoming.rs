//! Multi-shot accept: one submission that keeps delivering connections.

use std::task::Waker;

use vstd::prelude::*;

use crate::io_uring::completion::{
    Completion, CompletionEntry, CompletionStatus, Opcode, Submission,
};
use crate::io_uring::engine::UringDriver;
use crate::io_uring::operation::Operation;
use crate::sync::{channel, Receiver, Sender, TryRecvError};
use crate::uring::error::Error;

use super::accept::{accept_outcome, accept_result};

verus! {

/// What becomes of a multi-shot operation after a completion: finalized when its result
/// could not be handed on, armed while the kernel keeps it, otherwise submitted again.
pub open spec fn multishot_rule(delivered: bool, more: bool) -> CompletionStatus {
    if !delivered {
        CompletionStatus::Finalized
    } else if more {
        CompletionStatus::Armed
    } else {
        CompletionStatus::Rearm
    }
}

/// Decides the status of a multi-shot operation, as `multishot_rule` says.
pub fn multishot_status(delivered: bool, more: bool) -> (r: CompletionStatus)
    ensures
        r == multishot_rule(delivered, more),
        !delivered ==> r == CompletionStatus::Finalized,
        delivered && more ==> r == CompletionStatus::Armed,
        delivered && !more ==> r == CompletionStatus::Rearm,
{
    if !delivered {
        CompletionStatus::Finalized
    } else if more {
        CompletionStatus::Armed
    } else {
        CompletionStatus::Rearm
    }
}

/// A multi-shot accept feeding a stream of connections.
pub struct IncomingCompletion {
    fd: i32,
    result: Sender<Result<i32, Error>>,
}

impl IncomingCompletion {
    /// The listening socket.
    pub closed spec fn fd(&self) -> i32 {
        self.fd
    }

    /// The values pushed to the stream so far, oldest first.
    pub closed spec fn pushed(&self) -> Seq<Result<i32, Error>> {
        self.result.offered()
    }

    /// Whether the stream accepted the last value pushed to it: it refuses values once its
    /// reader is gone.
    pub closed spec fn accepted(&self) -> bool {
        self.result.accepted()
    }

    /// A multi-shot accept on listener `fd`, feeding `result`.
    pub fn new(fd: i32, result: Sender<Result<i32, Error>>) -> (op: IncomingCompletion)
        ensures
            op.fd() == fd,
            op.pushed() == result.offered(),
    {
        IncomingCompletion { fd, result }
    }

    /// The submission: a multi-shot accept on `fd`.
    pub closed spec fn entry_spec(&self) -> Submission {
        Submission {
            opcode: Opcode::AcceptMulti,
            fd: self.fd,
            addr: 0,
            len: 0,
            addr2: 0,
            user_data: 0,
            skip_success: false,
        }
    }

    pub fn entry(&self) -> (s: Submission)
        ensures
            s == self.entry_spec(),
            s.opcode == Opcode::AcceptMulti && s.fd == self.fd(),
    {
        Submission::new(Opcode::AcceptMulti, self.fd, 0, 0)
    }

    /// Pushes the decoded connection to the stream. Stays armed while the kernel says more
    /// will come, asks to be submitted again when it says not, and finishes once the stream's
    /// reader is gone.
    pub fn resolve_entry(&mut self, value: CompletionEntry) -> (r: CompletionStatus)
        ensures
            r == multishot_rule(final(self).accepted(), value.more()),
            r == CompletionStatus::Armed ==> value.more(),
            r == CompletionStatus::Rearm ==> !value.more(),
            final(self).pushed() == old(self).pushed().push(accept_outcome(value.result)),
            final(self).fd() == old(self).fd(),
            final(self).entry_spec() == old(self).entry_spec(),
    {
        let pushed = self.result.push(accept_result(value.result));
        let delivered = match pushed {
            Ok(()) => true,
            Err(_) => false,
        };
        multishot_status(delivered, value.more())
    }
}

impl Completion for IncomingCompletion {
    fn resolve(&mut self, value: CompletionEntry) -> (r: CompletionStatus)
        ensures
            r == multishot_rule(final(self).accepted(), value.more()),
            r == CompletionStatus::Armed ==> value.more(),
            r == CompletionStatus::Rearm ==> !value.more(),
            final(self).pushed() == old(self).pushed().push(accept_outcome(value.result)),
            final(self).fd() == old(self).fd(),
            final(self).entry_spec() == old(self).entry_spec(),
    {
        self.resolve_entry(value)
    }

    fn as_entry(&mut self) -> (s: Submission)
        ensures
            s == old(self).entry_spec(),
            *final(self) == *old(self),
    {
        self.entry()
    }
}

/// A stream of accepted connections fed by one multi-shot accept.
pub struct Incoming {
    id: usize,
    ticket: u64,
    stream: Receiver<Result<i32, Error>>,
}

impl Incoming {
    /// The slot the operation is registered under.
    pub closed spec fn slot(&self) -> usize {
        self.id
    }

    /// The ticket the operation was registered with.
    pub closed spec fn ticket(&self) -> u64 {
        self.ticket
    }

    /// Registers a multi-shot accept on listener `fd`.
    pub fn new(driver: &mut UringDriver, fd: i32) -> (r: Incoming)
        requires
            old(driver).wf(),
        ensures
            final(driver).wf(),
            old(driver).drained() ==> final(driver).drained(),
            old(driver).registered(final(driver).ops()[r.slot()], *final(driver), r.slot()),
            r.ticket() == old(driver).next_ticket(),
            final(driver).holds(r.slot(), r.ticket()),
            final(driver).ops()[r.slot()] matches Operation::Incoming(op) && op.fd() == fd
                && op.pushed() == Seq::<Result<i32, Error>>::empty(),
    {
        let (tx, rx) = channel();
        let op = IncomingCompletion::new(fd, tx);
        let (id, ticket) = driver.register_ticketed(Operation::Incoming(op));
        Incoming { id, ticket, stream: rx }
    }

    /// The slot the operation is registered under.
    pub fn id(&self) -> (r: usize)
        ensures
            r == self.slot(),
    {
        self.id
    }

    /// Makes `waker` the one woken when the next connection arrives.
    pub fn set_waker(&mut self, waker: Waker)
        ensures
            final(self).slot() == old(self).slot(),
            final(self).ticket() == old(self).ticket(),
    {
        self.stream.set_waker(waker);
    }

    /// Replaces the waker, then takes the next connection: `None` while none has arrived,
    /// `Some(None)` once the stream has ended, `Some(Some(c))` for a connection or error.
    pub fn poll_next(&mut self, waker: Waker) -> (r: Option<Option<Result<i32, Error>>>)
        ensures
            final(self).slot() == old(self).slot(),
            final(self).ticket() == old(self).ticket(),
    {
        self.set_waker(waker);
        match self.stream.try_recv() {
            Ok(v) => Some(Some(v)),
            Err(TryRecvError::Empty) => None,
            Err(TryRecvError::Disconnected) => Some(None),
        }
    }

    /// Ends the stream. While the slot still holds this accept it is freed and one cancel
    /// targeting it is enqueued; otherwise nothing changes.
    pub fn cancel(&self, driver: &mut UringDriver)
        requires
            old(driver).wf(),
        ensures
            final(driver).wf(),
            old(driver).drained() ==> final(driver).drained(),
            old(driver).holds(self.slot(), self.ticket()) ==> old(driver).deregistered(
                self.slot(),
                *final(driver),
            ),
            !old(driver).holds(self.slot(), self.ticket()) ==> old(driver).unchanged(
                *final(driver),
            ),
    {
        driver.deregister_if(self.id, self.ticket);
    }
}

} // verus!
