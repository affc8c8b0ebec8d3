//! Every kind of operation the driver keeps in flight.

use vstd::prelude::*;

use crate::net::futures::accept::{accept_outcome, accept_peer_outcome, AcceptCompletion};
use crate::net::futures::connect::{connect_outcome, ConnectCompletion};
use crate::net::futures::incoming::IncomingCompletion;
use crate::net::futures::recv::{recv_settles, RecvCompletion};
use crate::net::futures::recvmsg::{recvmsg_matches, same_shape, RecvMsgCompletion};
use crate::net::futures::send::{send_outcome, SendCompletion};
use crate::net::futures::sendmsg::{sendmsg_outcome, SendMsgCompletion};

use super::cancel::Cancel;
use super::completion::{Completion, CompletionEntry, CompletionStatus, Submission};

verus! {

/// An in-flight operation, of any of the kinds this runtime submits.
pub enum Operation {
    Cancel(Cancel),
    Accept(AcceptCompletion),
    Incoming(IncomingCompletion),
    Connect(ConnectCompletion),
    Recv(RecvCompletion),
    Send(SendCompletion),
    RecvMsg(RecvMsgCompletion),
    SendMsg(SendMsgCompletion),
}

impl Operation {
    /// Whether the kernel may post several completions for one submission.
    pub open spec fn is_multishot(&self) -> bool {
        self is Incoming
    }

    /// The submission this operation encodes as, before the driver stamps its slot.
    pub open spec fn entry_spec(&self) -> Submission {
        match self {
            Operation::Cancel(op) => Submission::cancel_of(op.index as u64),
            Operation::Accept(op) => op.entry_spec(),
            Operation::Incoming(op) => op.entry_spec(),
            Operation::Connect(op) => op.entry_spec(),
            Operation::Recv(op) => op.entry_spec(),
            Operation::Send(op) => op.entry_spec(),
            Operation::RecvMsg(op) => op.entry_spec(),
            Operation::SendMsg(op) => op.entry_spec(),
        }
    }

    /// `after` is this operation once it resolved `cqe`: of the same kind, having handed
    /// the decoded result on (a cancel hands nothing on). What the kernel wrote into a
    /// buffer is known only by its length.
    pub open spec fn settles(self, cqe: CompletionEntry, after: Operation) -> bool {
        let res = cqe.result;
        match self {
            Operation::Cancel(c) => after == Operation::Cancel(c),
            Operation::Accept(a) => after matches Operation::Accept(a2) && a2.delivered() matches Some(
                out,
            ) && exists|nm: Seq<u8>|
                nm.len() == a.name().len() && out == #[trigger] accept_peer_outcome(res, nm),
            Operation::Incoming(i) => after matches Operation::Incoming(i2) && i2.pushed()
                == i.pushed().push(accept_outcome(res)),
            Operation::Connect(_) => after matches Operation::Connect(c2) && c2.delivered()
                == Some(connect_outcome(res)),
            Operation::Recv(v) => after matches Operation::Recv(v2) && v2.delivered() matches Some(
                out,
            ) && recv_settles(res, v.buf()@.len(), out),
            Operation::Send(s) => after matches Operation::Send(s2) && s2.delivered() == Some(
                send_outcome(res, s.buf()),
            ),
            Operation::RecvMsg(m) => after matches Operation::RecvMsg(m2) && m2.delivered()
                matches Some(out) && exists|rb: Seq<Seq<u8>>, nm: Seq<u8>|
                #[trigger] recvmsg_matches(res, rb, nm, out) && same_shape(rb, m.bufs())
                    && nm.len() == m.name().len(),
            Operation::SendMsg(m) => after matches Operation::SendMsg(m2) && m2.delivered()
                == Some(sendmsg_outcome(res, m.buffers())),
        }
    }

    /// Encodes the operation.
    pub fn entry(&self) -> (s: Submission)
        ensures
            s == self.entry_spec(),
    {
        match self {
            Operation::Cancel(op) => op.entry(),
            Operation::Accept(op) => op.entry(),
            Operation::Incoming(op) => op.entry(),
            Operation::Connect(op) => op.entry(),
            Operation::Recv(op) => op.entry(),
            Operation::Send(op) => op.entry(),
            Operation::RecvMsg(op) => op.entry(),
            Operation::SendMsg(op) => op.entry(),
        }
    }

    /// Resolves one completion. Single-shot operations always finish; a multi-shot one stays
    /// armed only while the kernel says more will come. Either way the operation keeps its
    /// kind and encoding.
    pub fn resolve_entry(&mut self, value: CompletionEntry) -> (r: CompletionStatus)
        ensures
            !old(self).is_multishot() ==> r == CompletionStatus::Finalized,
            r == CompletionStatus::Armed ==> value.more(),
            r == CompletionStatus::Rearm ==> !value.more(),
            final(self).is_multishot() == old(self).is_multishot(),
            final(self).entry_spec() == old(self).entry_spec(),
            old(self).settles(value, *final(self)),
    {
        match self {
            Operation::Cancel(_) => CompletionStatus::Finalized,
            Operation::Accept(op) => op.resolve_entry(value),
            Operation::Incoming(op) => op.resolve_entry(value),
            Operation::Connect(op) => op.resolve_entry(value),
            Operation::Recv(op) => op.resolve_entry(value),
            Operation::Send(op) => op.resolve_entry(value),
            Operation::RecvMsg(op) => op.resolve_entry(value),
            Operation::SendMsg(op) => op.resolve_entry(value),
        }
    }
}

impl Completion for Operation {
    fn resolve(&mut self, value: CompletionEntry) -> CompletionStatus {
        self.resolve_entry(value)
    }

    fn as_entry(&mut self) -> Submission {
        self.entry()
    }
}

} // verus!
