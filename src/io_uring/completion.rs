//! What an operation hands the kernel, what the kernel hands back, and the interface every
//! in-flight operation provides.

use vstd::prelude::*;

verus! {

/// What the driver does with an operation after it has resolved a completion.
#[derive(Debug, Clone, Copy, PartialEq, Eq, Structural)]
pub enum CompletionStatus {
    /// A multi-shot operation the kernel still holds: keep the slot, submit nothing.
    Armed,
    /// A multi-shot operation the kernel has dropped: submit it again under the same slot.
    Rearm,
    /// The operation is done: free its slot.
    Finalized,
}

/// The kernel operations this runtime submits.
#[derive(Debug, Clone, Copy, PartialEq, Eq, Structural)]
pub enum Opcode {
    Accept,
    AcceptMulti,
    Connect,
    Recv,
    Send,
    RecvMsg,
    SendMsg,
    AsyncCancel,
}

/// A submission-queue entry, as plain values.
///
/// `addr` is the address of the buffer, socket address or message header the kernel reads
/// or writes (for `AsyncCancel`, the user-data of the operations to cancel), and `len` the
/// buffer or address length. `addr2` is the address of the length the kernel reads and
/// writes back with an accepted peer's address, zero otherwise. `user_data` is the slot
/// index the kernel echoes back. With `skip_success` the kernel posts no completion when
/// the operation succeeds.
#[derive(Debug, Clone, Copy, PartialEq, Eq, Structural)]
pub struct Submission {
    pub opcode: Opcode,
    pub fd: i32,
    pub addr: u64,
    pub len: u32,
    pub addr2: u64,
    pub user_data: u64,
    pub skip_success: bool,
}

impl Submission {
    /// A submission of `opcode` on `fd` with the given address and length, no user-data yet.
    pub fn new(opcode: Opcode, fd: i32, addr: u64, len: u32) -> (s: Submission)
        ensures
            s == (Submission { opcode, fd, addr, len, addr2: 0, user_data: 0, skip_success: false }),
    {
        Submission { opcode, fd, addr, len, addr2: 0, user_data: 0, skip_success: false }
    }

    /// The same submission, with `addr2` set.
    pub fn with_addr2(self, addr2: u64) -> (s: Submission)
        ensures
            s == (Submission { addr2, ..self }),
    {
        Submission { addr2, ..self }
    }

    /// The same submission, stamped with `user_data`.
    pub fn with_user_data(self, user_data: u64) -> (s: Submission)
        ensures
            s == (Submission { user_data, ..self }),
    {
        Submission { user_data, ..self }
    }

    /// The same submission, posting no completion on success.
    pub fn skipping_success(self) -> (s: Submission)
        ensures
            s == (Submission { skip_success: true, ..self }),
    {
        Submission { skip_success: true, ..self }
    }

    /// An asynchronous cancel of every in-flight operation whose user-data is `target`.
    pub open spec fn cancel_of(target: u64) -> Submission {
        Submission {
            opcode: Opcode::AsyncCancel,
            fd: -1i32,
            addr: target,
            len: 0,
            addr2: 0,
            user_data: 0,
            skip_success: false,
        }
    }

    /// Whether this submission cancels the operations whose user-data is `target`.
    pub open spec fn cancels(self, target: u64) -> bool {
        self.opcode == Opcode::AsyncCancel && self.addr == target
    }
}

/// The kernel sets this completion flag while a multi-shot operation stays armed.
pub const CQE_F_MORE: u32 = 2;

/// A completion-queue entry, as plain values.
#[derive(Debug, Clone, Copy, PartialEq, Eq, Structural)]
pub struct CompletionEntry {
    /// The user-data of the submission this completes.
    pub user_data: u64,
    /// The operation's result: a count or descriptor when non-negative, a negated errno
    /// otherwise.
    pub result: i32,
    /// Completion flags.
    pub flags: u32,
}

impl CompletionEntry {
    /// Whether the kernel keeps the multi-shot operation armed.
    pub open spec fn more_spec(&self) -> bool {
        self.flags & CQE_F_MORE != 0
    }

    /// Whether the kernel keeps the multi-shot operation armed.
    #[verifier::when_used_as_spec(more_spec)]
    pub fn more(&self) -> (r: bool)
        ensures
            r == self.more_spec(),
    {
        self.flags & CQE_F_MORE != 0
    }
}

/// An in-flight operation: it encodes itself as a submission and resolves the completions
/// the kernel posts for it.
pub trait Completion {
    /// Consumes one completion, hands its result on, and says what the driver does next.
    fn resolve(&mut self, value: CompletionEntry) -> CompletionStatus;

    /// The submission for this operation. The driver stamps the user-data afterwards.
    fn as_entry(&mut self) -> Submission;
}

} // verus!
