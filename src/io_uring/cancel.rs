//! The cancel operation.

use vstd::prelude::*;

use super::completion::{Completion, CompletionEntry, CompletionStatus, Opcode, Submission};

verus! {

/// A best-effort cancel of every in-flight operation registered under a slot index.
#[derive(Debug, Clone, Copy, PartialEq, Eq, Structural)]
pub struct Cancel {
    pub index: usize,
}

impl Cancel {
    /// A cancel targeting slot `index`.
    pub fn new(index: usize) -> (c: Cancel)
        ensures
            c.index == index,
    {
        Cancel { index }
    }

    /// The submission: cancel all operations whose user-data equals the target slot.
    pub fn entry(&self) -> (s: Submission)
        ensures
            s == Submission::cancel_of(self.index as u64),
    {
        Submission::new(Opcode::AsyncCancel, -1, self.index as u64, 0)
    }
}

impl Completion for Cancel {
    /// Cancellation is best-effort: the result is ignored and the cancel is always done.
    fn resolve(&mut self, value: CompletionEntry) -> (r: CompletionStatus)
        ensures
            r == CompletionStatus::Finalized,
            *final(self) == *old(self),
    {
        CompletionStatus::Finalized
    }

    fn as_entry(&mut self) -> (s: Submission)
        ensures
            s == Submission::cancel_of(old(self).index as u64),
            *final(self) == *old(self),
    {
        self.entry()
    }
}

} // verus!
