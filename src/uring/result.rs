//! A single-use result cell shared between an operation and the task awaiting it.

use std::sync::Arc;

use vstd::prelude::*;
use vstd::rwlock::{RwLock, RwLockPredicate};

verus! {

/// The lock invariant of a result cell: any content.
pub struct AnyValue;

impl<T> RwLockPredicate<Option<T>> for AnyValue {
    open spec fn inv(self, v: Option<T>) -> bool {
        true
    }
}

/// A cell that one side fills and the other side empties. Handles made by `share` refer to
/// the same cell. Each handle records, as ghost state, the cell's content as its last call
/// found it and left it.
pub struct AsyncResult<T> {
    cell: Arc<RwLock<Option<T>, AnyValue>>,
    step: Ghost<Option<(Option<T>, Option<T>)>>,
}

impl<T> AsyncResult<T> {
    /// The cell's content as this handle's last call found it, and as it left it.
    pub closed spec fn last_step(&self) -> Option<(Option<T>, Option<T>)> {
        self.step@
    }

    /// A new, empty cell.
    pub fn new() -> (r: Self)
        ensures
            r.last_step() is None,
    {
        AsyncResult { cell: Arc::new(RwLock::new(None, Ghost(AnyValue))), step: Ghost(None) }
    }

    /// Another handle on the same cell, which has not acted on it yet.
    pub fn share(&self) -> (r: Self)
        ensures
            r.last_step() is None,
    {
        AsyncResult { cell: self.cell.clone(), step: Ghost(None) }
    }

    /// Stores a value, replacing any value not yet taken.
    pub fn set(&mut self, val: T)
        ensures
            final(self).last_step() matches Some((_before, after)) && after == Some(val),
    {
        let ghost v = val;
        let (previous, handle) = self.cell.acquire_write();
        let ghost before = previous;
        handle.release_write(Some(val));
        self.step = Ghost(Some((before, Some(v))));
    }

    /// Takes the stored value out, if there is one: the result is the cell's content, and
    /// the cell is empty afterwards.
    pub fn take(&mut self) -> (r: Option<T>)
        ensures
            final(self).last_step() matches Some((before, after)) && r == before && after is None,
    {
        let (current, handle) = self.cell.acquire_write();
        let ghost before = current;
        handle.release_write(None);
        self.step = Ghost(Some((before, None)));
        current
    }
}

} // verus!
