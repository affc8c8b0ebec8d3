//! One-shot result channel.

use std::task::Waker;
use std::sync::Arc;

use vstd::prelude::*;
use vstd::rwlock::{RwLock, RwLockPredicate};

use super::wake;

verus! {

/// The contents of a one-shot channel: the delivered value (until it is taken), whether a
/// value was ever delivered, and the waker of the task waiting for it.
pub struct OneShotState<T> {
    pub result: Option<T>,
    pub completed: bool,
    pub waker: Option<Waker>,
}

impl<T> OneShotState<T> {
    /// A value is only ever present once the channel was completed.
    pub open spec fn wf(&self) -> bool {
        self.result.is_some() ==> self.completed
    }

    /// The state after `complete(v)`: the value is stored and the waker has been used up.
    pub open spec fn completed_with(self, v: T) -> OneShotState<T> {
        OneShotState { result: Some(v), completed: true, waker: None }
    }

    /// The state after `take()`.
    pub open spec fn taken(self) -> OneShotState<T> {
        OneShotState { result: None, ..self }
    }

    /// An empty channel that was never completed.
    pub fn new() -> (s: Self)
        ensures
            s.result.is_none(),
            !s.completed,
            s.waker.is_none(),
            s.wf(),
    {
        OneShotState { result: None, completed: false, waker: None }
    }

    /// Delivers the channel's one value and wakes the waiting task, if one is registered.
    /// A channel is completed at most once.
    pub fn complete(&mut self, val: T)
        requires
            !old(self).completed,
        ensures
            *final(self) == old(self).completed_with(val),
    {
        self.result = Some(val);
        self.completed = true;
        let waker = self.waker.take();
        match waker {
            Some(w) => wake(w),
            None => {},
        }
    }

    /// Takes the value out, if it has been delivered and not yet taken.
    pub fn take(&mut self) -> (r: Option<T>)
        ensures
            r == old(self).result,
            *final(self) == old(self).taken(),
    {
        self.result.take()
    }

    /// Replaces the waker that the next `complete` will invoke.
    pub fn set_waker(&mut self, waker: Waker)
        ensures
            final(self).result == old(self).result,
            final(self).completed == old(self).completed,
            final(self).waker == Some(waker),
    {
        self.waker = Some(waker);
    }
}

/// Once a one-shot channel is completed with `v`, the first `take` yields `v` and every later
/// `take` yields nothing.
pub proof fn lemma_one_shot_delivers_once<T>(s: OneShotState<T>, v: T)
    requires
        !s.completed,
    ensures
        s.completed_with(v).result == Some(v),
        s.completed_with(v).taken().result.is_none(),
        s.completed_with(v).taken().taken().result.is_none(),
        s.completed_with(v).taken().completed,
{
}

/// The lock invariant of a shared one-shot channel.
pub struct OneShotInv;

impl<T> RwLockPredicate<OneShotState<T>> for OneShotInv {
    open spec fn inv(self, v: OneShotState<T>) -> bool {
        v.wf()
    }
}

/// A one-shot channel shared between the operation that produces its value and the task
/// that awaits it. Handles made by `share` refer to the same channel.
///
/// Other handles may act on the channel between two calls on this one, so a handle cannot
/// know the channel's contents ahead of a call. Each handle records instead, as ghost
/// state, the value it last offered and the channel's state as its last call found it and
/// left it; every method states exactly that step.
pub struct OneShot<T> {
    inner: Arc<RwLock<OneShotState<T>, OneShotInv>>,
    offered: Ghost<Option<T>>,
    step: Ghost<Option<(OneShotState<T>, OneShotState<T>)>>,
}

impl<T> OneShot<T> {
    /// The value this handle last offered to the channel, if any.
    pub closed spec fn offered(&self) -> Option<T> {
        self.offered@
    }

    /// The channel's state as this handle's last call found it, and as it left it.
    pub closed spec fn last_step(&self) -> Option<(OneShotState<T>, OneShotState<T>)> {
        self.step@
    }

    /// A new, empty channel.
    pub fn new() -> (s: Self)
        ensures
            s.offered() is None,
            s.last_step() is None,
    {
        let state = OneShotState::new();
        OneShot {
            inner: Arc::new(RwLock::new(state, Ghost(OneShotInv))),
            offered: Ghost(None),
            step: Ghost(None),
        }
    }

    /// Another handle on the same channel, which has not acted on it yet.
    pub fn share(&self) -> (s: Self)
        ensures
            s.offered() is None,
            s.last_step() is None,
    {
        OneShot { inner: self.inner.clone(), offered: Ghost(None), step: Ghost(None) }
    }

    /// Delivers the value and wakes the waiting task, if the channel was not completed
    /// before; then the channel holds `val` and its waker is used up. A channel that was
    /// already completed is left as it was and `val` is dropped. Returns whether `val` was
    /// delivered.
    pub fn complete(&mut self, val: T) -> (delivered: bool)
        ensures
            final(self).offered() == Some(val),
            final(self).last_step() matches Some((before, after)) && before.wf() && delivered
                == !before.completed && (delivered ==> after == before.completed_with(val)) && (
            !delivered ==> after == before),
    {
        let ghost v = val;
        let (mut state, handle) = self.inner.acquire_write();
        let ghost before = state;
        let delivered = !state.completed;
        if delivered {
            state.complete(val);
        }
        let ghost after = state;
        handle.release_write(state);
        self.offered = Ghost(Some(v));
        self.step = Ghost(Some((before, after)));
        delivered
    }

    /// Takes the value out of the channel, if it has been delivered and not yet taken: the
    /// result is the value the channel held, and the channel holds none afterwards.
    pub fn take(&mut self) -> (r: Option<T>)
        ensures
            final(self).offered() == old(self).offered(),
            final(self).last_step() matches Some((before, after)) && r == before.result && after
                == before.taken(),
    {
        let (mut state, handle) = self.inner.acquire_write();
        let ghost before = state;
        let r = state.take();
        let ghost after = state;
        handle.release_write(state);
        self.step = Ghost(Some((before, after)));
        r
    }

    /// Whether a value was ever delivered, taken or not. The channel is not changed.
    pub fn is_completed(&mut self) -> (r: bool)
        ensures
            final(self).offered() == old(self).offered(),
            final(self).last_step() matches Some((before, after)) && r == before.completed
                && after == before,
    {
        let (state, handle) = self.inner.acquire_write();
        let ghost before = state;
        let r = state.completed;
        handle.release_write(state);
        self.step = Ghost(Some((before, before)));
        r
    }

    /// Replaces the waker that delivery will invoke. The value, if any, stays for `take`.
    pub fn set_waker(&mut self, waker: Waker)
        ensures
            final(self).offered() == old(self).offered(),
            final(self).last_step() matches Some((before, after)) && after.result == before.result
                && after.completed == before.completed && after.waker == Some(waker),
    {
        let (mut state, handle) = self.inner.acquire_write();
        let ghost before = state;
        state.set_waker(waker);
        let ghost after = state;
        handle.release_write(state);
        self.step = Ghost(Some((before, after)));
    }
}

} // verus!
