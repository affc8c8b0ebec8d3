//! Multi-shot result channel: an unbounded FIFO from one operation to one waiting task.

use std::sync::Arc;
use std::task::Waker;

use vstd::prelude::*;
use vstd::rwlock::{RwLock, RwLockPredicate};

use super::wake;

verus! {

#[verifier::external_type_specification]
#[verifier::external_body]
#[verifier::reject_recursive_types(T)]
pub struct ExMpscSender<T>(std::sync::mpsc::Sender<T>);

#[verifier::external_type_specification]
#[verifier::external_body]
#[verifier::reject_recursive_types(T)]
pub struct ExMpscReceiver<T>(std::sync::mpsc::Receiver<T>);

/// Why a non-blocking receive produced no value.
#[derive(Debug, Clone, Copy, PartialEq, Eq, Structural)]
pub enum TryRecvError {
    /// No value is queued yet, but the sending side is still alive.
    Empty,
    /// No value is queued and the sending side is gone: none will ever come.
    Disconnected,
}

/// Relies on `std::sync::mpsc::channel`: a connected pair of queue ends.
#[verifier::external_body]
fn mpsc_channel<T>() -> (r: (std::sync::mpsc::Sender<T>, std::sync::mpsc::Receiver<T>)) {
    std::sync::mpsc::channel()
}

/// Relies on `Clone` for `std::sync::mpsc::Sender`: another sender into the same channel.
#[verifier::external_body]
fn mpsc_clone<T>(tx: &std::sync::mpsc::Sender<T>) -> (r: std::sync::mpsc::Sender<T>) {
    tx.clone()
}

/// Relies on `std::sync::mpsc::Sender::send`: it fails only when the receiving end is gone,
/// and then hands the value back.
#[verifier::external_body]
fn mpsc_send<T>(tx: &std::sync::mpsc::Sender<T>, val: T) -> (r: Result<(), T>)
    ensures
        r matches Err(back) ==> back == val,
{
    tx.send(val).map_err(|e| e.0)
}

/// Relies on `std::sync::mpsc::Receiver::try_recv`: the oldest queued value, or why there is
/// none.
#[verifier::external_body]
fn mpsc_try_recv<T>(rx: &std::sync::mpsc::Receiver<T>) -> (r: Result<T, TryRecvError>) {
    match rx.try_recv() {
        Ok(v) => Ok(v),
        Err(std::sync::mpsc::TryRecvError::Empty) => Err(TryRecvError::Empty),
        Err(std::sync::mpsc::TryRecvError::Disconnected) => Err(TryRecvError::Disconnected),
    }
}

/// The lock invariant of the shared waker slot: any waker may be stored.
pub struct AnyWaker;

impl RwLockPredicate<Option<Waker>> for AnyWaker {
    open spec fn inv(self, v: Option<Waker>) -> bool {
        true
    }
}

/// The consuming end of a multi-shot channel. The queue is std's; the waker slot is shared
/// with every sender. The handle records, as ghost state, the waker slot as its last
/// `set_waker` found it and left it.
#[verifier::reject_recursive_types(T)]
pub struct Receiver<T> {
    waker: Arc<RwLock<Option<Waker>, AnyWaker>>,
    rx: std::sync::mpsc::Receiver<T>,
    waker_step: Ghost<Option<(Option<Waker>, Option<Waker>)>>,
}

/// The producing end of a multi-shot channel. The handle records, as ghost state, the
/// values it offered, whether its last push was accepted, and the waker slot as its last
/// accepted push found it and left it.
#[verifier::reject_recursive_types(T)]
pub struct Sender<T> {
    waker: Arc<RwLock<Option<Waker>, AnyWaker>>,
    tx: std::sync::mpsc::Sender<T>,
    offered: Ghost<Seq<T>>,
    accepted: Ghost<bool>,
    waker_step: Ghost<Option<(Option<Waker>, Option<Waker>)>>,
}

impl<T> Receiver<T> {
    /// The waker slot as this handle's last `set_waker` found it, and as it left it.
    pub closed spec fn waker_step(&self) -> Option<(Option<Waker>, Option<Waker>)> {
        self.waker_step@
    }

    /// Replaces the waker that the next accepted `push` invokes.
    pub fn set_waker(&mut self, waker: Waker)
        ensures
            final(self).waker_step() matches Some((_before, after)) && after == Some(waker),
    {
        let ghost w = waker;
        let (old_waker, handle) = self.waker.acquire_write();
        let ghost before = old_waker;
        handle.release_write(Some(waker));
        self.waker_step = Ghost(Some((before, Some(w))));
    }

    /// The oldest value not yet received, without blocking: `Empty` while the senders are
    /// alive and nothing is queued, `Disconnected` once they are all gone.
    pub fn try_recv(&self) -> (r: Result<T, TryRecvError>) {
        mpsc_try_recv(&self.rx)
    }
}

impl<T> Sender<T> {
    /// The values this handle offered to the channel, oldest first.
    pub closed spec fn offered(&self) -> Seq<T> {
        self.offered@
    }

    /// Whether this handle's last push was accepted.
    pub closed spec fn accepted(&self) -> bool {
        self.accepted@
    }

    /// The waker slot as this handle's last accepted push found it, and as it left it.
    pub closed spec fn waker_step(&self) -> Option<(Option<Waker>, Option<Waker>)> {
        self.waker_step@
    }

    /// Another producing end of the same channel, which has offered nothing yet.
    pub fn share(&self) -> (s: Self)
        ensures
            s.offered() == Seq::<T>::empty(),
            s.waker_step() is None,
    {
        Sender {
            waker: self.waker.clone(),
            tx: mpsc_clone(&self.tx),
            offered: Ghost(Seq::empty()),
            accepted: Ghost(true),
            waker_step: Ghost(None),
        }
    }

    /// Queues a value. When it is accepted, the waker in the shared slot is taken out and
    /// invoked; when the receiving end is gone, the value is handed back and the waker slot
    /// is not touched.
    pub fn push(&mut self, val: T) -> (r: Result<(), T>)
        ensures
            final(self).offered() == old(self).offered().push(val),
            final(self).accepted() == r is Ok,
            r matches Err(back) ==> back == val,
            r is Ok ==> (final(self).waker_step() matches Some((_before, after)) && after is None),
            r is Err ==> final(self).waker_step() == old(self).waker_step(),
    {
        self.offered = Ghost(self.offered@.push(val));
        match mpsc_send(&self.tx, val) {
            Ok(()) => {
                let (current, handle) = self.waker.acquire_write();
                let ghost before = current;
                handle.release_write(None);
                self.waker_step = Ghost(Some((before, None)));
                self.accepted = Ghost(true);
                match current {
                    Some(w) => wake(w),
                    None => {},
                }
                Ok(())
            },
            Err(back) => {
                self.accepted = Ghost(false);
                Err(back)
            },
        }
    }
}

/// A connected pair of channel ends sharing one waker slot, which starts empty.
pub fn channel<T>() -> (r: (Sender<T>, Receiver<T>))
    ensures
        r.0.offered() == Seq::<T>::empty(),
        r.0.waker_step() is None,
        r.1.waker_step() is None,
{
    let (tx, rx) = mpsc_channel();
    let waker = Arc::new(RwLock::new(None, Ghost(AnyWaker)));
    let send = Sender {
        waker: waker.clone(),
        tx,
        offered: Ghost(Seq::empty()),
        accepted: Ghost(true),
        waker_step: Ghost(None),
    };
    let recv = Receiver { waker, rx, waker_step: Ghost(None) };
    (send, recv)
}

} // verus!
