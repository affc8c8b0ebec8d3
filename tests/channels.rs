use std::sync::atomic::{AtomicUsize, Ordering};
use std::sync::Arc;
use std::task::{Wake, Waker};

use libuio::sync::{channel, OneShot, OneShotState, TryRecvError};
use libuio::uring::AsyncResult;

struct CountingWaker(AtomicUsize);

impl Wake for CountingWaker {
    fn wake(self: Arc<Self>) {
        self.0.fetch_add(1, Ordering::SeqCst);
    }
}

fn counting_waker() -> (Arc<CountingWaker>, Waker) {
    let counter = Arc::new(CountingWaker(AtomicUsize::new(0)));
    let waker = Waker::from(counter.clone());
    (counter, waker)
}

#[test]
fn oneshot_state_delivers_exactly_once() {
    let mut s: OneShotState<u32> = OneShotState::new();
    assert_eq!(s.take(), None);
    s.complete(7);
    assert!(s.completed);
    assert_eq!(s.take(), Some(7));
    assert_eq!(s.take(), None);
    assert_eq!(s.take(), None);
}

#[test]
fn oneshot_state_wakes_registered_waker() {
    let (counter, waker) = counting_waker();
    let mut s: OneShotState<&str> = OneShotState::new();
    s.set_waker(waker);
    assert_eq!(counter.0.load(Ordering::SeqCst), 0);
    s.complete("done");
    assert_eq!(counter.0.load(Ordering::SeqCst), 1);
    assert!(s.waker.is_none());
    assert_eq!(s.take(), Some("done"));
}

#[test]
fn oneshot_shared_between_handles() {
    let mut producer: OneShot<Vec<u8>> = OneShot::new();
    let mut consumer = producer.share();
    let (counter, waker) = counting_waker();
    consumer.set_waker(waker);
    assert_eq!(consumer.take(), None);
    assert!(producer.complete(vec![1, 2, 3]));
    assert_eq!(counter.0.load(Ordering::SeqCst), 1);
    assert_eq!(consumer.take(), Some(vec![1, 2, 3]));
    assert_eq!(consumer.take(), None);
}

#[test]
fn oneshot_second_complete_is_refused() {
    let mut cell: OneShot<u8> = OneShot::new();
    assert!(cell.complete(1));
    assert!(!cell.complete(2));
    assert_eq!(cell.take(), Some(1));
    assert_eq!(cell.take(), None);
    assert!(!cell.complete(3));
    assert_eq!(cell.take(), None);
}

#[test]
fn oneshot_waker_set_after_complete_sees_value() {
    let mut cell: OneShot<u8> = OneShot::new();
    let mut task = cell.share();
    assert!(cell.complete(9));
    let (counter, waker) = counting_waker();
    task.set_waker(waker);
    assert_eq!(task.take(), Some(9));
    assert_eq!(counter.0.load(Ordering::SeqCst), 0);
}

#[test]
fn oneshot_last_waker_wins() {
    let mut cell: OneShot<u8> = OneShot::new();
    let (first, w1) = counting_waker();
    let (second, w2) = counting_waker();
    cell.set_waker(w1);
    cell.set_waker(w2);
    assert!(cell.complete(4));
    assert_eq!(first.0.load(Ordering::SeqCst), 0);
    assert_eq!(second.0.load(Ordering::SeqCst), 1);
}

#[test]
fn multishot_is_fifo_and_wakes() {
    let (mut tx, mut rx) = channel::<u32>();
    let (counter, waker) = counting_waker();
    rx.set_waker(waker);
    assert_eq!(rx.try_recv(), Err(TryRecvError::Empty));
    assert_eq!(tx.push(1), Ok(()));
    assert_eq!(counter.0.load(Ordering::SeqCst), 1);
    assert_eq!(tx.push(2), Ok(()));
    assert_eq!(counter.0.load(Ordering::SeqCst), 1);
    assert_eq!(tx.push(3), Ok(()));
    assert_eq!(rx.try_recv(), Ok(1));
    assert_eq!(rx.try_recv(), Ok(2));
    assert_eq!(rx.try_recv(), Ok(3));
    assert_eq!(rx.try_recv(), Err(TryRecvError::Empty));
}

#[test]
fn multishot_push_after_receiver_dropped_hands_value_back() {
    let (mut tx, rx) = channel::<String>();
    drop(rx);
    assert_eq!(tx.push("late".to_string()), Err("late".to_string()));
}

#[test]
fn multishot_disconnected_after_sender_dropped() {
    let (mut tx, rx) = channel::<u8>();
    tx.push(5).unwrap();
    drop(tx);
    assert_eq!(rx.try_recv(), Ok(5));
    assert_eq!(rx.try_recv(), Err(TryRecvError::Disconnected));
}

#[test]
fn async_result_set_then_take() {
    let mut a: AsyncResult<i32> = AsyncResult::new();
    let mut b = a.share();
    assert_eq!(b.take(), None);
    a.set(3);
    a.set(4);
    assert_eq!(b.take(), Some(4));
    assert_eq!(b.take(), None);
}

#[test]
fn multishot_shared_senders_feed_one_receiver() {
    let (tx, rx) = channel::<u8>();
    let mut a = tx;
    let mut b = a.share();
    a.push(1).unwrap();
    b.push(2).unwrap();
    drop(a);
    assert_eq!(rx.try_recv(), Ok(1));
    assert_eq!(rx.try_recv(), Ok(2));
    drop(b);
    assert_eq!(rx.try_recv(), Err(TryRecvError::Disconnected));
}
