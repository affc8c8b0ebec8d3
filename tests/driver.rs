use std::sync::atomic::{AtomicUsize, Ordering};
use std::sync::Arc;
use std::task::{Wake, Waker};

use libuio::io_uring::engine::submit_outcome;
use libuio::io_uring::{Cancel, CompletionEntry, CompletionStatus, Opcode, Operation, UringDriver};
use libuio::net::addr::SocketAddr;
use libuio::net::futures::{Accept, Connect, Incoming, Recv, RecvFrom, RecvMsg, Send, SendMsg, SendTo};
use libuio::uring::Error;

struct CountingWaker(AtomicUsize);

impl Wake for CountingWaker {
    fn wake(self: Arc<Self>) {
        self.0.fetch_add(1, Ordering::SeqCst);
    }
}

fn waker() -> (Arc<CountingWaker>, Waker) {
    let counter = Arc::new(CountingWaker(AtomicUsize::new(0)));
    let waker = Waker::from(counter.clone());
    (counter, waker)
}

fn cqe(slot: usize, result: i32) -> CompletionEntry {
    CompletionEntry { user_data: slot as u64, result, flags: 0 }
}

#[test]
fn new_driver_parameters() {
    let d = UringDriver::new(4096);
    assert_eq!(d.in_flight(), 0);
    assert_eq!(d.min_completions(), 1);
    assert_eq!(d.submit_timeout_ns(), 100_000_000);
    assert_eq!(d.queued_len(), 0);
    assert_eq!(d.backlog_len(), 0);
}

#[test]
fn submission_user_data_is_returned_slot() {
    let mut d = UringDriver::new(16);
    let mut a = Accept::new(&mut d, 3);
    let mut r = Recv::new(&mut d, 4, vec![0; 32]);
    assert_ne!(a.id(), r.id());
    let subs = d.take_submissions();
    assert_eq!(subs.len(), 2);
    assert_eq!(subs[0].opcode, Opcode::Accept);
    assert_eq!(subs[0].fd, 3);
    assert_ne!(subs[0].addr, 0);
    assert_ne!(subs[0].addr2, 0);
    assert_eq!(subs[0].user_data, a.id() as u64);
    assert_eq!(subs[1].opcode, Opcode::Recv);
    assert_eq!(subs[1].fd, 4);
    assert_eq!(subs[1].len, 32);
    assert_eq!(subs[1].user_data, r.id() as u64);
    assert_eq!(d.queued_len(), 0);
}

#[test]
fn unknown_completion_is_dropped() {
    let mut d = UringDriver::new(8);
    let mut r = Recv::new(&mut d, 4, vec![0; 8]);
    assert_eq!(d.complete(cqe(999, 5)), None);
    assert_eq!(d.complete(CompletionEntry { user_data: u64::MAX, result: 0, flags: 0 }), None);
    assert_eq!(d.in_flight(), 1);
    assert!(d.contains(r.id()));
    let list = vec![cqe(500, 1), cqe(r.id(), 3), cqe(501, -1)];
    assert_eq!(d.run(Ok(()), &list), Ok(()));
    assert_eq!(d.in_flight(), 0);
}

#[test]
fn single_accept_then_echo() {
    let mut d = UringDriver::new(64);
    let msg = b"Hello from client!".to_vec();
    let mut accept = Accept::new(&mut d, 10);
    assert_eq!(d.complete(cqe(accept.id(), 11)), Some(CompletionStatus::Finalized));
    let (_c, w) = waker();
    let (conn, peer) = accept.poll(w.clone()).unwrap().unwrap();
    assert_eq!(conn, 11);
    assert_eq!(peer, None);
    let mut inbound = msg.clone();
    inbound.extend_from_slice(&[0; 14]);
    let mut recv = Recv::new(&mut d, conn, inbound);
    assert_eq!(recv.poll(w.clone()), None);
    assert_eq!(d.complete(cqe(recv.id(), 18)), Some(CompletionStatus::Finalized));
    let got = recv.poll(w.clone()).unwrap().unwrap();
    assert_eq!(got.len(), 18);
    let mut send = Send::new(&mut d, conn, got);
    let subs = d.take_submissions();
    let last = subs.last().unwrap();
    assert_eq!((last.opcode, last.len), (Opcode::Send, 18));
    d.complete(cqe(send.id(), 18));
    let (n, back) = send.poll(w).unwrap().unwrap();
    assert_eq!(n, 18);
    assert_eq!(back, msg);
    assert_eq!(d.in_flight(), 0);
}

#[test]
fn completion_wakes_registered_task() {
    let mut d = UringDriver::new(8);
    let mut c = Connect::new(&mut d, 5, &SocketAddr::V4 { ip: 0x7f00_0001, port: 80 });
    let (counter, w) = waker();
    assert_eq!(c.poll(w), None);
    d.complete(cqe(c.id(), 0));
    assert_eq!(counter.0.load(Ordering::SeqCst), 1);
    let (_c2, w2) = waker();
    assert_eq!(c.poll(w2), Some(Ok(())));
}

#[test]
fn finalized_only_once() {
    let mut d = UringDriver::new(8);
    let mut s = Send::new(&mut d, 4, vec![1, 2, 3]);
    let id = s.id();
    assert_eq!(d.complete(cqe(id, 3)), Some(CompletionStatus::Finalized));
    assert!(!d.contains(id));
    assert_eq!(d.complete(cqe(id, 3)), None);
    let (_c, w) = waker();
    assert_eq!(s.poll(w.clone()), Some(Ok((3, vec![1, 2, 3]))));
    assert_eq!(s.poll(w), None);
    let again = Recv::new(&mut d, 4, vec![0; 4]);
    assert_eq!(again.id(), id);
}

#[test]
fn dropping_awaitable_cancels_once() {
    let mut d = UringDriver::new(8);
    let before = d.in_flight();
    let mut accept = Accept::new(&mut d, 7);
    d.take_submissions();
    assert_eq!(d.in_flight(), before + 1);
    accept.cancel(&mut d);
    assert_eq!(d.in_flight(), before);
    let subs = d.take_submissions();
    assert_eq!(subs.len(), 1);
    assert_eq!(subs[0].opcode, Opcode::AsyncCancel);
    assert_eq!(subs[0].addr, accept.id() as u64);
    assert!(subs[0].skip_success);
    accept.cancel(&mut d);
    assert_eq!(d.take_submissions().len(), 0);
    let (counter, w) = waker();
    assert_eq!(accept.poll(w), None);
    assert_eq!(d.complete(cqe(accept.id(), -125)), None);
    assert_eq!(counter.0.load(Ordering::SeqCst), 0);
}

#[test]
fn backlog_overflow_drains_before_completions() {
    let mut d = UringDriver::new(8);
    let mut sends: Vec<Send> = Vec::new();
    for i in 0..64u8 {
        sends.push(Send::new(&mut d, 4, vec![i; 4]));
    }
    assert_eq!(d.queued_len(), 8);
    assert_eq!(d.backlog_len(), 56);
    let mut rounds = 0;
    let mut done = 0;
    while d.in_flight() > 0 {
        let subs = d.take_submissions();
        assert!(subs.len() <= 8);
        let list: Vec<CompletionEntry> =
            subs.iter().map(|s| CompletionEntry { user_data: s.user_data, result: 4, flags: 0 }).collect();
        done += list.len();
        assert_eq!(d.run(Ok(()), &list), Ok(()));
        rounds += 1;
        assert!(rounds < 100);
    }
    assert_eq!(done, 64);
    assert_eq!(d.backlog_len(), 0);
    let (_c, w) = waker();
    for (i, s) in sends.iter_mut().enumerate() {
        assert_eq!(s.poll(w.clone()), Some(Ok((4, vec![i as u8; 4]))));
    }
}

#[test]
fn run_drains_backlog_first() {
    let mut d = UringDriver::new(2);
    let mut a = Send::new(&mut d, 4, vec![1]);
    let _b = Send::new(&mut d, 4, vec![2]);
    let mut c = Send::new(&mut d, 4, vec![3]);
    assert_eq!(d.backlog_len(), 1);
    let first = d.take_submissions();
    assert_eq!(first.len(), 2);
    assert_eq!(d.run(Ok(()), &vec![cqe(a.id(), 1)]), Ok(()));
    assert_eq!(d.backlog_len(), 0);
    let next = d.take_submissions();
    assert_eq!(next.len(), 1);
    assert_eq!(next[0].user_data, c.id() as u64);
}

#[test]
fn park_returns_entries_to_backlog_front() {
    let mut d = UringDriver::new(1);
    let mut a = Send::new(&mut d, 4, vec![1]);
    let mut b = Send::new(&mut d, 4, vec![2]);
    let subs = d.take_submissions();
    d.park(subs);
    assert_eq!(d.backlog_len(), 2);
    d.clear_backlog();
    assert_eq!(d.take_submissions()[0].user_data, a.id() as u64);
    d.clear_backlog();
    assert_eq!(d.take_submissions()[0].user_data, b.id() as u64);
}

#[test]
fn fatal_wait_stops_the_pump() {
    assert_eq!(submit_outcome(Ok(())), Ok(()));
    assert_eq!(submit_outcome(Err(16)), Ok(()));
    assert_eq!(submit_outcome(Err(62)), Ok(()));
    assert_eq!(submit_outcome(Err(5)), Err(libuio::io_uring::Error::IO(5)));
    let mut d = UringDriver::new(4);
    let mut r = Recv::new(&mut d, 4, vec![0; 4]);
    assert_eq!(d.run(Err(5), &vec![cqe(r.id(), 4)]), Err(libuio::io_uring::Error::IO(5)));
    assert!(d.contains(r.id()));
    assert_eq!(d.run(Err(62), &vec![cqe(r.id(), 4)]), Ok(()));
    assert!(!d.contains(r.id()));
}

#[test]
fn accept_multi_rearms_and_keeps_delivering() {
    let mut d = UringDriver::new(256);
    let mut incoming = Incoming::new(&mut d, 3);
    let id = incoming.id();
    d.take_submissions();
    let (_c, w) = waker();
    for i in 0..100 {
        let flags = if i % 10 == 9 { 0 } else { 2 };
        let status = d.complete(CompletionEntry { user_data: id as u64, result: 100 + i, flags });
        if flags == 0 {
            assert_eq!(status, Some(CompletionStatus::Rearm));
            let again = d.take_submissions();
            assert_eq!(again.len(), 1);
            assert_eq!(again[0].opcode, Opcode::AcceptMulti);
            assert_eq!(again[0].user_data, id as u64);
        } else {
            assert_eq!(status, Some(CompletionStatus::Armed));
            assert_eq!(d.queued_len(), 0);
        }
    }
    for i in 0..100 {
        assert_eq!(incoming.poll_next(w.clone()), Some(Some(Ok(100 + i))));
    }
    assert_eq!(incoming.poll_next(w.clone()), None);
    assert!(d.contains(id));
    let err = d.complete(CompletionEntry { user_data: id as u64, result: -24, flags: 2 });
    assert_eq!(err, Some(CompletionStatus::Armed));
    assert_eq!(incoming.poll_next(w), Some(Some(Err(Error::IO(24)))));
}

#[test]
fn accept_multi_finalizes_when_stream_dropped() {
    let mut d = UringDriver::new(8);
    let mut incoming = Incoming::new(&mut d, 3);
    let id = incoming.id();
    drop(incoming);
    let status = d.complete(CompletionEntry { user_data: id as u64, result: 9, flags: 2 });
    assert_eq!(status, Some(CompletionStatus::Finalized));
    assert!(!d.contains(id));
}

#[test]
fn udp_message_round_trip() {
    let mut d = UringDriver::new(16);
    let payload = b"Hello world!".to_vec();
    let bufs: Vec<Vec<u8>> = vec![vec![0u8; 2]; 8];
    let mut rm = RecvMsg::new(&mut d, 6, bufs);
    let subs = d.take_submissions();
    assert_eq!(subs[0].opcode, Opcode::RecvMsg);
    d.complete(cqe(rm.id(), 12));
    let (_c, w) = waker();
    assert_eq!(rm.poll(w.clone()), Some(Err(Error::InvalidAddress)));
    let client = SocketAddr::V6 { ip: 1, port: 5000, flowinfo: 0, scope_id: 0 };
    let mut sm = SendMsg::new(&mut d, 6, vec![payload[..6].to_vec(), payload[6..].to_vec()], Some(client));
    let subs = d.take_submissions();
    assert_eq!(subs[0].opcode, Opcode::SendMsg);
    assert_ne!(subs[0].addr, 0);
    d.complete(cqe(sm.id(), 12));
    assert_eq!(
        sm.poll(w.clone()),
        Some(Ok((12, vec![payload[..6].to_vec(), payload[6..].to_vec()])))
    );
    let mut st = SendTo::new(&mut d, 6, payload.clone(), client);
    d.complete(cqe(st.id(), 12));
    assert_eq!(st.poll(w.clone()), Some(Ok((12, payload.clone()))));
    let mut rf = RecvFrom::new(&mut d, 6, vec![0; 12]);
    d.complete(cqe(rf.id(), -11));
    assert_eq!(rf.poll(w), Some(Err(Error::IO(11))));
}

#[test]
fn cancel_operation_is_single_shot() {
    let mut d = UringDriver::new(8);
    let slot = d.register(Operation::Cancel(Cancel::new(42)));
    let subs = d.take_submissions();
    assert_eq!(subs[0].opcode, Opcode::AsyncCancel);
    assert_eq!(subs[0].addr, 42);
    assert_eq!(subs[0].user_data, slot as u64);
    assert_eq!(d.complete(cqe(slot, -2)), Some(CompletionStatus::Finalized));
    assert_eq!(d.in_flight(), 0);
}

#[test]
fn cancel_after_result_leaves_reused_slot_alone() {
    let mut d = UringDriver::new(8);
    let mut s = Send::new(&mut d, 4, vec![1]);
    assert_eq!(d.complete(cqe(s.id(), 1)), Some(CompletionStatus::Finalized));
    let mut r = Recv::new(&mut d, 4, vec![0; 4]);
    assert_eq!(r.id(), s.id());
    d.take_submissions();
    s.cancel(&mut d);
    assert!(d.contains(r.id()));
    assert_eq!(d.take_submissions().len(), 0);
    r.cancel(&mut d);
    assert!(!d.contains(r.id()));
    assert_eq!(d.take_submissions()[0].opcode, Opcode::AsyncCancel);
}

#[test]
fn tickets_tell_slot_reuse_apart() {
    let mut d = UringDriver::new(8);
    let mut a = Send::new(&mut d, 4, vec![1]);
    let first = d.ticket_of(a.id()).unwrap();
    d.complete(cqe(a.id(), 1));
    assert_eq!(d.ticket_of(a.id()), None);
    let mut b = Send::new(&mut d, 4, vec![2]);
    assert_eq!(b.id(), a.id());
    let second = d.ticket_of(b.id()).unwrap();
    assert_ne!(first, second);
    d.deregister_if(b.id(), first);
    assert!(d.contains(b.id()));
    d.deregister_if(b.id(), second);
    assert!(!d.contains(b.id()));
}

#[test]
fn register_ticketed_hands_out_increasing_tickets() {
    let mut d = UringDriver::new(8);
    let (k0, t0) = d.register_ticketed(Operation::Cancel(Cancel::new(1)));
    let (k1, t1) = d.register_ticketed(Operation::Cancel(Cancel::new(2)));
    assert_ne!(k0, k1);
    assert_eq!((t0, t1), (0, 1));
    assert_eq!(d.ticket_of(k1), Some(1));
}
