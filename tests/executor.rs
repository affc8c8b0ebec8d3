use libuio::executor::pool::{closes_on_drop, next_action};
use libuio::executor::{ThreadPoolBuilder, WorkerAction, WorkerMessage};

#[test]
fn builder_defaults_and_setters() {
    let mut b = ThreadPoolBuilder::new();
    assert!(b.get_pool_size() >= 1);
    assert_eq!(b.get_stack_size(), 0);
    assert!(b.get_name_prefix().is_none());
    b.pool_size(2).stack_size(1 << 20).name_prefix("worker-".to_string());
    assert_eq!(b.get_pool_size(), 2);
    assert_eq!(b.get_stack_size(), 1 << 20);
    assert_eq!(b.get_name_prefix().map(|p| p.as_str()), Some("worker-"));
}

#[test]
fn worker_runs_until_close() {
    assert_eq!(next_action(WorkerMessage::Run), WorkerAction::RunTask);
    assert_eq!(next_action(WorkerMessage::Empty), WorkerAction::Drive);
    assert_eq!(next_action(WorkerMessage::Close), WorkerAction::Stop);
    assert_eq!(next_action(WorkerMessage::Disconnected), WorkerAction::Stop);
}

#[test]
fn last_handle_closes_every_worker() {
    assert_eq!(closes_on_drop(1, 4), 4);
    assert_eq!(closes_on_drop(2, 4), 0);
}

