//! The worker pool's configuration and the decisions each worker takes.

pub mod pool;

pub use pool::{ThreadPoolBuilder, WorkerAction, WorkerMessage};
