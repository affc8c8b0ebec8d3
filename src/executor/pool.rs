//! Worker pool configuration, and what a worker does with each message from the shared
//! task queue.

use vstd::prelude::*;

verus! {

/// Relies on `num_cpus::get`: the number of CPUs available to this process.
#[verifier::external_body]
fn cpu_count() -> (r: usize) {
    num_cpus::get()
}

/// The configuration of a worker pool. The hooks run at each worker's start and stop are
/// kept by the code that starts the threads.
pub struct ThreadPoolBuilder {
    pool_size: usize,
    stack_size: usize,
    name_prefix: Option<String>,
}

impl ThreadPoolBuilder {
    /// The number of workers; `new` and `pool_size` only ever set a positive one.
    pub closed spec fn workers(&self) -> usize {
        self.pool_size
    }

    /// The workers' stack size in bytes; zero for the platform's default.
    pub closed spec fn stack(&self) -> usize {
        self.stack_size
    }

    /// The prefix of the workers' thread names, if any.
    pub closed spec fn prefix(&self) -> Option<String> {
        self.name_prefix
    }

    /// The number of workers.
    pub fn get_pool_size(&self) -> (r: usize)
        ensures
            r == self.workers(),
    {
        self.pool_size
    }

    /// The workers' stack size in bytes; zero for the platform's default.
    pub fn get_stack_size(&self) -> (r: usize)
        ensures
            r == self.stack(),
    {
        self.stack_size
    }

    /// The prefix of the workers' thread names, if any.
    pub fn get_name_prefix(&self) -> (r: Option<&String>)
        ensures
            r matches Some(p) ==> self.prefix() == Some(*p),
            r is None ==> self.prefix() is None,
    {
        match &self.name_prefix {
            Some(p) => Some(p),
            None => None,
        }
    }

    /// The default configuration: one worker per available CPU (at least one), the
    /// platform's stack size and no thread names.
    pub fn new() -> (b: ThreadPoolBuilder)
        ensures
            b.workers() >= 1,
            b.stack() == 0,
            b.prefix() is None,
    {
        let cpus = cpu_count();
        let pool_size = if cpus > 1 {
            cpus
        } else {
            1
        };
        ThreadPoolBuilder {
            pool_size,
            stack_size: 0,
            name_prefix: None,
        }
    }

    /// Sets the number of workers, which must be positive.
    pub fn pool_size(&mut self, size: usize) -> (r: &mut Self)
        requires
            size > 0,
        ensures
            r.workers() == size,
            r.workers() >= 1,
            r.stack() == old(self).stack(),
            r.prefix() == old(self).prefix(),
            *final(self) == *final(r),
    {
        self.pool_size = size;
        self
    }

    /// Sets the workers' stack size in bytes; zero keeps the platform's default.
    pub fn stack_size(&mut self, stack_size: usize) -> (r: &mut Self)
        ensures
            r.stack() == stack_size,
            r.workers() == old(self).workers(),
            r.prefix() == old(self).prefix(),
            *final(self) == *final(r),
    {
        self.stack_size = stack_size;
        self
    }

    /// Sets the prefix of the workers' thread names; worker `i` is named the prefix
    /// followed by `i`.
    pub fn name_prefix(&mut self, name_prefix: String) -> (r: &mut Self)
        ensures
            r.prefix() == Some(name_prefix),
            r.workers() == old(self).workers(),
            r.stack() == old(self).stack(),
            *final(self) == *final(r),
    {
        self.name_prefix = Some(name_prefix);
        self
    }
}

/// What a worker found when it polled the shared task queue.
#[derive(Debug, Clone, Copy, PartialEq, Eq, Structural)]
pub enum WorkerMessage {
    /// A task to run.
    Run,
    /// The pool is shutting down.
    Close,
    /// Nothing is queued.
    Empty,
    /// Every sender is gone.
    Disconnected,
}

/// What a worker does next.
#[derive(Debug, Clone, Copy, PartialEq, Eq, Structural)]
pub enum WorkerAction {
    /// Run the task, then poll the queue again.
    RunTask,
    /// Go back to driving the I/O ring.
    Drive,
    /// Leave the worker loop.
    Stop,
}

/// A worker runs every queued task, returns to its ring when the queue is empty, and stops
/// on a close message or when the queue can no longer deliver.
pub fn next_action(m: WorkerMessage) -> (a: WorkerAction)
    ensures
        m == WorkerMessage::Run ==> a == WorkerAction::RunTask,
        m == WorkerMessage::Empty ==> a == WorkerAction::Drive,
        m == WorkerMessage::Close || m == WorkerMessage::Disconnected ==> a == WorkerAction::Stop,
{
    match m {
        WorkerMessage::Run => WorkerAction::RunTask,
        WorkerMessage::Empty => WorkerAction::Drive,
        WorkerMessage::Close => WorkerAction::Stop,
        WorkerMessage::Disconnected => WorkerAction::Stop,
    }
}

/// How many close messages dropping a pool handle sends: one per worker when it was the
/// last handle, none otherwise.
pub fn closes_on_drop(handles_before: usize, size: usize) -> (n: usize)
    ensures
        handles_before == 1 ==> n == size,
        handles_before != 1 ==> n == 0,
{
    if handles_before == 1 {
        size
    } else {
        0
    }
}

} // verus!
