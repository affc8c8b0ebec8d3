//! A completion-based asynchronous networking core for Linux io_uring.
//!
//! The library holds the parts of the runtime that decide: the result channels that hand
//! values from the I/O driver back to suspended tasks, the operation encoders and decoders,
//! the driver's slot registry, submission backlog and completion dispatch, and the kernel
//! socket-address codec. Performing the system calls is left to the embedding program.

pub mod executor;
pub mod io_uring;
pub mod net;
pub(crate) mod ptr;
pub mod sync;
pub mod uring;

pub use executor::ThreadPoolBuilder;
