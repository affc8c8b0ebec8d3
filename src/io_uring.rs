//! The completion-driven I/O driver: the operation interface, the submissions it produces,
//! and the driver that registers operations and dispatches their completions.

pub mod cancel;
pub mod completion;

pub mod error;



pub use cancel::Cancel;
pub use completion::{Completion, CompletionEntry, CompletionStatus, Opcode, Submission};

pub use error::Error;

pub mod operation;
pub mod slots;

pub use operation::Operation;
pub mod engine;

pub use engine::UringDriver;
