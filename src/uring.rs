//! Result types shared by every operation: the error kinds an operation can end in, and a
//! single-use result cell.

pub mod error;
pub mod result;

pub use error::Error;
pub use result::AsyncResult;
