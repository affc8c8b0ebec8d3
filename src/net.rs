//! Socket-facing parts of the runtime: the kernel socket-address codec, the scatter/gather
//! descriptors, and the operations the socket façades submit.

pub mod addr;
pub mod futures;
pub mod types;
