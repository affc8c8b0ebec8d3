//! The operations behind each socket method: how each one is encoded as a submission and
//! how its completions are decoded, and the handles tasks await them through.

pub mod accept;
pub mod connect;
pub mod incoming;
pub mod recv;
pub mod recvfrom;
pub mod recvmsg;
pub mod send;
pub mod sendmsg;
pub mod sendto;

pub use accept::Accept;
pub use connect::Connect;
pub use incoming::Incoming;
pub use recv::Recv;
pub use recvfrom::RecvFrom;
pub use recvmsg::RecvMsg;
pub use send::Send;
pub use sendmsg::SendMsg;
pub use sendto::SendTo;
