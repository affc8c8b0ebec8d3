use libuio::io_uring::{CompletionEntry, CompletionStatus};
use libuio::net::addr::{encode, SocketAddr};
use libuio::net::futures::accept::{accept_peer_result, accept_result};
use libuio::net::futures::connect::connect_result;
use libuio::net::futures::incoming::multishot_status;
use libuio::net::futures::recv::recv_result;
use libuio::net::futures::recvfrom::single_buffer;
use libuio::net::futures::recvmsg::{fill_buffers, recvmsg_result};
use libuio::net::futures::send::send_result;
use libuio::net::futures::sendmsg::sendmsg_result;
use libuio::uring::Error;

#[test]
fn recv_zero_is_peer_closed_not_kernel_error() {
    assert_eq!(recv_result(0, vec![1, 2, 3]), Err(Error::Disconnected));
    assert_eq!(recv_result(-104, vec![1, 2, 3]), Err(Error::IO(104)));
    assert_ne!(recv_result(0, vec![1]), recv_result(-1, vec![1]));
}

#[test]
fn recv_cuts_buffer_to_count() {
    assert_eq!(recv_result(3, vec![1, 2, 3, 4, 5]), Ok(vec![1, 2, 3]));
    assert_eq!(recv_result(5, vec![1, 2, 3, 4, 5]), Ok(vec![1, 2, 3, 4, 5]));
    assert_eq!(recv_result(9, vec![1, 2]), Ok(vec![1, 2]));
}

#[test]
fn negative_result_saturates_at_extreme() {
    assert_eq!(recv_result(i32::MIN, vec![]), Err(Error::IO(i32::MAX)));
    assert_eq!(accept_result(-11), Err(Error::IO(11)));
}

#[test]
fn send_decoding_is_symmetric_to_recv() {
    assert_eq!(send_result(0, vec![9]), Err(Error::Disconnected));
    assert_eq!(send_result(-32, vec![9]), Err(Error::IO(32)));
    assert_eq!(send_result(1, vec![9]), Ok((1, vec![9])));
}

#[test]
fn accept_connect_and_sendmsg_decoding() {
    assert_eq!(accept_result(0), Ok(0));
    assert_eq!(accept_result(12), Ok(12));
    assert_eq!(connect_result(0), Ok(()));
    assert_eq!(connect_result(-111), Err(Error::IO(111)));
    assert_eq!(sendmsg_result(0, vec![]), Ok((0, vec![])));
    assert_eq!(sendmsg_result(12, vec![vec![1, 2]]), Ok((12, vec![vec![1, 2]])));
    assert_eq!(sendmsg_result(-90, vec![vec![1]]), Err(Error::IO(90)));
}

#[test]
fn multishot_more_flag_decides_status() {
    assert_eq!(multishot_status(true, true), CompletionStatus::Armed);
    assert_eq!(multishot_status(true, false), CompletionStatus::Rearm);
    assert_eq!(multishot_status(false, true), CompletionStatus::Finalized);
    assert_eq!(multishot_status(false, false), CompletionStatus::Finalized);
    let armed = CompletionEntry { user_data: 0, result: 4, flags: 2 };
    let dropped = CompletionEntry { user_data: 0, result: 4, flags: 1 };
    assert!(armed.more());
    assert!(!dropped.more());
}

#[test]
fn scatter_keeps_byte_order_across_buffers() {
    let payload = b"Hello world!".to_vec();
    let bufs: Vec<Vec<u8>> = payload.chunks(2).map(|c| c.to_vec()).chain(vec![vec![0, 0]; 2]).collect();
    assert_eq!(bufs.len(), 8);
    let filled = fill_buffers(bufs, 12);
    assert_eq!(filled.len(), 8);
    assert_eq!(filled[5], b"d!".to_vec());
    assert!(filled[6].is_empty() && filled[7].is_empty());
    assert_eq!(filled.concat(), payload);
}

#[test]
fn scatter_partial_buffer() {
    let filled = fill_buffers(vec![vec![1, 2, 3], vec![4, 5, 6], vec![7]], 4);
    assert_eq!(filled, vec![vec![1, 2, 3], vec![4], vec![]]);
    let over = fill_buffers(vec![vec![1], vec![2]], 10);
    assert_eq!(over, vec![vec![1], vec![2]]);
}

#[test]
fn recvmsg_reports_sender() {
    let client = SocketAddr::V6 { ip: 1, port: 40000, flowinfo: 0, scope_id: 0 };
    let bufs = vec![b"He".to_vec(), b"ll".to_vec(), b"o!".to_vec()];
    let r = recvmsg_result(5, bufs, &encode(&client));
    assert_eq!(r, Ok((vec![b"He".to_vec(), b"ll".to_vec(), b"o".to_vec()], client)));
    assert_eq!(recvmsg_result(-4, vec![], &encode(&client)), Err(Error::IO(4)));
    assert_eq!(recvmsg_result(0, vec![], &vec![0u8; 28]), Err(Error::InvalidAddress));
}

#[test]
fn single_buffer_of_message() {
    let from = SocketAddr::V4 { ip: 0x7f00_0001, port: 1 };
    assert_eq!(single_buffer(Ok((vec![vec![7, 8]], from))), Ok((vec![7, 8], from)));
    assert_eq!(single_buffer(Ok((vec![], from))), Ok((vec![], from)));
    assert_eq!(single_buffer(Err(Error::IO(1))), Err(Error::IO(1)));
}

#[test]
fn error_messages() {
    assert_eq!(Error::Disconnected.message(), "client disconnected unexpectedly");
    assert_eq!(Error::from_result(-2), Error::IO(2));
}

#[test]
fn accept_reports_peer_address() {
    let peer = SocketAddr::V4 { ip: 0x7f00_0001, port: 51000 };
    assert_eq!(accept_peer_result(9, &encode(&peer)), Ok((9, Some(peer))));
    assert_eq!(accept_peer_result(9, &vec![0u8; 28]), Ok((9, None)));
    assert_eq!(accept_peer_result(-103, &encode(&peer)), Err(Error::IO(103)));
}
