use libuio::net::addr::{decode, encode, encoded_len, storage, SocketAddr};

#[test]
fn encode_ipv4_layout() {
    let a = SocketAddr::V4 { ip: 0x7f00_0001, port: 8080 };
    let bytes = encode(&a);
    assert_eq!(
        bytes,
        vec![2, 0, 0x1f, 0x90, 127, 0, 0, 1, 0, 0, 0, 0, 0, 0, 0, 0]
    );
    assert_eq!(encoded_len(&a), 16);
}

#[test]
fn encode_ipv6_layout() {
    let a = SocketAddr::V6 { ip: 1, port: 9091, flowinfo: 0x0102_0304, scope_id: 7 };
    let bytes = encode(&a);
    let mut expected = vec![10, 0, 0x23, 0x83, 4, 3, 2, 1];
    expected.extend_from_slice(&[0; 15]);
    expected.push(1);
    expected.extend_from_slice(&[7, 0, 0, 0]);
    assert_eq!(bytes, expected);
    assert_eq!(encoded_len(&a), 28);
}

#[test]
fn encode_ipv6_octets_most_significant_first() {
    let ip: u128 = 0xfe80_0000_0000_0000_0001_0002_0003_0004;
    let bytes = encode(&SocketAddr::V6 { ip, port: 1, flowinfo: 0, scope_id: 0 });
    assert_eq!(&bytes[8..24], &[0xfe, 0x80, 0, 0, 0, 0, 0, 0, 0, 1, 0, 2, 0, 3, 0, 4]);
}

#[test]
fn round_trip_ipv4_and_ipv6() {
    let addrs = [
        SocketAddr::V4 { ip: 0, port: 0 },
        SocketAddr::V4 { ip: 0xc0a8_0101, port: 65535 },
        SocketAddr::V6 { ip: 1, port: 443, flowinfo: 0, scope_id: 0 },
        SocketAddr::V6 { ip: u128::MAX, port: 12, flowinfo: u32::MAX, scope_id: 3 },
    ];
    for a in addrs.iter() {
        assert_eq!(decode(&encode(a)), Some(*a));
    }
}

#[test]
fn decode_rejects_unknown_family_and_short_input() {
    assert_eq!(decode(&storage()), None);
    assert_eq!(decode(&vec![2]), None);
    assert_eq!(decode(&vec![2, 0, 0, 80]), None);
    let mut v6 = encode(&SocketAddr::V6 { ip: 1, port: 1, flowinfo: 0, scope_id: 0 });
    v6.truncate(27);
    assert_eq!(decode(&v6), None);
}

#[test]
fn storage_is_large_enough_for_ipv6() {
    assert_eq!(storage(), vec![0u8; 28]);
}
