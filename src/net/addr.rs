//! Socket addresses and their kernel encoding (`sockaddr_in` / `sockaddr_in6`).
//!
//! Multi-byte fields that the kernel keeps in host order are written little-endian, the
//! byte order of the targets this runtime supports.

use vstd::prelude::*;

verus! {

/// The kernel's address family number for IPv4.
pub const AF_INET: u16 = 2;

/// The kernel's address family number for IPv6.
pub const AF_INET6: u16 = 10;

/// The size of an encoded IPv4 socket address.
pub const SOCKADDR_IN_LEN: usize = 16;

/// The size of an encoded IPv6 socket address, which is also the size of the storage an
/// operation provides for an address the kernel writes.
pub const SOCKADDR_IN6_LEN: usize = 28;

/// An IPv4 or IPv6 socket address. Host addresses are held as their bits, the first octet
/// being the most significant.
#[allow(inconsistent_fields)]
#[derive(Debug, Clone, Copy, PartialEq, Eq, Structural)]
pub enum SocketAddr {
    V4 { ip: u32, port: u16 },
    V6 { ip: u128, port: u16, flowinfo: u32, scope_id: u32 },
}

/// `n` zero bytes.
pub open spec fn zeros(n: nat) -> Seq<u8> {
    Seq::new(n, |_i: int| 0u8)
}

/// Two bytes, least significant first.
pub open spec fn le16(x: u16) -> Seq<u8> {
    seq![(x & 0xff) as u8, (x >> 8) as u8]
}

/// Two bytes, most significant first.
pub open spec fn be16(x: u16) -> Seq<u8> {
    seq![(x >> 8) as u8, (x & 0xff) as u8]
}

/// Four bytes, least significant first.
pub open spec fn le32(x: u32) -> Seq<u8> {
    seq![(x & 0xff) as u8, ((x >> 8) & 0xff) as u8, ((x >> 16) & 0xff) as u8, (x >> 24) as u8]
}

/// Four bytes, most significant first.
pub open spec fn be32(x: u32) -> Seq<u8> {
    seq![(x >> 24) as u8, ((x >> 16) & 0xff) as u8, ((x >> 8) & 0xff) as u8, (x & 0xff) as u8]
}

/// Sixteen bytes, most significant first.
pub open spec fn be128(x: u128) -> Seq<u8> {
    be32((x >> 96) as u32) + be32(((x >> 64) & 0xffff_ffff) as u32) + be32(
        ((x >> 32) & 0xffff_ffff) as u32,
    ) + be32((x & 0xffff_ffff) as u32)
}

/// The kernel encoding of a socket address.
pub open spec fn sockaddr_bytes(a: SocketAddr) -> Seq<u8> {
    match a {
        SocketAddr::V4 { ip, port } => le16(AF_INET) + be16(port) + be32(ip) + zeros(8),
        SocketAddr::V6 { ip, port, flowinfo, scope_id } => le16(AF_INET6) + be16(port) + le32(
            flowinfo,
        ) + be128(ip) + le32(scope_id),
    }
}

/// The value of two bytes, least significant first.
pub open spec fn read_le16(b0: u8, b1: u8) -> u16 {
    (b0 as u16) | ((b1 as u16) << 8)
}

/// The value of two bytes, most significant first.
pub open spec fn read_be16(b0: u8, b1: u8) -> u16 {
    ((b0 as u16) << 8) | (b1 as u16)
}

/// The value of four bytes, most significant first.
pub open spec fn read_be32(b0: u8, b1: u8, b2: u8, b3: u8) -> u32 {
    ((b0 as u32) << 24) | ((b1 as u32) << 16) | ((b2 as u32) << 8) | (b3 as u32)
}

/// The value of four bytes, least significant first.
pub open spec fn read_le32(b0: u8, b1: u8, b2: u8, b3: u8) -> u32 {
    read_be32(b3, b2, b1, b0)
}

/// The value of the four bytes of `b` starting at `i`, most significant first.
pub open spec fn be32_at(b: Seq<u8>, i: int) -> u32 {
    read_be32(b[i], b[i + 1], b[i + 2], b[i + 3])
}

/// The value of the four bytes of `b` starting at `i`, least significant first.
pub open spec fn le32_at(b: Seq<u8>, i: int) -> u32 {
    read_le32(b[i], b[i + 1], b[i + 2], b[i + 3])
}

/// The value of sixteen bytes of `b` starting at `i`, most significant first.
pub open spec fn be128_at(b: Seq<u8>, i: int) -> u128 {
    ((be32_at(b, i) as u128) << 96) | ((be32_at(b, i + 4) as u128) << 64) | ((be32_at(b, i + 8)
        as u128) << 32) | (be32_at(b, i + 12) as u128)
}

/// The socket address that kernel-encoded bytes describe, if they hold one.
pub open spec fn sockaddr_of(b: Seq<u8>) -> Option<SocketAddr> {
    if b.len() >= 2 && read_le16(b[0], b[1]) == AF_INET && b.len() >= SOCKADDR_IN_LEN {
        Some(SocketAddr::V4 { ip: be32_at(b, 4), port: read_be16(b[2], b[3]) })
    } else if b.len() >= 2 && read_le16(b[0], b[1]) == AF_INET6 && b.len() >= SOCKADDR_IN6_LEN {
        Some(
            SocketAddr::V6 {
                ip: be128_at(b, 8),
                port: read_be16(b[2], b[3]),
                flowinfo: le32_at(b, 4),
                scope_id: le32_at(b, 24),
            },
        )
    } else {
        None
    }
}

proof fn lemma_le16(x: u16)
    ensures
        read_le16(le16(x)[0], le16(x)[1]) == x,
{
    let b0 = (x & 0xff) as u8;
    let b1 = (x >> 8) as u8;
    assert(((b0 as u16) | ((b1 as u16) << 8)) == x) by (bit_vector)
        requires
            b0 == (x & 0xff) as u8,
            b1 == (x >> 8) as u8,
    ;
}

proof fn lemma_be16(x: u16)
    ensures
        read_be16(be16(x)[0], be16(x)[1]) == x,
{
    let b0 = (x >> 8) as u8;
    let b1 = (x & 0xff) as u8;
    assert((((b0 as u16) << 8) | (b1 as u16)) == x) by (bit_vector)
        requires
            b0 == (x >> 8) as u8,
            b1 == (x & 0xff) as u8,
    ;
}

proof fn lemma_be32(x: u32)
    ensures
        read_be32(be32(x)[0], be32(x)[1], be32(x)[2], be32(x)[3]) == x,
        read_le32(le32(x)[0], le32(x)[1], le32(x)[2], le32(x)[3]) == x,
{
    let b0 = (x >> 24) as u8;
    let b1 = ((x >> 16) & 0xff) as u8;
    let b2 = ((x >> 8) & 0xff) as u8;
    let b3 = (x & 0xff) as u8;
    assert((((b0 as u32) << 24) | ((b1 as u32) << 16) | ((b2 as u32) << 8) | (b3 as u32)) == x)
        by (bit_vector)
        requires
            b0 == (x >> 24) as u8,
            b1 == ((x >> 16) & 0xff) as u8,
            b2 == ((x >> 8) & 0xff) as u8,
            b3 == (x & 0xff) as u8,
    ;
}

proof fn lemma_be128(x: u128)
    ensures
        forall|b: Seq<u8>, i: int|
            0 <= i && i + 16 <= b.len() && b.subrange(i, i + 16) == be128(x) ==> be128_at(b, i)
                == x,
{
    let w0 = (x >> 96) as u32;
    let w1 = ((x >> 64) & 0xffff_ffff) as u32;
    let w2 = ((x >> 32) & 0xffff_ffff) as u32;
    let w3 = (x & 0xffff_ffff) as u32;
    lemma_be32(w0);
    lemma_be32(w1);
    lemma_be32(w2);
    lemma_be32(w3);
    assert((((w0 as u128) << 96) | ((w1 as u128) << 64) | ((w2 as u128) << 32) | (w3 as u128))
        == x) by (bit_vector)
        requires
            w0 == (x >> 96) as u32,
            w1 == ((x >> 64) & 0xffff_ffff) as u32,
            w2 == ((x >> 32) & 0xffff_ffff) as u32,
            w3 == (x & 0xffff_ffff) as u32,
    ;
    assert forall|b: Seq<u8>, i: int|
        0 <= i && i + 16 <= b.len() && b.subrange(i, i + 16) == be128(x) implies be128_at(b, i)
            == x by {
        let s = b.subrange(i, i + 16);
        assert(s[0] == b[i] && s[1] == b[i + 1] && s[2] == b[i + 2] && s[3] == b[i + 3]);
        assert(s[4] == b[i + 4] && s[5] == b[i + 5] && s[6] == b[i + 6] && s[7] == b[i + 7]);
        assert(s[8] == b[i + 8] && s[9] == b[i + 9] && s[10] == b[i + 10] && s[11] == b[i + 11]);
        assert(s[12] == b[i + 12] && s[13] == b[i + 13] && s[14] == b[i + 14] && s[15] == b[i
            + 15]);
        assert(be32_at(b, i) == w0);
        assert(be32_at(b, i + 4) == w1);
        assert(be32_at(b, i + 8) == w2);
        assert(be32_at(b, i + 12) == w3);
    }
}

/// Decoding the kernel encoding of a socket address gives back that address.
pub proof fn lemma_sockaddr_round_trip(a: SocketAddr)
    ensures
        sockaddr_of(sockaddr_bytes(a)) == Some(a),
{
    let b = sockaddr_bytes(a);
    match a {
        SocketAddr::V4 { ip, port } => {
            lemma_le16(AF_INET);
            lemma_be16(port);
            lemma_be32(ip);
            assert(b.len() == 16);
            assert(b[0] == le16(AF_INET)[0] && b[1] == le16(AF_INET)[1]);
            assert(b[2] == be16(port)[0] && b[3] == be16(port)[1]);
            assert(b[4] == be32(ip)[0] && b[5] == be32(ip)[1] && b[6] == be32(ip)[2] && b[7]
                == be32(ip)[3]);
        },
        SocketAddr::V6 { ip, port, flowinfo, scope_id } => {
            lemma_le16(AF_INET6);
            lemma_be16(port);
            lemma_be32(flowinfo);
            lemma_be32(scope_id);
            lemma_be128(ip);
            assert(AF_INET6 != AF_INET);
            assert(b.len() == 28);
            assert(b[0] == le16(AF_INET6)[0] && b[1] == le16(AF_INET6)[1]);
            assert(b[2] == be16(port)[0] && b[3] == be16(port)[1]);
            assert(b[4] == le32(flowinfo)[0] && b[5] == le32(flowinfo)[1] && b[6] == le32(
                flowinfo,
            )[2] && b[7] == le32(flowinfo)[3]);
            assert(b.subrange(8, 24) == be128(ip));
            assert(b[24] == le32(scope_id)[0] && b[25] == le32(scope_id)[1] && b[26] == le32(
                scope_id,
            )[2] && b[27] == le32(scope_id)[3]);
        },
    }
}

fn push_le16(v: &mut Vec<u8>, x: u16)
    ensures
        final(v)@ == old(v)@ + le16(x),
{
    v.push((x & 0xff) as u8);
    v.push((x >> 8) as u8);
    assert(final(v)@ =~= old(v)@ + le16(x));
}

fn push_be16(v: &mut Vec<u8>, x: u16)
    ensures
        final(v)@ == old(v)@ + be16(x),
{
    v.push((x >> 8) as u8);
    v.push((x & 0xff) as u8);
    assert(final(v)@ =~= old(v)@ + be16(x));
}

fn push_le32(v: &mut Vec<u8>, x: u32)
    ensures
        final(v)@ == old(v)@ + le32(x),
{
    v.push((x & 0xff) as u8);
    v.push(((x >> 8) & 0xff) as u8);
    v.push(((x >> 16) & 0xff) as u8);
    v.push((x >> 24) as u8);
    assert(final(v)@ =~= old(v)@ + le32(x));
}

fn push_be32(v: &mut Vec<u8>, x: u32)
    ensures
        final(v)@ == old(v)@ + be32(x),
{
    v.push((x >> 24) as u8);
    v.push(((x >> 16) & 0xff) as u8);
    v.push(((x >> 8) & 0xff) as u8);
    v.push((x & 0xff) as u8);
    assert(final(v)@ =~= old(v)@ + be32(x));
}

/// The kernel encoding of `addr`.
pub fn encode(addr: &SocketAddr) -> (r: Vec<u8>)
    ensures
        r@ == sockaddr_bytes(*addr),
{
    let mut v: Vec<u8> = Vec::new();
    match *addr {
        SocketAddr::V4 { ip, port } => {
            push_le16(&mut v, AF_INET);
            push_be16(&mut v, port);
            push_be32(&mut v, ip);
            let mut i: usize = 0;
            while i < 8
                invariant
                    i <= 8,
                    v@ == le16(AF_INET) + be16(port) + be32(ip) + zeros(i as nat),
                decreases 8 - i,
            {
                v.push(0u8);
                i = i + 1;
                assert(v@ =~= le16(AF_INET) + be16(port) + be32(ip) + zeros(i as nat));
            }
        },
        SocketAddr::V6 { ip, port, flowinfo, scope_id } => {
            push_le16(&mut v, AF_INET6);
            push_be16(&mut v, port);
            push_le32(&mut v, flowinfo);
            push_be32(&mut v, (ip >> 96) as u32);
            push_be32(&mut v, ((ip >> 64) & 0xffff_ffff) as u32);
            push_be32(&mut v, ((ip >> 32) & 0xffff_ffff) as u32);
            push_be32(&mut v, (ip & 0xffff_ffff) as u32);
            push_le32(&mut v, scope_id);
            assert(v@ =~= sockaddr_bytes(*addr));
        },
    }
    v
}

/// The length of the kernel encoding of `addr`.
pub fn encoded_len(addr: &SocketAddr) -> (n: u32)
    ensures
        n == sockaddr_bytes(*addr).len(),
{
    match addr {
        SocketAddr::V4 { .. } => 16,
        SocketAddr::V6 { .. } => 28,
    }
}

/// Zeroed storage large enough for any address the kernel writes back.
pub fn storage() -> (r: Vec<u8>)
    ensures
        r@ == zeros(SOCKADDR_IN6_LEN as nat),
{
    let mut v: Vec<u8> = Vec::new();
    let mut i: usize = 0;
    while i < SOCKADDR_IN6_LEN
        invariant
            i <= SOCKADDR_IN6_LEN,
            v@ == zeros(i as nat),
        decreases SOCKADDR_IN6_LEN - i,
    {
        v.push(0u8);
        i = i + 1;
        assert(v@ =~= zeros(i as nat));
    }
    v
}

fn read_be32_at(b: &Vec<u8>, i: usize) -> (r: u32)
    requires
        i <= 24,
        i + 4 <= b@.len(),
    ensures
        r == be32_at(b@, i as int),
{
    ((b[i] as u32) << 24) | ((b[i + 1] as u32) << 16) | ((b[i + 2] as u32) << 8) | (b[i
        + 3] as u32)
}

fn read_le32_at(b: &Vec<u8>, i: usize) -> (r: u32)
    requires
        i <= 24,
        i + 4 <= b@.len(),
    ensures
        r == le32_at(b@, i as int),
{
    ((b[i + 3] as u32) << 24) | ((b[i + 2] as u32) << 16) | ((b[i + 1] as u32) << 8) | (b[i] as u32)
}

/// The socket address held in kernel-encoded bytes, if they hold an IPv4 or IPv6 one.
pub fn decode(b: &Vec<u8>) -> (r: Option<SocketAddr>)
    ensures
        r == sockaddr_of(b@),
{
    if b.len() < 2 {
        return None;
    }
    let family = (b[0] as u16) | ((b[1] as u16) << 8);
    if family == AF_INET && b.len() >= SOCKADDR_IN_LEN {
        let port = ((b[2] as u16) << 8) | (b[3] as u16);
        Some(SocketAddr::V4 { ip: read_be32_at(b, 4), port })
    } else if family == AF_INET6 && b.len() >= SOCKADDR_IN6_LEN {
        let port = ((b[2] as u16) << 8) | (b[3] as u16);
        let ip = ((read_be32_at(b, 8) as u128) << 96) | ((read_be32_at(b, 12) as u128) << 64) | ((
        read_be32_at(b, 16) as u128) << 32) | (read_be32_at(b, 20) as u128);
        Some(
            SocketAddr::V6 {
                ip,
                port,
                flowinfo: read_le32_at(b, 4),
                scope_id: read_le32_at(b, 24),
            },
        )
    } else {
        None
    }
}

} // verus!
