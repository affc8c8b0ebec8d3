//! Scatter/gather descriptors in the kernel's layout, as 64-bit words.
//!
//! An I/O vector is two words per buffer (base address, length). A message header is seven
//! words: name address, name length, I/O-vector address, I/O-vector count, control address,
//! control length and flags. The 32-bit name length and flags sit in the low half of their
//! words on the little-endian targets this runtime supports.

use vstd::prelude::*;

use crate::ptr::buffer_address_mut;

verus! {

/// The number of words of a message header.
pub const MSGHDR_WORDS: usize = 7;

/// The buffers' contents.
pub open spec fn deep(v: Seq<Vec<u8>>) -> Seq<Seq<u8>> {
    v.map_values(|b: Vec<u8>| b@)
}

/// Whether `iov` is the I/O vector of buffers with the contents `bufs`: two words per
/// buffer, the second holding its length.
pub open spec fn describes(iov: Seq<u64>, bufs: Seq<Seq<u8>>) -> bool {
    &&& iov.len() == 2 * bufs.len()
    &&& forall|i: int| 0 <= i < bufs.len() ==> #[trigger] iov[2 * i + 1] == bufs[i].len()
}

/// The message header describing a name of `name_len` bytes at `name` and `iov_count`
/// buffers described at `iov`, with no control data.
pub open spec fn msghdr_words(name: u64, name_len: u32, iov: u64, iov_count: nat) -> Seq<u64> {
    seq![name, name_len as u64, iov, iov_count as u64, 0u64, 0u64, 0u64]
}

/// Takes the buffers' heap addresses for the kernel to read or write, and lays out the I/O
/// vector describing them. The buffers themselves come back unchanged.
pub fn io_vectors(bufs: Vec<Vec<u8>>) -> (r: (Vec<Vec<u8>>, Vec<u64>))
    requires
        bufs@.len() <= usize::MAX / 2,
    ensures
        deep(r.0@) == deep(bufs@),
        r.0@.len() == bufs@.len(),
        r.1@.len() == 2 * bufs@.len(),
        forall|i: int| 0 <= i < bufs@.len() ==> #[trigger] r.1@[2 * i + 1] == bufs@[i]@.len(),
        describes(r.1@, deep(bufs@)),
{
    let mut src = bufs;
    let mut out: Vec<Vec<u8>> = Vec::new();
    let mut iov: Vec<u64> = Vec::new();
    while src.len() > 0
        invariant
            deep(bufs@) == deep(out@) + deep(src@),
            iov@.len() == 2 * out@.len(),
            forall|i: int| 0 <= i < out@.len() ==> #[trigger] iov@[2 * i + 1] == out@[i]@.len(),
        decreases src@.len(),
    {
        let ghost before_src = src@;
        let ghost before_out = out@;
        let mut b = src.remove(0);
        let base = buffer_address_mut(&mut b);
        let len = b.len() as u64;
        iov.push(base);
        iov.push(len);
        out.push(b);
        assert(deep(before_src) =~= seq![b@] + deep(src@));
        assert(deep(out@) =~= deep(before_out) + seq![b@]);
        assert forall|i: int| 0 <= i < out@.len() implies #[trigger] iov@[2 * i + 1]
            == out@[i]@.len() by {
            if i < before_out.len() {
                assert(iov@[2 * i + 1] == out@[i]@.len());
            }
        }
    }
    assert(deep(src@) =~= Seq::<Seq<u8>>::empty());
    assert(deep(bufs@) =~= deep(out@));
    assert(deep(bufs@).len() == bufs@.len() && deep(out@).len() == out@.len());
    assert forall|i: int| 0 <= i < bufs@.len() implies #[trigger] iov@[2 * i + 1]
        == bufs@[i]@.len() by {
        assert(deep(out@)[i] == deep(bufs@)[i]);
        assert(iov@[2 * i + 1] == out@[i]@.len());
    }
    (out, iov)
}

/// Lays out a message header, as `msghdr_words` says.
pub fn msghdr(name: u64, name_len: u32, iov: u64, iov_count: usize) -> (r: Vec<u64>)
    ensures
        r@ == msghdr_words(name, name_len, iov, iov_count as nat),
{
    let mut h: Vec<u64> = Vec::new();
    h.push(name);
    h.push(name_len as u64);
    h.push(iov);
    h.push(iov_count as u64);
    h.push(0);
    h.push(0);
    h.push(0);
    assert(h@ =~= msghdr_words(name, name_len, iov, iov_count as nat));
    h
}

} // verus!
