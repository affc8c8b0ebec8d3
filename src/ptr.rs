//! Addresses of heap buffers, as the plain integers a submission carries.
//!
//! A vector's heap buffer stays at one address while the vector is neither grown nor
//! dropped, even when the vector itself moves. Operations own every buffer whose address
//! they submit and do not resize it while the kernel may use it.

use vstd::prelude::*;

verus! {

/// Relies on `Vec::as_ptr`: the address of the vector's heap buffer, for the kernel to read.
#[verifier::external_body]
pub(crate) fn buffer_address<T>(v: &Vec<T>) -> (r: u64) {
    v.as_ptr() as u64
}

/// Relies on `Vec::as_mut_ptr`: the address of the vector's heap buffer, for the kernel to
/// write. Taking it leaves the vector as it was.
#[verifier::external_body]
pub(crate) fn buffer_address_mut<T>(v: &mut Vec<T>) -> (r: u64)
    ensures
        final(v)@ == old(v)@,
{
    v.as_mut_ptr() as u64
}

/// Relies on `std::hint::black_box`: it hands its argument back, and the compiler must
/// assume the value may have been read or changed meanwhile, as a buffer the kernel wrote
/// through its address has been. Only the length is relied on: the contents are what the
/// kernel put there.
#[verifier::external_body]
pub(crate) fn written_back(buf: Vec<u8>) -> (r: Vec<u8>)
    ensures
        r@.len() == buf@.len(),
{
    std::hint::black_box(buf)
}

} // verus!
