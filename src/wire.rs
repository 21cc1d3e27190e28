//! Big-endian byte layout, and the calls into `bytes::BufMut` that append to
//! an output buffer.

use bytes::BufMut;
use vstd::prelude::*;

verus! {

/// The `nbytes` low-order bytes of `n`, most significant first.
pub open spec fn be_uint(n: u64, nbytes: nat) -> Seq<u8> {
    Seq::new(nbytes, |i: int| (n >> ((8 * (nbytes - 1 - i)) as u64)) as u8)
}

/// The four bytes of `n`, most significant first.
pub open spec fn be_u32(n: u32) -> Seq<u8> {
    be_uint(n as u64, 4)
}

/// The big-endian value of the first four bytes of `b`.
pub open spec fn be_u32_value(b: Seq<u8>) -> u32 {
    ((b[0] as u32) << 24u32) | ((b[1] as u32) << 16u32) | ((b[2] as u32) << 8u32) | (b[3] as u32)
}

/// Reading back the four bytes that `be_u32` gives returns the word.
pub proof fn lemma_be_u32_round_trip(n: u32)
    ensures
        be_u32(n).len() == 4,
        be_u32_value(be_u32(n)) == n,
{
    let b = be_u32(n);
    let w = n as u64;
    let (b0, b1, b2, b3) = (b[0], b[1], b[2], b[3]);
    assert(b0 == (w >> 24u64) as u8 && b1 == (w >> 16u64) as u8 && b2 == (w >> 8u64) as u8
        && b3 == (w >> 0u64) as u8);
    assert(((b0 as u32) << 24u32) | ((b1 as u32) << 16u32) | ((b2 as u32) << 8u32) | (b3 as u32)
        == n) by (bit_vector)
        requires
            w == n as u64,
            b0 == (w >> 24u64) as u8,
            b1 == (w >> 16u64) as u8,
            b2 == (w >> 8u64) as u8,
            b3 == (w >> 0u64) as u8,
    ;
}

/// Relies on `BufMut::put_u8` for `Vec<u8>`: appends the byte.
#[verifier::external_body]
pub(crate) fn put_u8(dst: &mut Vec<u8>, n: u8)
    requires
        old(dst)@.len() + 1 <= isize::MAX,
    ensures
        final(dst)@ == old(dst)@.push(n),
{
    dst.put_u8(n)
}

/// Relies on `BufMut::put_u32` for `Vec<u8>`: appends the four bytes of `n`,
/// most significant first.
#[verifier::external_body]
pub(crate) fn put_u32(dst: &mut Vec<u8>, n: u32)
    requires
        old(dst)@.len() + 4 <= isize::MAX,
    ensures
        final(dst)@ == old(dst)@ + be_u32(n),
{
    dst.put_u32(n)
}

/// Relies on `BufMut::put_uint` for `Vec<u8>`: appends the `nbytes` low-order
/// bytes of `n`, most significant first; it panics when `nbytes` exceeds 8.
#[verifier::external_body]
pub(crate) fn put_uint(dst: &mut Vec<u8>, n: u64, nbytes: usize)
    requires
        nbytes <= 8,
        old(dst)@.len() + nbytes <= isize::MAX,
    ensures
        final(dst)@ == old(dst)@ + be_uint(n, nbytes as nat),
{
    dst.put_uint(n, nbytes)
}

} // verus!
