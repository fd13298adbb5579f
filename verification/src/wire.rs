//! Little-endian byte helpers shared by the fixed-size wire records.

use vstd::bytes::{spec_u64_to_le_bytes, u64_to_le_bytes};
use vstd::prelude::*;

verus! {

/// Encode `x` as its 8 little-endian bytes in a fixed array.
pub fn u64_to_le8(x: u64) -> (out: [u8; 8])
    ensures
        out@ == spec_u64_to_le_bytes(x),
{
    let v = u64_to_le_bytes(x);
    let out: [u8; 8] = [v[0], v[1], v[2], v[3], v[4], v[5], v[6], v[7]];
    proof {
        assert(out@ =~= spec_u64_to_le_bytes(x));
    }
    out
}

/// Copy `N` bytes out of `src` starting at `offset`.
pub fn read_bytes<const N: usize>(src: &[u8], offset: usize) -> (out: [u8; N])
    requires
        offset + N <= src@.len(),
    ensures
        out@ == src@.subrange(offset as int, offset + N),
{
    let src_len = src.len();
    let mut out: [u8; N] = [0u8; N];
    let mut i: usize = 0;
    while i < N
        invariant
            i <= N,
            offset + N <= src_len == src@.len(),
            out@.len() == N,
            forall|j: int| 0 <= j < i ==> out@[j] == src@[offset + j],
        decreases N - i,
    {
        out[i] = src[offset + i];
        i += 1;
    }
    proof {
        assert(out@ =~= src@.subrange(offset as int, offset + N));
    }
    out
}

/// Append every byte of `src` to `dst`.
pub fn push_bytes(dst: &mut Vec<u8>, src: &[u8])
    ensures
        final(dst)@ == old(dst)@ + src@,
{
    let mut i: usize = 0;
    while i < src.len()
        invariant
            i <= src@.len(),
            dst@ == old(dst)@ + src@.subrange(0, i as int),
        decreases src@.len() - i,
    {
        dst.push(src[i]);
        proof {
            assert(dst@ =~= old(dst)@ + src@.subrange(0, i + 1));
        }
        i += 1;
    }
    proof {
        assert(src@.subrange(0, src@.len() as int) =~= src@);
    }
}

} // verus!
