//! Deterministic reduction of a 256-bit oracle buffer to a bounded
//! game result.
//!
//! Only the low-order 128 bits of the buffer are read, as a
//! little-endian unsigned integer; the result is `value % bound + 1`,
//! always in `[1, bound]`. When `2^128` is not a multiple of `bound`,
//! low results are marginally overrepresented; for a coin flip
//! (`bound == 2`) there is no bias.

use vstd::bytes::spec_u128_from_le_bytes;
use vstd::bytes::u128_from_le_bytes;
use vstd::prelude::*;
use vstd::slice::slice_subrange;

verus! {

/// The low-order 128 bits of a 256-bit buffer, read little-endian.
pub open spec fn low_u128(buffer: Seq<u8>) -> u128
    recommends
        buffer.len() >= 16,
{
    spec_u128_from_le_bytes(buffer.subrange(0, 16))
}

/// The reduced outcome of a buffer under a bound: `low % bound + 1`.
pub open spec fn reduce_spec(buffer: Seq<u8>, bound: u64) -> u128
    recommends
        bound >= 1,
        buffer.len() >= 16,
{
    (low_u128(buffer) % (bound as u128) + 1) as u128
}

/// Maps a 256-bit randomness buffer to a result in `[1, bound]`.
///
/// Pure and deterministic: the result is a function of the buffer's
/// low 128 bits and the bound alone.
pub fn reduce(buffer: &[u8; 32], bound: u64) -> (r: u128)
    requires
        bound >= 1,
    ensures
        r == reduce_spec(buffer@, bound),
        1 <= r && r <= bound as u128,
{
    let low_bytes: &[u8] = slice_subrange(buffer.as_slice(), 0, 16);
    let value: u128 = u128_from_le_bytes(low_bytes);
    value % (bound as u128) + 1
}

/// Reduction range: for every buffer and every bound of at least 1,
/// the reduced outcome lies in `[1, bound]`.
pub proof fn lemma_reduce_range(buffer: Seq<u8>, bound: u64)
    requires
        bound >= 1,
    ensures
        1 <= reduce_spec(buffer, bound),
        reduce_spec(buffer, bound) <= bound as u128,
{
}

/// Reduction determinism: equal buffers under equal bounds reduce to
/// the same outcome.
pub proof fn lemma_reduce_deterministic(b1: Seq<u8>, b2: Seq<u8>, bound: u64)
    requires
        bound >= 1,
        b1 == b2,
    ensures
        reduce_spec(b1, bound) == reduce_spec(b2, bound),
{
}

} // verus!
