//! Fixed-width binary layout of a game record.
//!
//! The record persists at a derived address as a tagged, byte-exact
//! structure: an 8-byte record tag, then every field in declared
//! order, integers little-endian. The layout is part of the wire
//! contract with the oracle binding, so it is stated once as a spec
//! (`encoded`) and both directions are proved against it: `encode`
//! produces exactly that image, `decode` validates the tag and length
//! on load and accepts exactly the images `encode` can produce.

use crate::record::GameState;
use vstd::bytes::lemma_auto_spec_u128_to_from_le_bytes;
use vstd::bytes::lemma_auto_spec_u64_to_from_le_bytes;
use vstd::bytes::spec_u128_from_le_bytes;
use vstd::bytes::spec_u128_to_le_bytes;
use vstd::bytes::spec_u64_from_le_bytes;
use vstd::bytes::spec_u64_to_le_bytes;
use vstd::bytes::u128_from_le_bytes;
use vstd::bytes::u128_to_le_bytes;
use vstd::bytes::u64_from_le_bytes;
use vstd::bytes::u64_to_le_bytes;
use vstd::prelude::*;
use vstd::slice::slice_index_get;
use vstd::slice::slice_subrange;

verus! {

/// Tag identifying a serialized game record; the ASCII bytes of
/// "COINGAME", read little-endian.
pub const RECORD_TAG: u64 = 0x454d_4147_4e49_4f43;

/// Total size of a serialized record: 8-byte tag, guess, nonce,
/// 8-byte bound, 32-byte buffer, 16-byte result, 8-byte timestamp,
/// 32-byte oracle identity.
pub const RECORD_LEN: usize = 106;

/// The unsigned 64-bit two's-complement image of a timestamp.
pub open spec fn i64_bits(t: i64) -> u64 {
    if t >= 0 {
        t as u64
    } else {
        (t + 0x1_0000_0000_0000_0000) as u64
    }
}

/// The timestamp whose two's-complement image the bits are.
pub open spec fn i64_of_bits(u: u64) -> i64 {
    if u < 0x8000_0000_0000_0000 {
        u as i64
    } else {
        (u - 0x1_0000_0000_0000_0000) as i64
    }
}

/// The two's-complement image is invertible: bits and timestamps are
/// in exact correspondence.
pub proof fn lemma_i64_bits_roundtrip(t: i64, u: u64)
    ensures
        i64_of_bits(i64_bits(t)) == t,
        i64_bits(i64_of_bits(u)) == u,
{
}

/// The byte-exact serialized image of a game record.
pub open spec fn encoded(s: GameState) -> Seq<u8> {
    spec_u64_to_le_bytes(RECORD_TAG) + seq![s.guess] + seq![s.bump] + spec_u64_to_le_bytes(
        s.max_result,
    ) + s.result_buffer@ + spec_u128_to_le_bytes(s.result) + spec_u64_to_le_bytes(
        i64_bits(s.timestamp),
    ) + s.vrf@
}

/// Every serialized record is exactly `RECORD_LEN` bytes long.
pub proof fn lemma_encoded_len(s: GameState)
    ensures
        encoded(s).len() == RECORD_LEN,
{
    lemma_auto_spec_u64_to_from_le_bytes();
    lemma_auto_spec_u128_to_from_le_bytes();
}

/// Appends a 32-byte field to the output image.
fn push_bytes32(out: &mut Vec<u8>, bytes: &[u8; 32])
    requires
        old(out)@.len() + 32 <= usize::MAX,
    ensures
        final(out)@ == old(out)@ + bytes@,
{
    let ghost prefix = out@;
    let mut i: usize = 0;
    while i < 32
        invariant
            0 <= i <= 32,
            out@ =~= prefix + bytes@.subrange(0, i as int),
        decreases 32 - i,
    {
        out.push(bytes[i]);
        proof {
            assert(bytes@.subrange(0, i + 1 as int) =~= bytes@.subrange(0, i as int).push(
                bytes@[i as int],
            ));
        }
        i = i + 1;
    }
    proof {
        assert(bytes@.subrange(0, 32) =~= bytes@);
    }
}

/// Reads a 32-byte field back out of a serialized image.
fn read_bytes32(bytes: &[u8], off: usize) -> (r: [u8; 32])
    requires
        off + 32 <= bytes@.len(),
        off + 32 <= usize::MAX,
    ensures
        r@ == bytes@.subrange(off as int, off as int + 32),
{
    let mut r: [u8; 32] = [0u8; 32];
    let mut i: usize = 0;
    while i < 32
        invariant
            0 <= i <= 32,
            off + 32 <= bytes@.len(),
            off + 32 <= usize::MAX,
            forall|j: int| 0 <= j < i ==> r@[j] == bytes@[off + j],
        decreases 32 - i,
    {
        let b: u8 = *slice_index_get(bytes, off + i);
        r[i] = b;
        i = i + 1;
    }
    proof {
        assert(r@ =~= bytes@.subrange(off as int, off as int + 32));
    }
    r
}

/// Serializes a game record into its byte-exact image.
pub fn encode(s: &GameState) -> (out: Vec<u8>)
    ensures
        out@ == encoded(*s),
        out@.len() == RECORD_LEN,
{
    proof {
        lemma_auto_spec_u64_to_from_le_bytes();
        lemma_auto_spec_u128_to_from_le_bytes();
    }
    let mut out: Vec<u8> = Vec::new();
    let mut tag = u64_to_le_bytes(RECORD_TAG);
    out.append(&mut tag);
    out.push(s.guess);
    out.push(s.bump);
    let mut bound = u64_to_le_bytes(s.max_result);
    out.append(&mut bound);
    push_bytes32(&mut out, &s.result_buffer);
    let mut result = u128_to_le_bytes(s.result);
    out.append(&mut result);
    let ts: i64 = s.timestamp;
    let bits: u64 = if ts >= 0 {
        ts as u64
    } else {
        ((ts as i128) + 0x1_0000_0000_0000_0000i128) as u64
    };
    let mut stamp = u64_to_le_bytes(bits);
    out.append(&mut stamp);
    push_bytes32(&mut out, &s.vrf);
    proof {
        assert(out@ =~= encoded(*s));
    }
    out
}

/// Deserializes a game record, validating length and tag on load.
/// Returns a record exactly when the bytes are a record's image, and
/// then the unique record with that image.
pub fn decode(bytes: &[u8]) -> (r: Option<GameState>)
    ensures
        r matches Some(s) ==> bytes@ == encoded(s),
        r is Some <==> (bytes@.len() == RECORD_LEN && bytes@.subrange(0, 8)
            == spec_u64_to_le_bytes(RECORD_TAG)),
{
    proof {
        lemma_auto_spec_u64_to_from_le_bytes();
        lemma_auto_spec_u128_to_from_le_bytes();
    }
    if bytes.len() != RECORD_LEN {
        return None;
    }
    let tag = u64_from_le_bytes(slice_subrange(bytes, 0, 8));
    if tag != RECORD_TAG {
        return None;
    }
    let guess: u8 = *slice_index_get(bytes, 8);
    let bump: u8 = *slice_index_get(bytes, 9);
    let max_result = u64_from_le_bytes(slice_subrange(bytes, 10, 18));
    let result_buffer = read_bytes32(bytes, 18);
    let result = u128_from_le_bytes(slice_subrange(bytes, 50, 66));
    let bits = u64_from_le_bytes(slice_subrange(bytes, 66, 74));
    let timestamp: i64 = if bits < 0x8000_0000_0000_0000u64 {
        bits as i64
    } else {
        ((bits as i128) - 0x1_0000_0000_0000_0000i128) as i64
    };
    let vrf = read_bytes32(bytes, 74);
    let s = GameState { guess, bump, max_result, result_buffer, result, timestamp, vrf };
    proof {
        assert(i64_bits(s.timestamp) == bits);
        assert(bytes@ =~= encoded(s));
    }
    Some(s)
}

/// The layout is injective: two records with the same image are the
/// same record, so nothing is lost by persisting it.
pub proof fn lemma_encoded_injective(s1: GameState, s2: GameState)
    requires
        encoded(s1) == encoded(s2),
    ensures
        s1 == s2,
{
    lemma_auto_spec_u64_to_from_le_bytes();
    lemma_auto_spec_u128_to_from_le_bytes();
    let e1 = encoded(s1);
    let e2 = encoded(s2);
    assert(e1.subrange(8, 9) =~= seq![s1.guess]);
    assert(e2.subrange(8, 9) =~= seq![s2.guess]);
    assert(e1.subrange(9, 10) =~= seq![s1.bump]);
    assert(e2.subrange(9, 10) =~= seq![s2.bump]);
    assert(e1.subrange(10, 18) =~= spec_u64_to_le_bytes(s1.max_result));
    assert(e2.subrange(10, 18) =~= spec_u64_to_le_bytes(s2.max_result));
    assert(e1.subrange(18, 50) =~= s1.result_buffer@);
    assert(e2.subrange(18, 50) =~= s2.result_buffer@);
    assert(e1.subrange(50, 66) =~= spec_u128_to_le_bytes(s1.result));
    assert(e2.subrange(50, 66) =~= spec_u128_to_le_bytes(s2.result));
    assert(e1.subrange(66, 74) =~= spec_u64_to_le_bytes(i64_bits(s1.timestamp)));
    assert(e2.subrange(66, 74) =~= spec_u64_to_le_bytes(i64_bits(s2.timestamp)));
    assert(e1.subrange(74, 106) =~= s1.vrf@);
    assert(e2.subrange(74, 106) =~= s2.vrf@);
    assert(seq![s1.guess] == seq![s2.guess]);
    assert(s1.guess == seq![s1.guess][0] && s2.guess == seq![s2.guess][0]);
    assert(s1.guess == s2.guess);
    assert(seq![s1.bump] == seq![s2.bump]);
    assert(s1.bump == seq![s1.bump][0] && s2.bump == seq![s2.bump][0]);
    assert(s1.bump == s2.bump);
    assert(spec_u64_from_le_bytes(spec_u64_to_le_bytes(s1.max_result)) == spec_u64_from_le_bytes(
        spec_u64_to_le_bytes(s2.max_result),
    ));
    assert(s1.max_result == s2.max_result);
    assert(s1.result_buffer =~= s2.result_buffer);
    assert(spec_u128_from_le_bytes(spec_u128_to_le_bytes(s1.result)) == spec_u128_from_le_bytes(
        spec_u128_to_le_bytes(s2.result),
    ));
    assert(s1.result == s2.result);
    assert(spec_u64_from_le_bytes(spec_u64_to_le_bytes(i64_bits(s1.timestamp)))
        == spec_u64_from_le_bytes(spec_u64_to_le_bytes(i64_bits(s2.timestamp))));
    assert(i64_bits(s1.timestamp) == i64_bits(s2.timestamp));
    lemma_i64_bits_roundtrip(s1.timestamp, 0);
    lemma_i64_bits_roundtrip(s2.timestamp, 0);
    assert(s1.timestamp == s2.timestamp);
    assert(s1.vrf =~= s2.vrf);
}

} // verus!
