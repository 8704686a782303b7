//! The SCALE encoding of the few values that the relays exchange with a node:
//! little-endian integers, booleans and fixed-size byte arrays. Encoding and
//! decoding are done by `parity-scale-codec`; this module states what they do.

use vstd::prelude::*;
use parity_scale_codec::{Decode, Encode};

verus! {

/// The error that `parity-scale-codec` reports when bytes do not decode.
#[verifier::external_type_specification]
#[verifier::external_body]
pub struct ExCodecError(parity_scale_codec::Error);

/// The unsigned integer whose little-endian bytes are `bytes`.
pub open spec fn le_value(bytes: Seq<u8>) -> int
    decreases bytes.len(),
{
    if bytes.len() == 0 {
        0
    } else {
        bytes[0] + 256 * le_value(bytes.drop_first())
    }
}

/// Little-endian order: a byte appended after `s` counts `256` to the power of
/// its position, so the first byte is the least significant and the last the
/// most significant.
pub proof fn lemma_le_value_append(s: Seq<u8>, b: u8)
    ensures
        le_value(s + seq![b]) == le_value(s) + b * vstd::arithmetic::power::pow(256, s.len()),
    decreases s.len(),
{
    reveal(vstd::arithmetic::power::pow);
    if s.len() == 0 {
        assert((s + seq![b]).drop_first() =~= Seq::<u8>::empty());
        assert(vstd::arithmetic::power::pow(256, 0) == 1);
        assert(le_value(Seq::<u8>::empty()) == 0);
        assert((s + seq![b])[0] == b);
        assert(le_value(s + seq![b]) == b);
        assert(b * 1int == b) by (nonlinear_arith);
    } else {
        let t = s.drop_first();
        assert((s + seq![b]).drop_first() =~= t + seq![b]);
        lemma_le_value_append(t, b);
        let p = vstd::arithmetic::power::pow(256, t.len());
        assert(vstd::arithmetic::power::pow(256, s.len()) == 256 * p);
        assert(256 * (b * p) == b * (256 * p)) by (nonlinear_arith);
        assert((s + seq![b])[0] == s[0]);
        assert(le_value(s + seq![b]) == s[0] + 256 * le_value(t + seq![b]));
        assert(le_value(s) == s[0] + 256 * le_value(t));
    }
}

/// The value of the little-endian `u64` at position `at` of `bytes`.
pub open spec fn u64_at(bytes: Seq<u8>, at: int) -> int {
    le_value(bytes.subrange(at, at + 8))
}

/// `<u64 as Decode>::decode` on a byte slice: it reads eight bytes and takes
/// them as a little-endian number; with fewer than eight bytes it fails.
/// Bytes after the first eight are left unread.
#[verifier::external_body]
pub(crate) fn decode_u64(bytes: &[u8]) -> (r: Result<u64, parity_scale_codec::Error>)
    ensures
        r is Ok <==> bytes@.len() >= 8,
        r matches Ok(v) ==> v == u64_at(bytes@, 0),
{
    <u64 as Decode>::decode(&mut &bytes[..])
}

/// `<bool as Decode>::decode` on a byte slice: it reads one byte, `0` is
/// `false`, `1` is `true`, and any other byte, or no byte at all, fails.
#[verifier::external_body]
pub(crate) fn decode_bool(bytes: &[u8]) -> (r: Result<bool, parity_scale_codec::Error>)
    ensures
        r is Ok <==> (bytes@.len() >= 1 && bytes@[0] <= 1),
        r matches Ok(v) ==> (v <==> bytes@[0] == 1),
{
    <bool as Decode>::decode(&mut &bytes[..])
}

/// `<(u64, [u8; 32]) as Decode>::decode` on a byte slice: a little-endian
/// `u64` from the first eight bytes, then the next thirty-two bytes as they
/// are; with fewer than forty bytes it fails.
#[verifier::external_body]
pub(crate) fn decode_u64_and_hash(bytes: &[u8]) -> (r: Result<
    (u64, [u8; 32]),
    parity_scale_codec::Error,
>)
    ensures
        r is Ok <==> bytes@.len() >= 40,
        r matches Ok(v) ==> (v.0 == u64_at(bytes@, 0) && v.1@ == bytes@.subrange(8, 40)),
{
    <(u64, [u8; 32]) as Decode>::decode(&mut &bytes[..])
}

/// `<(u64, u64, u64) as Decode>::decode` on a byte slice: three little-endian
/// `u64` from the first twenty-four bytes; with fewer bytes it fails.
#[verifier::external_body]
pub(crate) fn decode_three_u64(bytes: &[u8]) -> (r: Result<
    (u64, u64, u64),
    parity_scale_codec::Error,
>)
    ensures
        r is Ok <==> bytes@.len() >= 24,
        r matches Ok(v) ==> (v.0 == u64_at(bytes@, 0) && v.1 == u64_at(bytes@, 8) && v.2
            == u64_at(bytes@, 16)),
{
    <(u64, u64, u64) as Decode>::decode(&mut &bytes[..])
}

/// `<[u8; 4] as Encode>::encode`: a byte array is encoded as its bytes, with
/// no length in front.
#[verifier::external_body]
pub(crate) fn encode_bytes4(v: &[u8; 4]) -> (r: Vec<u8>)
    ensures
        r@ == v@,
{
    v.encode()
}

/// `<[u8; 32] as Encode>::encode`: a byte array is encoded as its bytes, with
/// no length in front.
#[verifier::external_body]
pub(crate) fn encode_bytes32(v: &[u8; 32]) -> (r: Vec<u8>)
    ensures
        r@ == v@,
{
    v.encode()
}

} // verus!
