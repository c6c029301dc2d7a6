//! Byte encodings of the pure arguments handed to system programs.
use vstd::prelude::*;
use crate::error::ObjectId;

verus! {

/// Longest sequence that the canonical encoding accepts.
pub const MAX_SEQUENCE_LENGTH: usize = 0x7fff_ffff;

/// Little-endian bytes of a 64-bit integer.
pub open spec fn u64_le_bytes(v: u64) -> Seq<u8> {
    Seq::new(8, |i: int| ((v >> (8 * i) as u64) & 0xff) as u8)
}

/// Big-endian bytes of a 64-bit integer.
pub open spec fn u64_be_bytes(v: u64) -> Seq<u8> {
    Seq::new(8, |i: int| ((v >> (8 * (7 - i)) as u64) & 0xff) as u8)
}

/// Variable-length encoding of a length: seven bits per byte, lowest first,
/// high bit set on every byte but the last.
pub open spec fn uleb128(v: nat) -> Seq<u8>
    decreases v,
{
    if v < 128 {
        seq![v as u8]
    } else {
        seq![((v % 128) + 128) as u8] + uleb128(v / 128)
    }
}

/// Canonical encoding of a byte vector: its length, then its bytes.
pub open spec fn byte_vec_encoding(b: Seq<u8>) -> Seq<u8> {
    uleb128(b.len()) + b
}

/// The 32 bytes of an object identifier: zero padding, then the identifier
/// in big-endian order.
pub open spec fn object_id_bytes(id: ObjectId) -> Seq<u8> {
    Seq::new(24, |i: int| 0u8) + u64_be_bytes(id)
}

/// Relies on `bcs::to_bytes` for a `u64`: the eight little-endian bytes. It
/// cannot fail on an integer.
#[verifier::external_body]
pub(crate) fn bcs_u64(v: u64) -> (r: Vec<u8>)
    ensures
        r@ == u64_le_bytes(v),
{
    bcs::to_bytes(&v).unwrap()
}

/// Relies on `bcs::to_bytes` for a `u8`: the byte itself. It cannot fail on
/// an integer.
#[verifier::external_body]
pub(crate) fn bcs_u8(v: u8) -> (r: Vec<u8>)
    ensures
        r@ == seq![v],
{
    bcs::to_bytes(&v).unwrap()
}

/// Relies on `bcs::to_bytes` for a `Vec<u8>`: the length as ULEB128, then the
/// bytes. It fails on a sequence longer than `bcs::MAX_SEQUENCE_LENGTH`.
#[verifier::external_body]
pub(crate) fn bcs_byte_vec(v: &Vec<u8>) -> (r: Option<Vec<u8>>)
    ensures
        v@.len() <= MAX_SEQUENCE_LENGTH ==> r is Some && r->Some_0@ == byte_vec_encoding(v@),
        v@.len() > MAX_SEQUENCE_LENGTH ==> r is None,
{
    bcs::to_bytes(v).ok()
}

/// The 32 bytes of an object identifier.
pub fn id_bytes(id: ObjectId) -> (r: Vec<u8>)
    ensures
        r@ == object_id_bytes(id),
{
    let mut r: Vec<u8> = Vec::new();
    let mut i: usize = 0;
    while i < 24
        invariant
            i <= 24,
            r@ == Seq::new(i as nat, |k: int| 0u8),
        decreases 24 - i,
    {
        r.push(0u8);
        i = i + 1;
        assert(r@ =~= Seq::new(i as nat, |k: int| 0u8));
    }
    let mut j: u64 = 0;
    while j < 8
        invariant
            j <= 8,
            r@ == Seq::new(24, |k: int| 0u8) + u64_be_bytes(id).take(j as int),
        decreases 8 - j,
    {
        r.push(((id >> (8 * (7 - j))) & 0xff) as u8);
        j = j + 1;
        assert(r@ =~= Seq::new(24, |k: int| 0u8) + u64_be_bytes(id).take(j as int));
    }
    assert(u64_be_bytes(id).take(8) =~= u64_be_bytes(id));
    r
}

} // verus!
