//! Little-endian integer codecs shared by every wire structure.

use vstd::prelude::*;
use std::array::TryFromSliceError;

verus! {

/// The `u16` whose little-endian bytes are `b0, b1`.
pub open spec fn le_u16(b0: u8, b1: u8) -> u16 {
    (b0 as int + 256 * (b1 as int)) as u16
}

/// The `u32` whose little-endian bytes are `b0 .. b3`.
pub open spec fn le_u32(b0: u8, b1: u8, b2: u8, b3: u8) -> u32 {
    (b0 as int + 256 * (b1 as int) + 65536 * (b2 as int) + 16777216 * (b3 as int)) as u32
}

/// The `u64` whose little-endian bytes are `b0 .. b7`.
pub open spec fn le_u64(b0: u8, b1: u8, b2: u8, b3: u8, b4: u8, b5: u8, b6: u8, b7: u8) -> u64 {
    (le_u32(b0, b1, b2, b3) as int + 4294967296 * (le_u32(b4, b5, b6, b7) as int)) as u64
}

/// The `u32` stored little-endian in `s` at offset `i`.
pub open spec fn seq_u32(s: Seq<u8>, i: int) -> u32 {
    le_u32(s[i], s[i + 1], s[i + 2], s[i + 3])
}

/// The `u64` stored little-endian in `s` at offset `i`.
pub open spec fn seq_u64(s: Seq<u8>, i: int) -> u64 {
    le_u64(s[i], s[i + 1], s[i + 2], s[i + 3], s[i + 4], s[i + 5], s[i + 6], s[i + 7])
}

/// Little-endian bytes of a `u16`.
pub open spec fn u16_bytes(x: u16) -> Seq<u8> {
    seq![(x % 256) as u8, (x / 256) as u8]
}

/// Little-endian bytes of a `u32`.
pub open spec fn u32_bytes(x: u32) -> Seq<u8> {
    seq![
        (x % 256) as u8,
        ((x / 256) % 256) as u8,
        ((x / 65536) % 256) as u8,
        (x / 16777216) as u8,
    ]
}

/// The 4-byte array holding the little-endian encoding of `v`.
pub open spec fn spec_u32_array(v: u32) -> [u8; 4] {
    choose|a: [u8; 4]| a@ == u32_bytes(v)
}

/// Little-endian bytes of a `u64`.
pub open spec fn u64_bytes(x: u64) -> Seq<u8> {
    u32_bytes((x % 4294967296) as u32) + u32_bytes((x / 4294967296) as u32)
}

/// The `i32` with the same bit pattern as `x`.
pub open spec fn u32_as_i32(x: u32) -> i32 {
    if x < 0x8000_0000 { x as i32 } else { (x as int - 0x1_0000_0000) as i32 }
}

/// The `u32` with the same bit pattern as `x`.
pub open spec fn i32_as_u32(x: i32) -> u32 {
    if x >= 0 { x as u32 } else { (x as int + 0x1_0000_0000) as u32 }
}

pub proof fn lemma_u16_roundtrip(x: u16)
    ensures
        le_u16(u16_bytes(x)[0], u16_bytes(x)[1]) == x,
{
}

pub proof fn lemma_u16_bytes_roundtrip(b0: u8, b1: u8)
    ensures
        u16_bytes(le_u16(b0, b1)) == seq![b0, b1],
{
    assert(u16_bytes(le_u16(b0, b1)) =~= seq![b0, b1]);
}

pub proof fn lemma_u32_roundtrip(x: u32)
    ensures
        le_u32(u32_bytes(x)[0], u32_bytes(x)[1], u32_bytes(x)[2], u32_bytes(x)[3]) == x,
{
}

pub proof fn lemma_u32_bytes_roundtrip(b0: u8, b1: u8, b2: u8, b3: u8)
    ensures
        u32_bytes(le_u32(b0, b1, b2, b3)) == seq![b0, b1, b2, b3],
{
    let x: int = b0 as int + 256 * (b1 as int) + 65536 * (b2 as int) + 16777216 * (b3 as int);
    let (c0, c1, c2, c3) = (b0 as int, b1 as int, b2 as int, b3 as int);
    assert(x % 256 == c0 && (x / 256) % 256 == c1 && (x / 65536) % 256 == c2 && x / 16777216 == c3)
        by (nonlinear_arith)
        requires
            0 <= c0 < 256,
            0 <= c1 < 256,
            0 <= c2 < 256,
            0 <= c3 < 256,
            x == c0 + 256 * c1 + 65536 * c2 + 16777216 * c3,
    ;
    assert(u32_bytes(le_u32(b0, b1, b2, b3)) =~= seq![b0, b1, b2, b3]);
}

/// Decodes a little-endian `u16`.
pub fn u16_from_le(b: [u8; 2]) -> (x: u16)
    ensures
        x == le_u16(b[0], b[1]),
{
    b[0] as u16 + (b[1] as u16) * 256
}

/// Encodes a `u16` little-endian.
pub fn u16_to_le(x: u16) -> (b: [u8; 2])
    ensures
        b@ == u16_bytes(x),
{
    let b = [(x % 256) as u8, (x / 256) as u8];
    assert(b@ =~= u16_bytes(x));
    b
}

/// Decodes a little-endian `u32`.
pub fn u32_from_le(b: [u8; 4]) -> (x: u32)
    ensures
        x == le_u32(b[0], b[1], b[2], b[3]),
{
    b[0] as u32 + (b[1] as u32) * 256 + (b[2] as u32) * 65536 + (b[3] as u32) * 16777216
}

/// Encodes a `u32` little-endian.
pub fn u32_to_le(x: u32) -> (b: [u8; 4])
    ensures
        b@ == u32_bytes(x),
{
    let b = [(x % 256) as u8, ((x / 256) % 256) as u8, ((x / 65536) % 256) as u8, (x / 16777216) as u8];
    assert(b@ =~= u32_bytes(x));
    b
}

/// Decodes a little-endian `u64`.
pub fn u64_from_le(b: [u8; 8]) -> (x: u64)
    ensures
        x == le_u64(b[0], b[1], b[2], b[3], b[4], b[5], b[6], b[7]),
{
    let lo = u32_from_le([b[0], b[1], b[2], b[3]]);
    let hi = u32_from_le([b[4], b[5], b[6], b[7]]);
    lo as u64 + (hi as u64) * 4294967296
}

/// Encodes a `u64` little-endian.
pub fn u64_to_le(x: u64) -> (b: [u8; 8])
    ensures
        b@ == u64_bytes(x),
{
    let lo = u32_to_le((x % 4294967296) as u32);
    let hi = u32_to_le((x / 4294967296) as u32);
    let b = [lo[0], lo[1], lo[2], lo[3], hi[0], hi[1], hi[2], hi[3]];
    assert(b@ =~= u64_bytes(x));
    b
}

/// Decodes a little-endian `i32`.
pub fn i32_from_le(b: [u8; 4]) -> (x: i32)
    ensures
        x == u32_as_i32(le_u32(b[0], b[1], b[2], b[3])),
{
    let u = u32_from_le(b);
    if u < 0x8000_0000 {
        u as i32
    } else {
        (u as i64 - 0x1_0000_0000i64) as i32
    }
}

/// Encodes an `i32` little-endian.
pub fn i32_to_le(x: i32) -> (b: [u8; 4])
    ensures
        b@ == u32_bytes(i32_as_u32(x)),
{
    let u: u32 = if x >= 0 { x as u32 } else { (x as i64 + 0x1_0000_0000i64) as u32 };
    u32_to_le(u)
}

pub proof fn lemma_u64_roundtrip(x: u64)
    ensures
        le_u64(
            u64_bytes(x)[0], u64_bytes(x)[1], u64_bytes(x)[2], u64_bytes(x)[3],
            u64_bytes(x)[4], u64_bytes(x)[5], u64_bytes(x)[6], u64_bytes(x)[7],
        ) == x,
{
    lemma_u32_roundtrip((x % 4294967296) as u32);
    lemma_u32_roundtrip((x / 4294967296) as u32);
}

pub proof fn lemma_i32_roundtrip(x: i32)
    ensures
        u32_as_i32(le_u32(u32_bytes(i32_as_u32(x))[0], u32_bytes(i32_as_u32(x))[1],
            u32_bytes(i32_as_u32(x))[2], u32_bytes(i32_as_u32(x))[3])) == x,
{
    lemma_u32_roundtrip(i32_as_u32(x));
}

/// The `u32` stored at offset `i` is `x` when the four bytes there are the encoding of `x`.
pub proof fn lemma_seq_u32_at(b: Seq<u8>, i: int, x: u32)
    requires
        0 <= i,
        i + 4 <= b.len(),
        b.subrange(i, i + 4) == u32_bytes(x),
    ensures
        seq_u32(b, i) == x,
{
    assert(b[i] == b.subrange(i, i + 4)[0]);
    assert(b[i + 1] == b.subrange(i, i + 4)[1]);
    assert(b[i + 2] == b.subrange(i, i + 4)[2]);
    assert(b[i + 3] == b.subrange(i, i + 4)[3]);
    lemma_u32_roundtrip(x);
}

/// `x` as a `usize`, saturating at `usize::MAX`.
pub open spec fn saturating_usize(x: int) -> usize {
    if x > usize::MAX { usize::MAX } else { x as usize }
}

/// Appends bytes to the end of a buffer.
pub fn extend_bytes(buf: &mut Vec<u8>, bytes: &[u8])
    ensures
        final(buf)@ == old(buf)@ + bytes@,
{
    buf.extend_from_slice(bytes);
    assert(buf@ =~= old(buf)@ + bytes@);
}

/// The bytes `b[start .. start + len]`, copied into an array of four.
pub fn array4_at(b: &[u8], start: usize) -> (r: [u8; 4])
    requires
        start + 4 <= b@.len(),
    ensures
        r@ == b@.subrange(start as int, start + 4),
{
    let r = [b[start], b[start + 1], b[start + 2], b[start + 3]];
    assert(r@ =~= b@.subrange(start as int, start + 4));
    r
}

#[verifier::external_type_specification]
#[verifier::external_body]
pub struct ExTryFromSliceError(TryFromSliceError);

/// Converts a slice into a 4-byte array with std's `TryFrom<&[u8]> for [u8; 4]`.
///
/// Trusted: std documents that the conversion succeeds exactly when the slice
/// has length 4, and then copies its elements.
#[verifier::external_body]
pub(crate) fn slice_to_array4(bytes: &[u8]) -> (r: Result<[u8; 4], TryFromSliceError>)
    ensures
        r is Ok <==> bytes@.len() == 4,
        r matches Ok(a) ==> a@ == bytes@,
{
    <[u8; 4]>::try_from(bytes)
}

/// A part of a concatenation that lies in its first piece.
pub proof fn lemma_subrange_left<T>(a: Seq<T>, b: Seq<T>, i: int, j: int)
    requires
        0 <= i <= j <= a.len(),
    ensures
        (a + b).subrange(i, j) == a.subrange(i, j),
{
    assert((a + b).subrange(i, j) =~= a.subrange(i, j));
}

/// A part of a concatenation that lies in its second piece.
pub proof fn lemma_subrange_right<T>(a: Seq<T>, b: Seq<T>, i: int, j: int)
    requires
        0 <= i <= j <= b.len(),
    ensures
        (a + b).subrange(a.len() + i, a.len() + j) == b.subrange(i, j),
{
    assert((a + b).subrange(a.len() + i, a.len() + j) =~= b.subrange(i, j));
}

} // verus!
