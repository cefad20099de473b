//! Array dimensions of data types.

use vstd::prelude::*;
use crate::bytes::{i32_from_le, i32_to_le, seq_u32, u32_as_i32, u32_bytes, i32_as_u32, u32_from_le, u32_to_le,
    lemma_seq_u32_at, lemma_u32_bytes_roundtrip};
use crate::error::AdsTypeInfoError;

verus! {

/// One dimension of an array type: its lower bound and element count.
///
/// Wire format (8 bytes): lower bound (`i32`), element count (`u32`), little-endian.
#[derive(Debug, Clone, Copy, PartialEq, Eq, Structural, Hash)]
pub struct AdsDataTypeArrayInfo {
    lower_bound: i32,
    element_count: u32,
}

/// The 8 wire bytes of a dimension.
pub open spec fn spec_array_info_bytes(lower_bound: i32, element_count: u32) -> Seq<u8> {
    u32_bytes(i32_as_u32(lower_bound)) + u32_bytes(element_count)
}

/// The (lower bound, element count) that 8 wire bytes encode.
pub open spec fn spec_array_info_of(b: Seq<u8>) -> (i32, u32) {
    (u32_as_i32(seq_u32(b, 0)), seq_u32(b, 4))
}

impl AdsDataTypeArrayInfo {
    /// Wire size in bytes.
    pub const LENGTH: usize = 8;

    /// The fields as plain values: (lower bound, element count).
    pub closed spec fn spec_fields(self) -> (i32, u32) {
        (self.lower_bound, self.element_count)
    }

    /// Creates a dimension.
    pub fn new(lower_bound: i32, element_count: u32) -> (r: AdsDataTypeArrayInfo)
        ensures
            r.spec_fields() == (lower_bound, element_count),
    {
        AdsDataTypeArrayInfo { lower_bound, element_count }
    }

    /// The lower bound (often 0 or 1, possibly negative).
    pub fn lower_bound(&self) -> (r: i32)
        ensures
            r == self.spec_fields().0,
    {
        self.lower_bound
    }

    /// The number of elements.
    pub fn element_count(&self) -> (r: u32)
        ensures
            r == self.spec_fields().1,
    {
        self.element_count
    }

    /// Parses a dimension from a slice of exactly 8 bytes.
    pub fn try_from_slice(data: &[u8]) -> (r: Result<AdsDataTypeArrayInfo, AdsTypeInfoError>)
        ensures
            data@.len() != 8 ==> r == Err::<AdsDataTypeArrayInfo, AdsTypeInfoError>(
                AdsTypeInfoError::TooShort { expected: 8, got: data@.len() as usize },
            ),
            data@.len() == 8 ==> (r matches Ok(a) && a.spec_fields() == spec_array_info_of(data@)),
    {
        if data.len() != Self::LENGTH {
            return Err(AdsTypeInfoError::TooShort { expected: Self::LENGTH, got: data.len() });
        }
        Ok(AdsDataTypeArrayInfo {
            lower_bound: i32_from_le([data[0], data[1], data[2], data[3]]),
            element_count: u32_from_le([data[4], data[5], data[6], data[7]]),
        })
    }

    /// The 8 wire bytes.
    pub fn to_bytes(&self) -> (r: [u8; 8])
        ensures
            r@ == spec_array_info_bytes(self.spec_fields().0, self.spec_fields().1),
    {
        let l = i32_to_le(self.lower_bound);
        let c = u32_to_le(self.element_count);
        let r = [l[0], l[1], l[2], l[3], c[0], c[1], c[2], c[3]];
        assert(r@ =~= spec_array_info_bytes(self.spec_fields().0, self.spec_fields().1));
        r
    }
}

/// Encoding a dimension and decoding the bytes gives it back.
pub proof fn lemma_array_info_roundtrip(lower_bound: i32, element_count: u32)
    ensures
        spec_array_info_bytes(lower_bound, element_count).len() == 8,
        spec_array_info_of(spec_array_info_bytes(lower_bound, element_count)) == (lower_bound, element_count),
{
    let b = spec_array_info_bytes(lower_bound, element_count);
    assert(b.subrange(0, 4) =~= u32_bytes(i32_as_u32(lower_bound)));
    assert(b.subrange(4, 8) =~= u32_bytes(element_count));
    lemma_seq_u32_at(b, 0, i32_as_u32(lower_bound));
    lemma_seq_u32_at(b, 4, element_count);
}

/// Decoding 8 bytes and encoding the dimension gives the bytes back.
pub proof fn lemma_array_info_bytes_roundtrip(b: Seq<u8>)
    requires
        b.len() == 8,
    ensures
        spec_array_info_bytes(spec_array_info_of(b).0, spec_array_info_of(b).1) == b,
{
    lemma_u32_bytes_roundtrip(b[0], b[1], b[2], b[3]);
    lemma_u32_bytes_roundtrip(b[4], b[5], b[6], b[7]);
    assert(i32_as_u32(u32_as_i32(seq_u32(b, 0))) == seq_u32(b, 0));
    assert(spec_array_info_bytes(spec_array_info_of(b).0, spec_array_info_of(b).1) =~= b);
}

} // verus!
