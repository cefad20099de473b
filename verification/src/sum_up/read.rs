//! SumUp read requests.

use vstd::prelude::*;
use crate::bytes::{extend_bytes, u32_from_le, u32_to_le};
use crate::error::SumUpError;
use crate::index_group::IndexGroup;
use crate::index_offset::IndexOffset;
use crate::sum::read::{spec_sum_read_request_bytes, spec_sum_read_request_of};

verus! {

/// One read of a SumUp read request.
#[derive(Debug, Clone, Copy, PartialEq, Eq, Structural, Hash)]
pub struct SumReadReq {
    index_group: IndexGroup,
    index_offset: IndexOffset,
    length: u32,
}

impl SumReadReq {
    /// Wire size in bytes.
    pub const LENGTH: usize = 12;

    /// The fields as plain values: (index group, index offset, length).
    pub closed spec fn spec_fields(self) -> (u32, u32, u32) {
        (self.index_group.spec_value(), self.index_offset.spec_value(), self.length)
    }

    /// Creates a read request.
    pub fn new(index_group: IndexGroup, index_offset: IndexOffset, length: u32) -> (r: SumReadReq)
        ensures
            r.spec_fields() == (index_group.spec_value(), index_offset.spec_value(), length),
    {
        SumReadReq { index_group, index_offset, length }
    }

    /// The index group of the variable.
    pub fn index_group(&self) -> (r: IndexGroup)
        ensures
            r.spec_value() == self.spec_fields().0,
    {
        self.index_group
    }

    /// The index offset of the variable.
    pub fn index_offset(&self) -> (r: IndexOffset)
        ensures
            r.spec_value() == self.spec_fields().1,
    {
        self.index_offset
    }

    /// The number of bytes to read.
    pub fn length(&self) -> (r: u32)
        ensures
            r == self.spec_fields().2,
    {
        self.length
    }

    /// Appends the 12 wire bytes to a buffer.
    pub fn write_to(&self, buf: &mut Vec<u8>)
        ensures
            final(buf)@ == old(buf)@ + spec_sum_read_request_bytes(self.spec_fields()),
    {
        let b = self.to_bytes();
        extend_bytes(buf, b.as_slice());
    }

    /// Decodes a request from its 12 wire bytes.
    pub fn from_bytes(bytes: [u8; 12]) -> (r: SumReadReq)
        ensures
            r.spec_fields() == spec_sum_read_request_of(bytes@),
    {
        SumReadReq {
            index_group: IndexGroup::from_bytes([bytes[0], bytes[1], bytes[2], bytes[3]]),
            index_offset: IndexOffset::from_bytes([bytes[4], bytes[5], bytes[6], bytes[7]]),
            length: u32_from_le([bytes[8], bytes[9], bytes[10], bytes[11]]),
        }
    }

    /// The 12 wire bytes.
    pub fn to_bytes(&self) -> (r: [u8; 12])
        ensures
            r@ == spec_sum_read_request_bytes(self.spec_fields()),
    {
        let g = self.index_group.to_bytes();
        let o = self.index_offset.to_bytes();
        let l = u32_to_le(self.length);
        let r = [g[0], g[1], g[2], g[3], o[0], o[1], o[2], o[3], l[0], l[1], l[2], l[3]];
        assert(r@ =~= spec_sum_read_request_bytes(self.spec_fields()));
        r
    }

    /// Parses a request from a slice of exactly 12 bytes.
    pub fn try_from_slice(bytes: &[u8]) -> (r: Result<SumReadReq, SumUpError>)
        ensures
            bytes@.len() != 12 ==> r == Err::<SumReadReq, SumUpError>(
                SumUpError::UnexpectedLength { expected: 12, got: bytes@.len() as usize },
            ),
            bytes@.len() == 12 ==> (r matches Ok(q) && q.spec_fields() == spec_sum_read_request_of(bytes@)),
    {
        if bytes.len() != Self::LENGTH {
            return Err(SumUpError::UnexpectedLength { expected: Self::LENGTH, got: bytes.len() });
        }
        let buf = [
            bytes[0], bytes[1], bytes[2], bytes[3], bytes[4], bytes[5], bytes[6], bytes[7], bytes[8], bytes[9],
            bytes[10], bytes[11],
        ];
        assert(buf@ =~= bytes@);
        Ok(SumReadReq::from_bytes(buf))
    }
}

} // verus!
