//! SumUp write requests.

use vstd::prelude::*;
use crate::bytes::{extend_bytes, saturating_usize, seq_u32, u32_from_le, u32_to_le};
use crate::error::SumUpError;
use crate::index_group::IndexGroup;
use crate::index_offset::IndexOffset;
use crate::sum::write::spec_sum_write_header;

verus! {

/// One write of a SumUp write request, borrowing the data to write.
#[derive(Debug, Clone, Copy, PartialEq, Eq, Hash)]
pub struct SumWriteReq<'a> {
    index_group: IndexGroup,
    index_offset: IndexOffset,
    data: &'a [u8],
}

impl<'a> SumWriteReq<'a> {
    /// Size of the header in bytes.
    pub const HEADER_LENGTH: usize = 12;

    /// The fields as plain values: (index group, index offset, data).
    pub closed spec fn spec_fields(self) -> (u32, u32, Seq<u8>) {
        (self.index_group.spec_value(), self.index_offset.spec_value(), self.data@)
    }

    /// Creates a write request.
    pub fn new(index_group: IndexGroup, index_offset: IndexOffset, data: &'a [u8]) -> (r: SumWriteReq<'a>)
        ensures
            r.spec_fields() == (index_group.spec_value(), index_offset.spec_value(), data@),
    {
        SumWriteReq { index_group, index_offset, data }
    }

    /// The index group of the variable.
    pub fn index_group(&self) -> (r: IndexGroup)
        ensures
            r.spec_value() == self.spec_fields().0,
    {
        self.index_group
    }

    /// The index offset of the variable.
    pub fn index_offset(&self) -> (r: IndexOffset)
        ensures
            r.spec_value() == self.spec_fields().1,
    {
        self.index_offset
    }

    /// The data to write.
    pub fn data(&self) -> (r: &'a [u8])
        ensures
            r@ == self.spec_fields().2,
    {
        self.data
    }

    /// The 12 header bytes; the length is the data length truncated to 32 bits.
    pub fn header_to_bytes(&self) -> (r: [u8; 12])
        ensures
            r@ == spec_sum_write_header(self.spec_fields().0, self.spec_fields().1, self.spec_fields().2.len() as u32),
    {
        let g = self.index_group.to_bytes();
        let o = self.index_offset.to_bytes();
        let l = u32_to_le(self.data.len() as u32);
        let r = [g[0], g[1], g[2], g[3], o[0], o[1], o[2], o[3], l[0], l[1], l[2], l[3]];
        assert(r@ =~= spec_sum_write_header(
            self.spec_fields().0,
            self.spec_fields().1,
            self.spec_fields().2.len() as u32,
        ));
        r
    }

    /// Appends the 12 header bytes to a buffer (the data follows separately).
    pub fn write_header_to(&self, buf: &mut Vec<u8>)
        ensures
            final(buf)@ == old(buf)@ + spec_sum_write_header(
                self.spec_fields().0,
                self.spec_fields().1,
                self.spec_fields().2.len() as u32,
            ),
    {
        let h = self.header_to_bytes();
        extend_bytes(buf, h.as_slice());
    }

    /// Parses a request: a 12-byte header followed by the data.
    pub fn try_from_slice(bytes: &'a [u8]) -> (r: Result<SumWriteReq<'a>, SumUpError>)
        ensures
            bytes@.len() < 12 ==> r == Err::<SumWriteReq<'a>, SumUpError>(
                SumUpError::HeaderTooShort { expected: 12, got: bytes@.len() as usize },
            ),
            bytes@.len() >= 12 && bytes@.len() < 12 + seq_u32(bytes@, 8) ==> r == Err::<SumWriteReq<'a>, SumUpError>(
                SumUpError::PayloadTooShort { expected: saturating_usize(12 + seq_u32(bytes@, 8)), got: bytes@.len() as usize },
            ),
            bytes@.len() >= 12 + seq_u32(bytes@, 8) ==> (r matches Ok(q) && q.spec_fields() == (
                seq_u32(bytes@, 0),
                seq_u32(bytes@, 4),
                bytes@.subrange(12, 12 + seq_u32(bytes@, 8)),
            )),
    {
        let n = bytes.len();
        if n < Self::HEADER_LENGTH {
            return Err(SumUpError::HeaderTooShort { expected: Self::HEADER_LENGTH, got: n });
        }
        let index_group = IndexGroup::from_bytes([bytes[0], bytes[1], bytes[2], bytes[3]]);
        let index_offset = IndexOffset::from_bytes([bytes[4], bytes[5], bytes[6], bytes[7]]);
        let data_len = u32_from_le([bytes[8], bytes[9], bytes[10], bytes[11]]) as usize;
        if n - Self::HEADER_LENGTH < data_len {
            let expected = data_len.saturating_add(Self::HEADER_LENGTH);
            return Err(SumUpError::PayloadTooShort { expected, got: n });
        }
        Ok(SumWriteReq {
            index_group,
            index_offset,
            data: &bytes[Self::HEADER_LENGTH..Self::HEADER_LENGTH + data_len],
        })
    }
}

} // verus!
