//! Sum Write: many writes in one request, answered by one error code each.

use vstd::prelude::*;
use crate::bytes::{extend_bytes, lemma_u32_roundtrip, saturating_usize, seq_u32, u32_bytes, u32_from_le, u32_to_le};
use crate::error::SumError;
use crate::index_group::IndexGroup;
use crate::index_offset::IndexOffset;
use crate::return_codes::{ads_return_code_of, AdsReturnCode};

verus! {

/// The 12 header bytes of a write request: index group, index offset, data length.
pub open spec fn spec_sum_write_header(ig: u32, io: u32, length: u32) -> Seq<u8> {
    u32_bytes(ig) + u32_bytes(io) + u32_bytes(length)
}

/// The error reported for a buffer whose length is not a multiple of `k`:
/// the next multiple of `k` is expected.
pub open spec fn spec_not_multiple_error(len: nat, k: nat) -> SumError {
    SumError::UnexpectedLength { expected: saturating_usize(len + (k - len % k)), got: len as usize }
}

/// One write of a Sum Write request, borrowing the data to write.
#[derive(Debug, Clone, Copy, PartialEq, Eq, Hash)]
pub struct SumWriteRequest<'a> {
    index_group: IndexGroup,
    index_offset: IndexOffset,
    data: &'a [u8],
}

impl<'a> SumWriteRequest<'a> {
    /// Size of the header in bytes.
    pub const HEADER_LENGTH: usize = 12;

    /// The fields as plain values: (index group, index offset, data).
    pub closed spec fn spec_fields(self) -> (u32, u32, Seq<u8>) {
        (self.index_group.spec_value(), self.index_offset.spec_value(), self.data@)
    }

    /// Creates a write request.
    pub fn new(index_group: IndexGroup, index_offset: IndexOffset, data: &'a [u8]) -> (r: SumWriteRequest<'a>)
        ensures
            r.spec_fields() == (index_group.spec_value(), index_offset.spec_value(), data@),
    {
        SumWriteRequest { index_group, index_offset, data }
    }

    /// The index group of the variable.
    pub fn index_group(&self) -> (r: IndexGroup)
        ensures
            r.spec_value() == self.spec_fields().0,
    {
        self.index_group
    }

    /// The index offset of the variable.
    pub fn index_offset(&self) -> (r: IndexOffset)
        ensures
            r.spec_value() == self.spec_fields().1,
    {
        self.index_offset
    }

    /// The data to write.
    pub fn data(&self) -> (r: &'a [u8])
        ensures
            r@ == self.spec_fields().2,
    {
        self.data
    }

    /// The 12 header bytes; the length is the data length truncated to 32 bits.
    pub fn header_to_bytes(&self) -> (r: [u8; 12])
        ensures
            r@ == spec_sum_write_header(self.spec_fields().0, self.spec_fields().1, self.spec_fields().2.len() as u32),
    {
        let g = self.index_group.to_bytes();
        let o = self.index_offset.to_bytes();
        let l = u32_to_le(self.data.len() as u32);
        let r = [g[0], g[1], g[2], g[3], o[0], o[1], o[2], o[3], l[0], l[1], l[2], l[3]];
        assert(r@ =~= spec_sum_write_header(
            self.spec_fields().0,
            self.spec_fields().1,
            self.spec_fields().2.len() as u32,
        ));
        r
    }

    /// Appends the 12 header bytes to a buffer (the data follows separately).
    pub fn write_header_to(&self, buf: &mut Vec<u8>)
        ensures
            final(buf)@ == old(buf)@ + spec_sum_write_header(
                self.spec_fields().0,
                self.spec_fields().1,
                self.spec_fields().2.len() as u32,
            ),
    {
        let h = self.header_to_bytes();
        extend_bytes(buf, h.as_slice());
    }

    /// Parses a request: a 12-byte header followed by the data.
    pub fn try_from_slice(bytes: &'a [u8]) -> (r: Result<SumWriteRequest<'a>, SumError>)
        ensures
            bytes@.len() < 12 ==> r == Err::<SumWriteRequest<'a>, SumError>(
                SumError::HeaderTooShort { expected: 12, got: bytes@.len() as usize },
            ),
            bytes@.len() >= 12 && bytes@.len() < 12 + seq_u32(bytes@, 8) ==> r == Err::<SumWriteRequest<'a>, SumError>(
                SumError::PayloadTooShort { expected: saturating_usize(12 + seq_u32(bytes@, 8)), got: bytes@.len() as usize },
            ),
            bytes@.len() >= 12 + seq_u32(bytes@, 8) ==> (r matches Ok(q) && q.spec_fields() == (
                seq_u32(bytes@, 0),
                seq_u32(bytes@, 4),
                bytes@.subrange(12, 12 + seq_u32(bytes@, 8)),
            )),
    {
        let n = bytes.len();
        if n < Self::HEADER_LENGTH {
            return Err(SumError::HeaderTooShort { expected: Self::HEADER_LENGTH, got: n });
        }
        let index_group = IndexGroup::from_bytes([bytes[0], bytes[1], bytes[2], bytes[3]]);
        let index_offset = IndexOffset::from_bytes([bytes[4], bytes[5], bytes[6], bytes[7]]);
        let data_len = u32_from_le([bytes[8], bytes[9], bytes[10], bytes[11]]) as usize;
        if n - Self::HEADER_LENGTH < data_len {
            let expected = data_len.saturating_add(Self::HEADER_LENGTH);
            return Err(SumError::PayloadTooShort { expected, got: n });
        }
        Ok(SumWriteRequest {
            index_group,
            index_offset,
            data: &bytes[Self::HEADER_LENGTH..Self::HEADER_LENGTH + data_len],
        })
    }
}

/// The error code of item `i` of a buffer of 4-byte codes.
pub open spec fn spec_code_at(b: Seq<u8>, i: int) -> AdsReturnCode {
    ads_return_code_of(seq_u32(b, 4 * i))
}

/// The answer to a Sum Write request: one 4-byte error code per write.
#[derive(Debug, Clone, PartialEq, Eq, Hash)]
pub struct SumWriteResponse {
    buffer: Vec<u8>,
}

impl SumWriteResponse {
    /// The received buffer.
    pub closed spec fn spec_buffer(self) -> Seq<u8> {
        self.buffer@
    }

    /// Wraps a received buffer; fails when its length is not a multiple of 4.
    pub fn new(buf: Vec<u8>) -> (r: Result<SumWriteResponse, SumError>)
        ensures
            buf@.len() % 4 != 0 ==> r == Err::<SumWriteResponse, SumError>(spec_not_multiple_error(buf@.len(), 4)),
            buf@.len() % 4 == 0 ==> (r matches Ok(s) && s.spec_buffer() == buf@),
    {
        let n = buf.len();
        let rem = n % 4;
        if rem != 0 {
            return Err(SumError::UnexpectedLength { expected: n.saturating_add(4 - rem), got: n });
        }
        Ok(SumWriteResponse { buffer: buf })
    }

    /// A response with no codes.
    pub fn empty() -> (r: SumWriteResponse)
        ensures
            r.spec_buffer() == Seq::<u8>::empty(),
    {
        SumWriteResponse { buffer: Vec::new() }
    }

    /// The received buffer.
    pub fn buffer(&self) -> (r: &[u8])
        ensures
            r@ == self.spec_buffer(),
    {
        self.buffer.as_slice()
    }

    /// The number of codes.
    pub fn len(&self) -> (r: usize)
        ensures
            r == self.spec_buffer().len() / 4,
    {
        self.buffer.len() / 4
    }

    /// True when the response holds no bytes.
    pub fn is_empty(&self) -> (r: bool)
        ensures
            r == (self.spec_buffer().len() == 0),
    {
        self.buffer.len() == 0
    }

    /// The code of write `index`, or `None` past the last one.
    pub fn get(&self, index: usize) -> (r: Option<AdsReturnCode>)
        ensures
            index >= self.spec_buffer().len() / 4 ==> r is None,
            index < self.spec_buffer().len() / 4 ==> r == Some(spec_code_at(self.spec_buffer(), index as int)),
    {
        if index >= self.len() {
            return None;
        }
        let n = self.buffer.len();
        assert(4 * index + 4 <= self.spec_buffer().len()) by (nonlinear_arith)
            requires
                index < self.spec_buffer().len() / 4,
        ;
        let offset = index * 4;
        let code = u32_from_le([self.buffer[offset], self.buffer[offset + 1], self.buffer[offset + 2], self.buffer[offset + 3]]);
        Some(AdsReturnCode::from_u32(code))
    }

    /// A cursor over the codes.
    pub fn iter(&self) -> (r: SumWriteIter<'_>)
        ensures
            r.spec_buffer() == self.spec_buffer(),
            r.spec_cursor() == 0,
    {
        SumWriteIter { response: self, cursor: 0 }
    }
}

/// A cursor over the codes of a [`SumWriteResponse`].
pub struct SumWriteIter<'a> {
    response: &'a SumWriteResponse,
    cursor: usize,
}

impl<'a> SumWriteIter<'a> {
    /// The buffer of the response.
    pub closed spec fn spec_buffer(self) -> Seq<u8> {
        self.response.spec_buffer()
    }

    /// The index of the next code.
    pub closed spec fn spec_cursor(self) -> usize {
        self.cursor
    }

    /// The next code, or `None` after the last one.
    pub fn next(&mut self) -> (r: Option<AdsReturnCode>)
        ensures
            final(self).spec_buffer() == old(self).spec_buffer(),
            old(self).spec_cursor() >= old(self).spec_buffer().len() / 4 ==> r is None,
            old(self).spec_cursor() < old(self).spec_buffer().len() / 4 ==> r == Some(
                spec_code_at(old(self).spec_buffer(), old(self).spec_cursor() as int),
            ) && final(self).spec_cursor() == old(self).spec_cursor() + 1,
    {
        if self.cursor < self.response.len() {
            let value = self.response.get(self.cursor);
            self.cursor = self.cursor + 1;
            value
        } else {
            None
        }
    }
}

/// A write request written as its header and data parses back as the same
/// index group, index offset and data, for data of at most `u32::MAX` bytes.
pub proof fn lemma_sum_write_request_roundtrip(ig: u32, io: u32, data: Seq<u8>)
    requires
        data.len() <= u32::MAX,
    ensures
        ({
            let b = spec_sum_write_header(ig, io, data.len() as u32) + data;
            &&& b.len() >= 12 + seq_u32(b, 8)
            &&& (seq_u32(b, 0), seq_u32(b, 4), b.subrange(12, 12 + seq_u32(b, 8))) == (ig, io, data)
        }),
{
    let b = spec_sum_write_header(ig, io, data.len() as u32) + data;
    lemma_u32_roundtrip(ig);
    lemma_u32_roundtrip(io);
    lemma_u32_roundtrip(data.len() as u32);
    assert(seq_u32(b, 8) == data.len());
    assert(b.subrange(12, 12 + data.len() as int) =~= data);
}

} // verus!
