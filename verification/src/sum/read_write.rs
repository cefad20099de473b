//! Sum Read/Write: many write-then-read exchanges in one request.

use vstd::prelude::*;
use crate::bytes::{extend_bytes, lemma_u32_roundtrip, saturating_usize, seq_u32, u32_bytes, u32_from_le, u32_to_le};
use crate::error::SumError;
use crate::index_group::IndexGroup;
use crate::index_offset::IndexOffset;
use crate::return_codes::AdsReturnCode;
use crate::sum::response::{
    lemma_sum_response_step, parse_next_response, sum_data_start, sum_item, sum_item_code, sum_item_len, sum_item_matches,
    sum_next_in_bounds, sum_response_complete,
};

verus! {

/// The 16 header bytes of a read/write request: index group, index offset,
/// read length, write length.
pub open spec fn spec_sum_read_write_header(ig: u32, io: u32, read_length: u32, write_length: u32) -> Seq<u8> {
    u32_bytes(ig) + u32_bytes(io) + u32_bytes(read_length) + u32_bytes(write_length)
}

/// One exchange of a Sum Read/Write request, borrowing the data to write.
#[derive(Debug, Clone, Copy, PartialEq, Eq, Hash)]
pub struct SumReadWriteRequest<'a> {
    index_group: IndexGroup,
    index_offset: IndexOffset,
    read_length: u32,
    write_data: &'a [u8],
}

impl<'a> SumReadWriteRequest<'a> {
    /// Size of the header in bytes.
    pub const HEADER_LENGTH: usize = 16;

    /// The fields as plain values: (index group, index offset, read length, data to write).
    pub closed spec fn spec_fields(self) -> (u32, u32, u32, Seq<u8>) {
        (self.index_group.spec_value(), self.index_offset.spec_value(), self.read_length, self.write_data@)
    }

    /// Creates a read/write request.
    pub fn new(index_group: IndexGroup, index_offset: IndexOffset, read_length: u32, write_data: &'a [u8]) -> (r:
        SumReadWriteRequest<'a>)
        ensures
            r.spec_fields() == (index_group.spec_value(), index_offset.spec_value(), read_length, write_data@),
    {
        SumReadWriteRequest { index_group, index_offset, read_length, write_data }
    }

    /// The index group of the variable.
    pub fn index_group(&self) -> (r: IndexGroup)
        ensures
            r.spec_value() == self.spec_fields().0,
    {
        self.index_group
    }

    /// The index offset of the variable.
    pub fn index_offset(&self) -> (r: IndexOffset)
        ensures
            r.spec_value() == self.spec_fields().1,
    {
        self.index_offset
    }

    /// The number of bytes to read back.
    pub fn read_length(&self) -> (r: u32)
        ensures
            r == self.spec_fields().2,
    {
        self.read_length
    }

    /// The data to write.
    pub fn write_data(&self) -> (r: &'a [u8])
        ensures
            r@ == self.spec_fields().3,
    {
        self.write_data
    }

    /// An owning copy of the request.
    pub fn into_owned(self) -> (r: SumReadWriteRequestOwned)
        ensures
            r.spec_fields() == self.spec_fields(),
    {
        SumReadWriteRequestOwned::new(
            self.index_group,
            self.index_offset,
            self.read_length,
            vstd::slice::slice_to_vec(self.write_data),
        )
    }

    /// The 16 header bytes; the write length is the data length truncated to 32 bits.
    pub fn header_to_bytes(&self) -> (r: [u8; 16])
        ensures
            r@ == spec_sum_read_write_header(
                self.spec_fields().0,
                self.spec_fields().1,
                self.spec_fields().2,
                self.spec_fields().3.len() as u32,
            ),
    {
        let g = self.index_group.to_bytes();
        let o = self.index_offset.to_bytes();
        let l = u32_to_le(self.read_length);
        let w = u32_to_le(self.write_data.len() as u32);
        let r = [g[0], g[1], g[2], g[3], o[0], o[1], o[2], o[3], l[0], l[1], l[2], l[3], w[0], w[1], w[2], w[3]];
        assert(r@ =~= spec_sum_read_write_header(
            self.spec_fields().0,
            self.spec_fields().1,
            self.spec_fields().2,
            self.spec_fields().3.len() as u32,
        ));
        r
    }

    /// Appends the 16 header bytes to a buffer (the data follows separately).
    pub fn write_header_to(&self, buf: &mut Vec<u8>)
        ensures
            final(buf)@ == old(buf)@ + spec_sum_read_write_header(
                self.spec_fields().0,
                self.spec_fields().1,
                self.spec_fields().2,
                self.spec_fields().3.len() as u32,
            ),
    {
        let h = self.header_to_bytes();
        extend_bytes(buf, h.as_slice());
    }

    /// Parses a request: a 16-byte header followed by the data to write.
    pub fn try_from_slice(bytes: &'a [u8]) -> (r: Result<SumReadWriteRequest<'a>, SumError>)
        ensures
            bytes@.len() < 16 ==> r == Err::<SumReadWriteRequest<'a>, SumError>(
                SumError::HeaderTooShort { expected: 16, got: bytes@.len() as usize },
            ),
            bytes@.len() >= 16 && bytes@.len() < 16 + seq_u32(bytes@, 12) ==> r == Err::<
                SumReadWriteRequest<'a>,
                SumError,
            >(SumError::TooShort { expected: saturating_usize(16 + seq_u32(bytes@, 12)), got: bytes@.len() as usize }),
            bytes@.len() >= 16 + seq_u32(bytes@, 12) ==> (r matches Ok(q) && q.spec_fields() == (
                seq_u32(bytes@, 0),
                seq_u32(bytes@, 4),
                seq_u32(bytes@, 8),
                bytes@.subrange(16, 16 + seq_u32(bytes@, 12)),
            )),
    {
        let n = bytes.len();
        if n < Self::HEADER_LENGTH {
            return Err(SumError::HeaderTooShort { expected: Self::HEADER_LENGTH, got: n });
        }
        let index_group = IndexGroup::from_bytes([bytes[0], bytes[1], bytes[2], bytes[3]]);
        let index_offset = IndexOffset::from_bytes([bytes[4], bytes[5], bytes[6], bytes[7]]);
        let read_length = u32_from_le([bytes[8], bytes[9], bytes[10], bytes[11]]);
        let write_len = u32_from_le([bytes[12], bytes[13], bytes[14], bytes[15]]) as usize;
        if n - Self::HEADER_LENGTH < write_len {
            let expected = write_len.saturating_add(Self::HEADER_LENGTH);
            return Err(SumError::TooShort { expected, got: n });
        }
        Ok(SumReadWriteRequest {
            index_group,
            index_offset,
            read_length,
            write_data: &bytes[Self::HEADER_LENGTH..Self::HEADER_LENGTH + write_len],
        })
    }
}

/// One exchange of a Sum Read/Write request, owning the data to write.
#[derive(Debug, Clone, PartialEq, Eq, Hash)]
pub struct SumReadWriteRequestOwned {
    index_group: IndexGroup,
    index_offset: IndexOffset,
    read_length: u32,
    write_data: Vec<u8>,
}

impl SumReadWriteRequestOwned {
    /// The fields as plain values: (index group, index offset, read length, data to write).
    pub closed spec fn spec_fields(self) -> (u32, u32, u32, Seq<u8>) {
        (self.index_group.spec_value(), self.index_offset.spec_value(), self.read_length, self.write_data@)
    }

    /// Creates a read/write request.
    pub fn new(index_group: IndexGroup, index_offset: IndexOffset, read_length: u32, write_data: Vec<u8>) -> (r:
        SumReadWriteRequestOwned)
        ensures
            r.spec_fields() == (index_group.spec_value(), index_offset.spec_value(), read_length, write_data@),
    {
        SumReadWriteRequestOwned { index_group, index_offset, read_length, write_data }
    }

    /// The index group of the variable.
    pub fn index_group(&self) -> (r: IndexGroup)
        ensures
            r.spec_value() == self.spec_fields().0,
    {
        self.index_group
    }

    /// The index offset of the variable.
    pub fn index_offset(&self) -> (r: IndexOffset)
        ensures
            r.spec_value() == self.spec_fields().1,
    {
        self.index_offset
    }

    /// The number of bytes to read back.
    pub fn read_length(&self) -> (r: u32)
        ensures
            r == self.spec_fields().2,
    {
        self.read_length
    }

    /// The data to write.
    pub fn write_data(&self) -> (r: &[u8])
        ensures
            r@ == self.spec_fields().3,
    {
        self.write_data.as_slice()
    }

    /// A borrowing view of the request.
    pub fn as_borrowed(&self) -> (r: SumReadWriteRequest<'_>)
        ensures
            r.spec_fields() == self.spec_fields(),
    {
        SumReadWriteRequest {
            index_group: self.index_group,
            index_offset: self.index_offset,
            read_length: self.read_length,
            write_data: self.write_data.as_slice(),
        }
    }
}

/// The answer to a Sum Read/Write request, borrowing the received buffer.
#[derive(Debug, Clone, Copy, PartialEq, Eq, Hash)]
pub struct SumReadWriteResponse<'a> {
    buffer: &'a [u8],
    request_count: usize,
}

impl<'a> SumReadWriteResponse<'a> {
    /// The received buffer.
    pub closed spec fn spec_buffer(self) -> Seq<u8> {
        self.buffer@
    }

    /// The number of requests answered.
    pub closed spec fn spec_request_count(self) -> usize {
        self.request_count
    }

    /// Wraps a received buffer answering the given requests.
    pub fn new(buffer: &'a [u8], requests: &[SumReadWriteRequest<'_>]) -> (r: SumReadWriteResponse<'a>)
        ensures
            r.spec_buffer() == buffer@,
            r.spec_request_count() == requests@.len(),
    {
        SumReadWriteResponse { buffer, request_count: requests.len() }
    }

    /// Iterates over the items of the answer.
    pub fn iter(&self) -> (r: SumReadWriteResponseIter<'a>)
        requires
            self.spec_request_count() <= usize::MAX / 8,
        ensures
            r.spec_buffer() == self.spec_buffer(),
            r.spec_request_count() == self.spec_request_count(),
            r.spec_current_idx() == 0,
            r.spec_data_offset() == 8 * self.spec_request_count(),
    {
        SumReadWriteResponseIter::new(self.buffer, self.request_count)
    }

    /// The received buffer.
    pub fn buffer(&self) -> (r: &[u8])
        ensures
            r@ == self.spec_buffer(),
    {
        self.buffer
    }

    /// The number of requests answered.
    pub fn request_count(&self) -> (r: usize)
        ensures
            r == self.spec_request_count(),
    {
        self.request_count
    }

    /// A copy of the received buffer.
    pub fn into_vec(self) -> (r: Vec<u8>)
        ensures
            r@ == self.spec_buffer(),
    {
        vstd::slice::slice_to_vec(self.buffer)
    }

    /// An owning copy of the answer.
    pub fn into_owned(self) -> (r: SumReadWriteResponseOwned)
        ensures
            r.spec_buffer() == self.spec_buffer(),
            r.spec_request_count() == self.spec_request_count(),
    {
        let request_count = self.request_count();
        SumReadWriteResponseOwned { buffer: vstd::slice::slice_to_vec(self.buffer), request_count }
    }
}

/// The answer to a Sum Read/Write request, owning the received buffer.
#[derive(Debug, Clone, PartialEq, Eq, Hash)]
pub struct SumReadWriteResponseOwned {
    buffer: Vec<u8>,
    request_count: usize,
}

impl SumReadWriteResponseOwned {
    /// The received buffer.
    pub closed spec fn spec_buffer(self) -> Seq<u8> {
        self.buffer@
    }

    /// The number of requests answered.
    pub closed spec fn spec_request_count(self) -> usize {
        self.request_count
    }

    /// Wraps a received buffer answering the given requests.
    pub fn new(buffer: Vec<u8>, requests: &[SumReadWriteRequest<'_>]) -> (r: SumReadWriteResponseOwned)
        ensures
            r.spec_buffer() == buffer@,
            r.spec_request_count() == requests@.len(),
    {
        SumReadWriteResponseOwned { buffer, request_count: requests.len() }
    }

    /// Iterates over the items of the answer.
    pub fn iter(&self) -> (r: SumReadWriteResponseIter<'_>)
        requires
            self.spec_request_count() <= usize::MAX / 8,
        ensures
            r.spec_buffer() == self.spec_buffer(),
            r.spec_request_count() == self.spec_request_count(),
            r.spec_current_idx() == 0,
            r.spec_data_offset() == 8 * self.spec_request_count(),
    {
        SumReadWriteResponseIter::new(self.buffer.as_slice(), self.request_count)
    }

    /// The received buffer.
    pub fn buffer(&self) -> (r: &[u8])
        ensures
            r@ == self.spec_buffer(),
    {
        self.buffer.as_slice()
    }

    /// The number of requests answered.
    pub fn request_count(&self) -> (r: usize)
        ensures
            r == self.spec_request_count(),
    {
        self.request_count
    }

    /// The received buffer.
    pub fn into_vec(self) -> (r: Vec<u8>)
        ensures
            r@ == self.spec_buffer(),
    {
        self.buffer
    }

    /// A borrowing view of the answer.
    pub fn as_borrowed(&self) -> (r: SumReadWriteResponse<'_>)
        ensures
            r.spec_buffer() == self.spec_buffer(),
            r.spec_request_count() == self.spec_request_count(),
    {
        SumReadWriteResponse { buffer: self.buffer.as_slice(), request_count: self.request_count }
    }
}

/// A cursor over the items of a Sum Read/Write answer.
#[derive(Debug, Clone, Copy, PartialEq, Eq, Hash)]
pub struct SumReadWriteResponseIter<'a> {
    buffer: &'a [u8],
    request_count: usize,
    data_offset: usize,
    current_idx: usize,
}

impl<'a> SumReadWriteResponseIter<'a> {
    /// The received buffer.
    pub closed spec fn spec_buffer(self) -> Seq<u8> {
        self.buffer@
    }

    /// The number of items.
    pub closed spec fn spec_request_count(self) -> usize {
        self.request_count
    }

    /// Where the data of the next item starts.
    pub closed spec fn spec_data_offset(self) -> usize {
        self.data_offset
    }

    /// The index of the next item.
    pub closed spec fn spec_current_idx(self) -> usize {
        self.current_idx
    }

    /// A cursor at the first item; the data starts after all headers.
    pub fn new(buffer: &'a [u8], request_count: usize) -> (r: SumReadWriteResponseIter<'a>)
        requires
            request_count <= usize::MAX / 8,
        ensures
            r.spec_buffer() == buffer@,
            r.spec_request_count() == request_count,
            r.spec_current_idx() == 0,
            r.spec_data_offset() == 8 * request_count,
    {
        SumReadWriteResponseIter { buffer, request_count, data_offset: request_count * 8, current_idx: 0 }
    }

    /// The next item: `Ok` with its data when its error code is `NoError`,
    /// `Err` with the code otherwise, `None` after the last item.
    pub fn next(&mut self) -> (r: Option<Result<&'a [u8], AdsReturnCode>>)
        requires
            sum_next_in_bounds(
                old(self).spec_buffer(),
                old(self).spec_request_count() as int,
                old(self).spec_current_idx() as int,
                old(self).spec_data_offset() as int,
            ),
        ensures
            final(self).spec_buffer() == old(self).spec_buffer(),
            final(self).spec_request_count() == old(self).spec_request_count(),
            old(self).spec_current_idx() >= old(self).spec_request_count() ==> r is None && *final(self) == *old(
                self,
            ),
            old(self).spec_current_idx() < old(self).spec_request_count() ==> {
                let b = old(self).spec_buffer();
                let i = old(self).spec_current_idx() as int;
                let start = old(self).spec_data_offset() as int;
                let len = sum_item_len(b, i);
                &&& final(self).spec_current_idx() == i + 1
                &&& final(self).spec_data_offset() == start + len
                &&& sum_item_code(b, i) == AdsReturnCode::NoError ==> (r matches Some(Ok(d)) && d@ == b.subrange(
                    start,
                    start + len,
                ))
                &&& sum_item_code(b, i) != AdsReturnCode::NoError ==> r == Some(
                    Err::<&[u8], AdsReturnCode>(sum_item_code(b, i)),
                )
            },
    {
        let mut idx = self.current_idx;
        let mut offset = self.data_offset;
        let r = parse_next_response(self.buffer, self.request_count, &mut idx, &mut offset);
        self.current_idx = idx;
        self.data_offset = offset;
        r
    }

    /// Reads every remaining item in order, as repeated calls of `next` would,
    /// and leaves the cursor after the last item, where `next` yields `None`.
    pub fn collect_items(&mut self) -> (r: Vec<Result<&'a [u8], AdsReturnCode>>)
        requires
            sum_response_complete(old(self).spec_buffer(), old(self).spec_request_count() as int),
            old(self).spec_current_idx() <= old(self).spec_request_count(),
            old(self).spec_data_offset() == sum_data_start(
                old(self).spec_buffer(),
                old(self).spec_request_count() as int,
                old(self).spec_current_idx() as int,
            ),
        ensures
            final(self).spec_buffer() == old(self).spec_buffer(),
            final(self).spec_request_count() == old(self).spec_request_count(),
            final(self).spec_current_idx() == old(self).spec_request_count(),
            r@.len() == old(self).spec_request_count() - old(self).spec_current_idx(),
            forall|j: int|
                0 <= j < r@.len() ==> sum_item_matches(
                    #[trigger] r@[j],
                    sum_item(
                        old(self).spec_buffer(),
                        old(self).spec_request_count() as int,
                        old(self).spec_current_idx() + j,
                    ),
                ),
    {
        let ghost b = self.buffer@;
        let ghost count = self.request_count as int;
        let ghost k0 = self.current_idx as int;
        let mut out: Vec<Result<&'a [u8], AdsReturnCode>> = Vec::new();
        while self.current_idx < self.request_count
            invariant
                self.buffer@ == b,
                self.request_count == count,
                sum_response_complete(b, count),
                k0 <= self.current_idx <= count,
                self.data_offset == sum_data_start(b, count, self.current_idx as int),
                out@.len() == self.current_idx - k0,
                forall|j: int| 0 <= j < out@.len() ==> sum_item_matches(#[trigger] out@[j], sum_item(b, count, k0 + j)),
            decreases count - self.current_idx,
        {
            proof {
                lemma_sum_response_step(b, count, self.current_idx as int);
            }
            let item = self.next();
            match item {
                Some(x) => {
                    out.push(x);
                },
                None => {},
            }
        }
        out
    }
}

/// A read/write request written as its header and data parses back as the
/// same index group, index offset, read length and data, for data of at
/// most `u32::MAX` bytes.
pub proof fn lemma_sum_read_write_request_roundtrip(ig: u32, io: u32, read_length: u32, data: Seq<u8>)
    requires
        data.len() <= u32::MAX,
    ensures
        ({
            let b = spec_sum_read_write_header(ig, io, read_length, data.len() as u32) + data;
            &&& b.len() >= 16 + seq_u32(b, 12)
            &&& (seq_u32(b, 0), seq_u32(b, 4), seq_u32(b, 8), b.subrange(16, 16 + seq_u32(b, 12))) == (
                ig,
                io,
                read_length,
                data,
            )
        }),
{
    let b = spec_sum_read_write_header(ig, io, read_length, data.len() as u32) + data;
    lemma_u32_roundtrip(ig);
    lemma_u32_roundtrip(io);
    lemma_u32_roundtrip(read_length);
    lemma_u32_roundtrip(data.len() as u32);
    assert(seq_u32(b, 12) == data.len());
    assert(b.subrange(16, 16 + data.len() as int) =~= data);
}

} // verus!
