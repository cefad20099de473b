//! Sum Read: many reads in one request.

use vstd::prelude::*;
use crate::bytes::{extend_bytes, seq_u32, u32_bytes, u32_from_le, u32_to_le, lemma_u32_bytes_roundtrip, lemma_u32_roundtrip};
use crate::error::SumError;
use crate::index_group::IndexGroup;
use crate::index_offset::IndexOffset;
use crate::return_codes::AdsReturnCode;
use crate::sum::response::{
    lemma_sum_response_step, parse_next_response, sum_data_start, sum_item, sum_item_code, sum_item_len, sum_item_matches,
    sum_next_in_bounds, sum_response_complete,
};

verus! {

/// The 12 wire bytes of a read request: index group, index offset, length.
pub open spec fn spec_sum_read_request_bytes(f: (u32, u32, u32)) -> Seq<u8> {
    u32_bytes(f.0) + u32_bytes(f.1) + u32_bytes(f.2)
}

/// The (index group, index offset, length) that 12 wire bytes encode.
pub open spec fn spec_sum_read_request_of(b: Seq<u8>) -> (u32, u32, u32) {
    (seq_u32(b, 0), seq_u32(b, 4), seq_u32(b, 8))
}

/// Encoding the fields and decoding the bytes gives the fields back.
pub proof fn lemma_sum_read_request_roundtrip(f: (u32, u32, u32))
    ensures
        spec_sum_read_request_of(spec_sum_read_request_bytes(f)) == f,
{
    lemma_u32_roundtrip(f.0);
    lemma_u32_roundtrip(f.1);
    lemma_u32_roundtrip(f.2);
}

/// Decoding 12 bytes and encoding the fields gives the bytes back.
pub proof fn lemma_sum_read_request_bytes_roundtrip(b: Seq<u8>)
    requires
        b.len() == 12,
    ensures
        spec_sum_read_request_bytes(spec_sum_read_request_of(b)) == b,
{
    lemma_u32_bytes_roundtrip(b[0], b[1], b[2], b[3]);
    lemma_u32_bytes_roundtrip(b[4], b[5], b[6], b[7]);
    lemma_u32_bytes_roundtrip(b[8], b[9], b[10], b[11]);
    assert(spec_sum_read_request_bytes(spec_sum_read_request_of(b)) =~= b);
}

/// One read of a Sum Read request.
#[derive(Debug, Clone, Copy, PartialEq, Eq, Structural, Hash)]
pub struct SumReadRequest {
    index_group: IndexGroup,
    index_offset: IndexOffset,
    length: u32,
}

impl SumReadRequest {
    /// Wire size in bytes.
    pub const LENGTH: usize = 12;

    /// The fields as plain values: (index group, index offset, length).
    pub closed spec fn spec_fields(self) -> (u32, u32, u32) {
        (self.index_group.spec_value(), self.index_offset.spec_value(), self.length)
    }

    /// Creates a read request.
    pub fn new(index_group: IndexGroup, index_offset: IndexOffset, length: u32) -> (r: SumReadRequest)
        ensures
            r.spec_fields() == (index_group.spec_value(), index_offset.spec_value(), length),
    {
        SumReadRequest { index_group, index_offset, length }
    }

    /// The index group of the variable.
    pub fn index_group(&self) -> (r: IndexGroup)
        ensures
            r.spec_value() == self.spec_fields().0,
    {
        self.index_group
    }

    /// The index offset of the variable.
    pub fn index_offset(&self) -> (r: IndexOffset)
        ensures
            r.spec_value() == self.spec_fields().1,
    {
        self.index_offset
    }

    /// The number of bytes to read.
    pub fn length(&self) -> (r: u32)
        ensures
            r == self.spec_fields().2,
    {
        self.length
    }

    /// Appends the 12 wire bytes to a buffer.
    pub fn write_to(&self, buf: &mut Vec<u8>)
        ensures
            final(buf)@ == old(buf)@ + spec_sum_read_request_bytes(self.spec_fields()),
    {
        let b = self.to_bytes();
        extend_bytes(buf, b.as_slice());
    }

    /// Decodes a request from its 12 wire bytes.
    pub fn from_bytes(bytes: [u8; 12]) -> (r: SumReadRequest)
        ensures
            r.spec_fields() == spec_sum_read_request_of(bytes@),
    {
        SumReadRequest {
            index_group: IndexGroup::from_bytes([bytes[0], bytes[1], bytes[2], bytes[3]]),
            index_offset: IndexOffset::from_bytes([bytes[4], bytes[5], bytes[6], bytes[7]]),
            length: u32_from_le([bytes[8], bytes[9], bytes[10], bytes[11]]),
        }
    }

    /// The 12 wire bytes.
    pub fn to_bytes(&self) -> (r: [u8; 12])
        ensures
            r@ == spec_sum_read_request_bytes(self.spec_fields()),
    {
        let g = self.index_group.to_bytes();
        let o = self.index_offset.to_bytes();
        let l = u32_to_le(self.length);
        let r = [g[0], g[1], g[2], g[3], o[0], o[1], o[2], o[3], l[0], l[1], l[2], l[3]];
        assert(r@ =~= spec_sum_read_request_bytes(self.spec_fields()));
        r
    }

    /// Parses a request from a slice of exactly 12 bytes.
    pub fn try_from_slice(bytes: &[u8]) -> (r: Result<SumReadRequest, SumError>)
        ensures
            bytes@.len() != 12 ==> r == Err::<SumReadRequest, SumError>(
                SumError::UnexpectedLength { expected: 12, got: bytes@.len() as usize },
            ),
            bytes@.len() == 12 ==> (r matches Ok(q) && q.spec_fields() == spec_sum_read_request_of(bytes@)),
    {
        if bytes.len() != Self::LENGTH {
            return Err(SumError::UnexpectedLength { expected: Self::LENGTH, got: bytes.len() });
        }
        let buf = [
            bytes[0], bytes[1], bytes[2], bytes[3], bytes[4], bytes[5], bytes[6], bytes[7], bytes[8], bytes[9],
            bytes[10], bytes[11],
        ];
        assert(buf@ =~= bytes@);
        Ok(SumReadRequest::from_bytes(buf))
    }
}

/// The answer to a Sum Read request, borrowing the received buffer.
#[derive(Debug, Clone, Copy, PartialEq, Eq, Hash)]
pub struct SumReadResponse<'a> {
    buffer: &'a [u8],
    request_count: usize,
}

impl<'a> SumReadResponse<'a> {
    /// The received buffer.
    pub closed spec fn spec_buffer(self) -> Seq<u8> {
        self.buffer@
    }

    /// The number of requests answered.
    pub closed spec fn spec_request_count(self) -> usize {
        self.request_count
    }

    /// Wraps a received buffer answering the given requests.
    pub fn new(buffer: &'a [u8], requests: &[SumReadRequest]) -> (r: SumReadResponse<'a>)
        ensures
            r.spec_buffer() == buffer@,
            r.spec_request_count() == requests@.len(),
    {
        SumReadResponse { buffer, request_count: requests.len() }
    }

    /// Iterates over the items of the answer.
    pub fn iter(&self) -> (r: SumReadResponseIter<'a>)
        requires
            self.spec_request_count() <= usize::MAX / 8,
        ensures
            r.spec_buffer() == self.spec_buffer(),
            r.spec_request_count() == self.spec_request_count(),
            r.spec_current_idx() == 0,
            r.spec_data_offset() == 8 * self.spec_request_count(),
    {
        SumReadResponseIter::new(self.buffer, self.request_count)
    }

    /// The received buffer.
    pub fn buffer(&self) -> (r: &[u8])
        ensures
            r@ == self.spec_buffer(),
    {
        self.buffer
    }

    /// The number of requests answered.
    pub fn request_count(&self) -> (r: usize)
        ensures
            r == self.spec_request_count(),
    {
        self.request_count
    }

    /// An owning copy of the answer.
    pub fn into_owned(self) -> (r: SumReadResponseOwned)
        ensures
            r.spec_buffer() == self.spec_buffer(),
            r.spec_request_count() == self.spec_request_count(),
    {
        SumReadResponseOwned { buffer: vstd::slice::slice_to_vec(self.buffer), request_count: self.request_count }
    }

    /// A copy of the received buffer.
    pub fn into_vec(self) -> (r: Vec<u8>)
        ensures
            r@ == self.spec_buffer(),
    {
        vstd::slice::slice_to_vec(self.buffer)
    }
}

/// The answer to a Sum Read request, owning the received buffer.
#[derive(Debug, Clone, PartialEq, Eq, Hash)]
pub struct SumReadResponseOwned {
    buffer: Vec<u8>,
    request_count: usize,
}

impl SumReadResponseOwned {
    /// The received buffer.
    pub closed spec fn spec_buffer(self) -> Seq<u8> {
        self.buffer@
    }

    /// The number of requests answered.
    pub closed spec fn spec_request_count(self) -> usize {
        self.request_count
    }

    /// Wraps a received buffer answering the given requests.
    pub fn new(buffer: Vec<u8>, requests: &[SumReadRequest]) -> (r: SumReadResponseOwned)
        ensures
            r.spec_buffer() == buffer@,
            r.spec_request_count() == requests@.len(),
    {
        SumReadResponseOwned { buffer, request_count: requests.len() }
    }

    /// Iterates over the items of the answer.
    pub fn iter(&self) -> (r: SumReadResponseIter<'_>)
        requires
            self.spec_request_count() <= usize::MAX / 8,
        ensures
            r.spec_buffer() == self.spec_buffer(),
            r.spec_request_count() == self.spec_request_count(),
            r.spec_current_idx() == 0,
            r.spec_data_offset() == 8 * self.spec_request_count(),
    {
        SumReadResponseIter::new(self.buffer.as_slice(), self.request_count)
    }

    /// The received buffer.
    pub fn buffer(&self) -> (r: &[u8])
        ensures
            r@ == self.spec_buffer(),
    {
        self.buffer.as_slice()
    }

    /// The number of requests answered.
    pub fn request_count(&self) -> (r: usize)
        ensures
            r == self.spec_request_count(),
    {
        self.request_count
    }

    /// The received buffer.
    pub fn into_vec(self) -> (r: Vec<u8>)
        ensures
            r@ == self.spec_buffer(),
    {
        self.buffer
    }

    /// A borrowing view of the answer.
    pub fn as_borrowed(&self) -> (r: SumReadResponse<'_>)
        ensures
            r.spec_buffer() == self.spec_buffer(),
            r.spec_request_count() == self.spec_request_count(),
    {
        SumReadResponse { buffer: self.buffer.as_slice(), request_count: self.request_count }
    }
}

/// A cursor over the items of a Sum Read answer.
#[derive(Debug, Clone, Copy, PartialEq, Eq, Hash)]
pub struct SumReadResponseIter<'a> {
    buffer: &'a [u8],
    request_count: usize,
    data_offset: usize,
    current_idx: usize,
}

impl<'a> SumReadResponseIter<'a> {
    /// The received buffer.
    pub closed spec fn spec_buffer(self) -> Seq<u8> {
        self.buffer@
    }

    /// The number of items.
    pub closed spec fn spec_request_count(self) -> usize {
        self.request_count
    }

    /// Where the data of the next item starts.
    pub closed spec fn spec_data_offset(self) -> usize {
        self.data_offset
    }

    /// The index of the next item.
    pub closed spec fn spec_current_idx(self) -> usize {
        self.current_idx
    }

    /// A cursor at the first item; the data starts after all headers.
    pub fn new(buffer: &'a [u8], request_count: usize) -> (r: SumReadResponseIter<'a>)
        requires
            request_count <= usize::MAX / 8,
        ensures
            r.spec_buffer() == buffer@,
            r.spec_request_count() == request_count,
            r.spec_current_idx() == 0,
            r.spec_data_offset() == 8 * request_count,
    {
        SumReadResponseIter { buffer, request_count, data_offset: request_count * 8, current_idx: 0 }
    }

    /// The next item: `Ok` with its data when its error code is `NoError`,
    /// `Err` with the code otherwise, `None` after the last item.
    pub fn next(&mut self) -> (r: Option<Result<&'a [u8], AdsReturnCode>>)
        requires
            sum_next_in_bounds(
                old(self).spec_buffer(),
                old(self).spec_request_count() as int,
                old(self).spec_current_idx() as int,
                old(self).spec_data_offset() as int,
            ),
        ensures
            final(self).spec_buffer() == old(self).spec_buffer(),
            final(self).spec_request_count() == old(self).spec_request_count(),
            old(self).spec_current_idx() >= old(self).spec_request_count() ==> r is None && *final(self) == *old(
                self,
            ),
            old(self).spec_current_idx() < old(self).spec_request_count() ==> {
                let b = old(self).spec_buffer();
                let i = old(self).spec_current_idx() as int;
                let start = old(self).spec_data_offset() as int;
                let len = sum_item_len(b, i);
                &&& final(self).spec_current_idx() == i + 1
                &&& final(self).spec_data_offset() == start + len
                &&& sum_item_code(b, i) == AdsReturnCode::NoError ==> (r matches Some(Ok(d)) && d@ == b.subrange(
                    start,
                    start + len,
                ))
                &&& sum_item_code(b, i) != AdsReturnCode::NoError ==> r == Some(
                    Err::<&[u8], AdsReturnCode>(sum_item_code(b, i)),
                )
            },
    {
        let mut idx = self.current_idx;
        let mut offset = self.data_offset;
        let r = parse_next_response(self.buffer, self.request_count, &mut idx, &mut offset);
        self.current_idx = idx;
        self.data_offset = offset;
        r
    }

    /// Reads every remaining item in order, as repeated calls of `next` would,
    /// and leaves the cursor after the last item, where `next` yields `None`.
    pub fn collect_items(&mut self) -> (r: Vec<Result<&'a [u8], AdsReturnCode>>)
        requires
            sum_response_complete(old(self).spec_buffer(), old(self).spec_request_count() as int),
            old(self).spec_current_idx() <= old(self).spec_request_count(),
            old(self).spec_data_offset() == sum_data_start(
                old(self).spec_buffer(),
                old(self).spec_request_count() as int,
                old(self).spec_current_idx() as int,
            ),
        ensures
            final(self).spec_buffer() == old(self).spec_buffer(),
            final(self).spec_request_count() == old(self).spec_request_count(),
            final(self).spec_current_idx() == old(self).spec_request_count(),
            r@.len() == old(self).spec_request_count() - old(self).spec_current_idx(),
            forall|j: int|
                0 <= j < r@.len() ==> sum_item_matches(
                    #[trigger] r@[j],
                    sum_item(
                        old(self).spec_buffer(),
                        old(self).spec_request_count() as int,
                        old(self).spec_current_idx() + j,
                    ),
                ),
    {
        let ghost b = self.buffer@;
        let ghost count = self.request_count as int;
        let ghost k0 = self.current_idx as int;
        let mut out: Vec<Result<&'a [u8], AdsReturnCode>> = Vec::new();
        while self.current_idx < self.request_count
            invariant
                self.buffer@ == b,
                self.request_count == count,
                sum_response_complete(b, count),
                k0 <= self.current_idx <= count,
                self.data_offset == sum_data_start(b, count, self.current_idx as int),
                out@.len() == self.current_idx - k0,
                forall|j: int| 0 <= j < out@.len() ==> sum_item_matches(#[trigger] out@[j], sum_item(b, count, k0 + j)),
            decreases count - self.current_idx,
        {
            proof {
                lemma_sum_response_step(b, count, self.current_idx as int);
            }
            let item = self.next();
            match item {
                Some(x) => {
                    out.push(x);
                },
                None => {},
            }
        }
        out
    }
}

} // verus!
