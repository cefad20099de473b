//! Sum Delete Notification: many unsubscriptions in one request, answered
//! by one error code each.

use vstd::prelude::*;
use crate::bytes::u32_from_le;
use crate::error::SumError;
use crate::return_codes::AdsReturnCode;
use crate::sum::write::{spec_code_at, spec_not_multiple_error};

verus! {

/// The answer to a Sum Delete Notification request: one 4-byte error code
/// per handle.
#[derive(Debug, Clone, PartialEq, Eq, Hash)]
pub struct SumDeleteNotificationResponse {
    buffer: Vec<u8>,
}

impl SumDeleteNotificationResponse {
    /// The received buffer.
    pub closed spec fn spec_buffer(self) -> Seq<u8> {
        self.buffer@
    }

    /// Wraps a received buffer; fails when its length is not a multiple of 4.
    pub fn new(buf: Vec<u8>) -> (r: Result<SumDeleteNotificationResponse, SumError>)
        ensures
            buf@.len() % 4 != 0 ==> r == Err::<SumDeleteNotificationResponse, SumError>(
                spec_not_multiple_error(buf@.len(), 4),
            ),
            buf@.len() % 4 == 0 ==> (r matches Ok(s) && s.spec_buffer() == buf@),
    {
        let n = buf.len();
        let rem = n % 4;
        if rem != 0 {
            return Err(SumError::UnexpectedLength { expected: n.saturating_add(4 - rem), got: n });
        }
        Ok(SumDeleteNotificationResponse { buffer: buf })
    }

    /// A response with no codes.
    pub fn empty() -> (r: SumDeleteNotificationResponse)
        ensures
            r.spec_buffer() == Seq::<u8>::empty(),
    {
        SumDeleteNotificationResponse { buffer: Vec::new() }
    }

    /// The received buffer.
    pub fn buffer(&self) -> (r: &[u8])
        ensures
            r@ == self.spec_buffer(),
    {
        self.buffer.as_slice()
    }

    /// The number of codes.
    pub fn len(&self) -> (r: usize)
        ensures
            r == self.spec_buffer().len() / 4,
    {
        self.buffer.len() / 4
    }

    /// True when the response holds no bytes.
    pub fn is_empty(&self) -> (r: bool)
        ensures
            r == (self.spec_buffer().len() == 0),
    {
        self.buffer.len() == 0
    }

    /// The code for handle `index`, or `None` past the last one.
    pub fn get(&self, index: usize) -> (r: Option<AdsReturnCode>)
        ensures
            index >= self.spec_buffer().len() / 4 ==> r is None,
            index < self.spec_buffer().len() / 4 ==> r == Some(spec_code_at(self.spec_buffer(), index as int)),
    {
        if index >= self.len() {
            return None;
        }
        let n = self.buffer.len();
        assert(4 * index + 4 <= self.spec_buffer().len()) by (nonlinear_arith)
            requires
                index < self.spec_buffer().len() / 4,
        ;
        let offset = index * 4;
        let code = u32_from_le([self.buffer[offset], self.buffer[offset + 1], self.buffer[offset + 2], self.buffer[offset + 3]]);
        Some(AdsReturnCode::from_u32(code))
    }

    /// A cursor over the codes.
    pub fn iter(&self) -> (r: SumDeleteNotificationIter<'_>)
        ensures
            r.spec_buffer() == self.spec_buffer(),
            r.spec_cursor() == 0,
    {
        SumDeleteNotificationIter { response: self, cursor: 0 }
    }
}

/// A cursor over the codes of a [`SumDeleteNotificationResponse`].
#[derive(Clone, PartialEq, Eq, Hash)]
pub struct SumDeleteNotificationIter<'a> {
    response: &'a SumDeleteNotificationResponse,
    cursor: usize,
}

impl<'a> SumDeleteNotificationIter<'a> {
    /// The buffer of the response.
    pub closed spec fn spec_buffer(self) -> Seq<u8> {
        self.response.spec_buffer()
    }

    /// The index of the next code.
    pub closed spec fn spec_cursor(self) -> usize {
        self.cursor
    }

    /// A cursor at the first code.
    pub fn new(response: &'a SumDeleteNotificationResponse) -> (r: SumDeleteNotificationIter<'a>)
        ensures
            r.spec_buffer() == response.spec_buffer(),
            r.spec_cursor() == 0,
    {
        SumDeleteNotificationIter { response, cursor: 0 }
    }

    /// The same cursor moved to `cursor`.
    pub fn with_cursor(self, cursor: usize) -> (r: SumDeleteNotificationIter<'a>)
        ensures
            r.spec_buffer() == self.spec_buffer(),
            r.spec_cursor() == cursor,
    {
        SumDeleteNotificationIter { response: self.response, cursor }
    }

    /// The index of the next code.
    pub fn cursor(&self) -> (r: usize)
        ensures
            r == self.spec_cursor(),
    {
        self.cursor
    }

    /// The next code, or `None` after the last one.
    pub fn next(&mut self) -> (r: Option<AdsReturnCode>)
        requires
            old(self).spec_cursor() < usize::MAX,
        ensures
            final(self).spec_buffer() == old(self).spec_buffer(),
            final(self).spec_cursor() == old(self).spec_cursor() + 1,
            old(self).spec_cursor() >= old(self).spec_buffer().len() / 4 ==> r is None,
            old(self).spec_cursor() < old(self).spec_buffer().len() / 4 ==> r == Some(
                spec_code_at(old(self).spec_buffer(), old(self).spec_cursor() as int),
            ),
    {
        let value = self.response.get(self.cursor);
        self.cursor = self.cursor + 1;
        value
    }
}

} // verus!
