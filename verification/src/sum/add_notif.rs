//! Sum Add Notification: many notification subscriptions in one request.

use vstd::prelude::*;
use crate::bytes::{extend_bytes, lemma_u32_roundtrip, seq_u32, u32_bytes, u32_from_le};
use crate::error::SumError;
use crate::index_group::IndexGroup;
use crate::index_offset::IndexOffset;
use crate::notification_attrib::{
    lemma_notification_attrib_fields_roundtrip, spec_notification_attrib_bytes, spec_notification_attrib_of, spec_ticks_of_nanos,
    AdsNotificationAttrib,
};
use crate::trans_mode::{ads_trans_mode_code, ads_trans_mode_of, AdsTransMode};
use crate::notification_handle::NotificationHandle;
use crate::return_codes::{ads_return_code_of, AdsReturnCode};
use crate::sum::write::spec_not_multiple_error;

verus! {

/// The 40 wire bytes of a subscription: index group, index offset, the 16
/// attribute bytes and 16 reserved zero bytes.
pub open spec fn spec_sum_add_notification_bytes(ig: u32, io: u32, attrib: Seq<u8>) -> Seq<u8> {
    u32_bytes(ig) + u32_bytes(io) + attrib + Seq::new(16, |i: int| 0u8)
}

/// One subscription of a Sum Add Notification request.
#[derive(Debug, Clone, PartialEq, Eq)]
pub struct SumAddNotificationRequest {
    index_group: IndexGroup,
    index_offset: IndexOffset,
    attributes: AdsNotificationAttrib,
}

impl SumAddNotificationRequest {
    /// Wire size in bytes (index group, index offset, attributes, reserved).
    pub const LENGTH: usize = 40;

    /// The index group and index offset.
    pub closed spec fn spec_address(self) -> (u32, u32) {
        (self.index_group.spec_value(), self.index_offset.spec_value())
    }

    /// The notification attributes.
    pub closed spec fn spec_attributes(self) -> AdsNotificationAttrib {
        self.attributes
    }

    /// The 16 wire bytes of the attributes.
    pub open spec fn spec_attrib_bytes(self) -> Seq<u8> {
        let f = self.spec_attributes().spec_fields();
        spec_notification_attrib_bytes(f.0, f.1, f.2 as int, f.3 as int)
    }

    /// Creates a subscription request.
    pub fn new(index_group: IndexGroup, index_offset: IndexOffset, attributes: AdsNotificationAttrib) -> (r:
        SumAddNotificationRequest)
        ensures
            r.spec_address() == (index_group.spec_value(), index_offset.spec_value()),
            r.spec_attributes() == attributes,
    {
        SumAddNotificationRequest { index_group, index_offset, attributes }
    }

    /// The index group of the variable.
    pub fn index_group(&self) -> (r: IndexGroup)
        ensures
            r.spec_value() == self.spec_address().0,
    {
        self.index_group
    }

    /// The index offset of the variable.
    pub fn index_offset(&self) -> (r: IndexOffset)
        ensures
            r.spec_value() == self.spec_address().1,
    {
        self.index_offset
    }

    /// The transmission mode and timing of the notification.
    pub fn attributes(&self) -> (r: &AdsNotificationAttrib)
        ensures
            *r == self.spec_attributes(),
    {
        &self.attributes
    }

    /// Appends the 40 wire bytes to a buffer.
    pub fn write_to(&self, buf: &mut Vec<u8>)
        ensures
            final(buf)@ == old(buf)@ + spec_sum_add_notification_bytes(
                self.spec_address().0,
                self.spec_address().1,
                self.spec_attrib_bytes(),
            ),
    {
        let b = self.to_bytes();
        extend_bytes(buf, b.as_slice());
    }

    /// Decodes a request from its 40 wire bytes (the reserved bytes are ignored).
    pub fn from_bytes(bytes: [u8; 40]) -> (r: SumAddNotificationRequest)
        ensures
            r.spec_address() == (seq_u32(bytes@, 0), seq_u32(bytes@, 4)),
            r.spec_attributes().spec_fields() == spec_notification_attrib_of(bytes@.subrange(8, 24)),
    {
        let a = [
            bytes[8], bytes[9], bytes[10], bytes[11], bytes[12], bytes[13], bytes[14], bytes[15], bytes[16],
            bytes[17], bytes[18], bytes[19], bytes[20], bytes[21], bytes[22], bytes[23],
        ];
        assert(a@ =~= bytes@.subrange(8, 24));
        SumAddNotificationRequest {
            index_group: IndexGroup::from_bytes([bytes[0], bytes[1], bytes[2], bytes[3]]),
            index_offset: IndexOffset::from_bytes([bytes[4], bytes[5], bytes[6], bytes[7]]),
            attributes: AdsNotificationAttrib::from_bytes(a),
        }
    }

    /// The 40 wire bytes.
    pub fn to_bytes(&self) -> (r: [u8; 40])
        ensures
            r@ == spec_sum_add_notification_bytes(
                self.spec_address().0,
                self.spec_address().1,
                self.spec_attrib_bytes(),
            ),
    {
        let g = self.index_group.to_bytes();
        let o = self.index_offset.to_bytes();
        let a = self.attributes.to_bytes();
        let r = [
            g[0], g[1], g[2], g[3], o[0], o[1], o[2], o[3], a[0], a[1], a[2], a[3], a[4], a[5], a[6], a[7], a[8],
            a[9], a[10], a[11], a[12], a[13], a[14], a[15], 0, 0, 0, 0, 0, 0, 0, 0, 0, 0, 0, 0, 0, 0, 0, 0,
        ];
        assert(r@ =~= spec_sum_add_notification_bytes(
            self.spec_address().0,
            self.spec_address().1,
            self.spec_attrib_bytes(),
        ));
        r
    }

    /// Parses a request from a slice of exactly 40 bytes.
    pub fn try_from_slice(bytes: &[u8]) -> (r: Result<SumAddNotificationRequest, SumError>)
        ensures
            bytes@.len() != 40 ==> r == Err::<SumAddNotificationRequest, SumError>(
                SumError::UnexpectedLength { expected: 40, got: bytes@.len() as usize },
            ),
            bytes@.len() == 40 ==> (r matches Ok(q) && q.spec_address() == (seq_u32(bytes@, 0), seq_u32(bytes@, 4))
                && q.spec_attributes().spec_fields() == spec_notification_attrib_of(bytes@.subrange(8, 24))),
    {
        if bytes.len() != Self::LENGTH {
            return Err(SumError::UnexpectedLength { expected: Self::LENGTH, got: bytes.len() });
        }
        let mut buf = [0u8; 40];
        let mut i: usize = 0;
        while i < 40
            invariant
                bytes@.len() == 40,
                0 <= i <= 40,
                forall|j: int| 0 <= j < i ==> buf@[j] == bytes@[j],
            decreases 40 - i,
        {
            buf[i] = bytes[i];
            i = i + 1;
        }
        assert(buf@ =~= bytes@);
        Ok(SumAddNotificationRequest::from_bytes(buf))
    }
}

/// The result of item `i` of an add-notification answer: the new handle when
/// its code is `NoError`, the code otherwise.
pub open spec fn spec_add_notification_item(b: Seq<u8>, i: int) -> Result<u32, AdsReturnCode> {
    let code = ads_return_code_of(seq_u32(b, 8 * i));
    if code == AdsReturnCode::NoError {
        Ok(seq_u32(b, 8 * i + 4))
    } else {
        Err(code)
    }
}

/// The answer to a Sum Add Notification request: per subscription a 4-byte
/// error code and a 4-byte handle.
#[derive(Debug, Clone, PartialEq, Eq, Hash)]
pub struct SumAddNotificationResponse {
    buffer: Vec<u8>,
}

impl SumAddNotificationResponse {
    /// Size of one item in bytes.
    pub const ITEM_LENGTH: usize = 8;

    /// The received buffer.
    pub closed spec fn spec_buffer(self) -> Seq<u8> {
        self.buffer@
    }

    /// Wraps a received buffer; fails when its length is not a multiple of 8.
    pub fn new(buf: Vec<u8>) -> (r: Result<SumAddNotificationResponse, SumError>)
        ensures
            buf@.len() % 8 != 0 ==> r == Err::<SumAddNotificationResponse, SumError>(
                spec_not_multiple_error(buf@.len(), 8),
            ),
            buf@.len() % 8 == 0 ==> (r matches Ok(s) && s.spec_buffer() == buf@),
    {
        let n = buf.len();
        let rem = n % 8;
        if rem != 0 {
            return Err(SumError::UnexpectedLength { expected: n.saturating_add(8 - rem), got: n });
        }
        Ok(SumAddNotificationResponse { buffer: buf })
    }

    /// A response with no items.
    pub fn empty() -> (r: SumAddNotificationResponse)
        ensures
            r.spec_buffer() == Seq::<u8>::empty(),
    {
        SumAddNotificationResponse { buffer: Vec::new() }
    }

    /// The received buffer.
    pub fn buffer(&self) -> (r: &[u8])
        ensures
            r@ == self.spec_buffer(),
    {
        self.buffer.as_slice()
    }

    /// The number of items.
    pub fn len(&self) -> (r: usize)
        ensures
            r == self.spec_buffer().len() / 8,
    {
        self.buffer.len() / 8
    }

    /// True when the response holds no bytes.
    pub fn is_empty(&self) -> (r: bool)
        ensures
            r == (self.spec_buffer().len() == 0),
    {
        self.buffer.len() == 0
    }

    /// The result of subscription `index`, or `None` past the last one.
    pub fn get(&self, index: usize) -> (r: Option<Result<NotificationHandle, AdsReturnCode>>)
        ensures
            index >= self.spec_buffer().len() / 8 ==> r is None,
            index < self.spec_buffer().len() / 8 ==> match spec_add_notification_item(self.spec_buffer(), index as int) {
                Ok(h) => r matches Some(Ok(handle)) && handle.spec_value() == h,
                Err(c) => r == Some(Err::<NotificationHandle, AdsReturnCode>(c)),
            },
    {
        if index >= self.len() {
            return None;
        }
        let n = self.buffer.len();
        assert(8 * index + 8 <= self.spec_buffer().len()) by (nonlinear_arith)
            requires
                index < self.spec_buffer().len() / 8,
        ;
        let offset = index * 8;
        let code = u32_from_le([self.buffer[offset], self.buffer[offset + 1], self.buffer[offset + 2], self.buffer[offset + 3]]);
        let handle_val = u32_from_le(
            [self.buffer[offset + 4], self.buffer[offset + 5], self.buffer[offset + 6], self.buffer[offset + 7]],
        );
        match AdsReturnCode::from_u32(code) {
            AdsReturnCode::NoError => Some(Ok(NotificationHandle::new(handle_val))),
            err => Some(Err(err)),
        }
    }

    /// A cursor over the items.
    pub fn iter(&self) -> (r: SumAddNotificationIter<'_>)
        ensures
            r.spec_buffer() == self.spec_buffer(),
            r.spec_cursor() == 0,
    {
        SumAddNotificationIter { response: self, cursor: 0 }
    }
}

/// A cursor over the items of a [`SumAddNotificationResponse`].
#[derive(Clone, PartialEq, Eq, Hash)]
pub struct SumAddNotificationIter<'a> {
    response: &'a SumAddNotificationResponse,
    cursor: usize,
}

impl<'a> SumAddNotificationIter<'a> {
    /// The buffer of the response.
    pub closed spec fn spec_buffer(self) -> Seq<u8> {
        self.response.spec_buffer()
    }

    /// The index of the next item.
    pub closed spec fn spec_cursor(self) -> usize {
        self.cursor
    }

    /// The next item, or `None` after the last one.
    pub fn next(&mut self) -> (r: Option<Result<NotificationHandle, AdsReturnCode>>)
        ensures
            final(self).spec_buffer() == old(self).spec_buffer(),
            old(self).spec_cursor() >= old(self).spec_buffer().len() / 8 ==> r is None && final(self).spec_cursor()
                == old(self).spec_cursor(),
            old(self).spec_cursor() < old(self).spec_buffer().len() / 8 ==> final(self).spec_cursor() == old(
                self,
            ).spec_cursor() + 1 && match spec_add_notification_item(old(self).spec_buffer(), old(self).spec_cursor() as int) {
                Ok(h) => r matches Some(Ok(handle)) && handle.spec_value() == h,
                Err(c) => r == Some(Err::<NotificationHandle, AdsReturnCode>(c)),
            },
    {
        if self.cursor < self.response.len() {
            let value = self.response.get(self.cursor);
            self.cursor = self.cursor + 1;
            value
        } else {
            None
        }
    }
}

/// A subscription written as its 40 bytes decodes to the same index group
/// and index offset, and to its attributes with each time span rounded down
/// to whole ticks and clamped to `u32::MAX` ticks.
pub proof fn lemma_sum_add_notification_roundtrip(
    ig: u32,
    io: u32,
    length: u32,
    mode: AdsTransMode,
    max_delay_nanos: u128,
    cycle_time_nanos: u128,
)
    requires
        ads_trans_mode_of(ads_trans_mode_code(mode)) == mode,
    ensures
        ({
            let a = spec_notification_attrib_bytes(length, mode, max_delay_nanos as int, cycle_time_nanos as int);
            let b = spec_sum_add_notification_bytes(ig, io, a);
            &&& b.len() == 40
            &&& seq_u32(b, 0) == ig
            &&& seq_u32(b, 4) == io
            &&& spec_notification_attrib_of(b.subrange(8, 24)) == (
                length,
                mode,
                (spec_ticks_of_nanos(max_delay_nanos as int) as int * 100) as u128,
                (spec_ticks_of_nanos(cycle_time_nanos as int) as int * 100) as u128,
            )
        }),
{
    let a = spec_notification_attrib_bytes(length, mode, max_delay_nanos as int, cycle_time_nanos as int);
    let b = spec_sum_add_notification_bytes(ig, io, a);
    lemma_u32_roundtrip(ig);
    lemma_u32_roundtrip(io);
    assert(b.subrange(8, 24) =~= a);
    lemma_notification_attrib_fields_roundtrip(length, mode, max_delay_nanos, cycle_time_nanos);
}

} // verus!
