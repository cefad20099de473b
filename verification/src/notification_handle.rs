//! Handles of device notification subscriptions.

use vstd::prelude::*;
use crate::bytes::{le_u32, u32_bytes, u32_from_le, u32_to_le, lemma_u32_bytes_roundtrip, lemma_u32_roundtrip, spec_u32_array};
use crate::error::AdsNotificationHandleError;

verus! {

/// A handle identifying an active ADS device notification subscription.
///
/// Assigned by the ADS server; its value has no meaning beyond identity.
#[derive(Debug, Clone, Copy, PartialEq, Eq, Hash)]
pub struct NotificationHandle([u8; 4]);

impl NotificationHandle {
    /// Wire size in bytes.
    pub const LENGTH: usize = 4;

    /// The four wire bytes of the handle.
    pub closed spec fn spec_bytes(self) -> Seq<u8> {
        self.0@
    }

    /// The handle value.
    pub open spec fn spec_value(self) -> u32 {
        le_u32(self.spec_bytes()[0], self.spec_bytes()[1], self.spec_bytes()[2], self.spec_bytes()[3])
    }

    /// Creates a handle from its numeric value.
    pub fn new(handle: u32) -> (r: NotificationHandle)
        ensures
            r.spec_bytes() == u32_bytes(handle),
            r.spec_value() == handle,
    {
        proof {
            lemma_u32_roundtrip(handle);
        }
        NotificationHandle(u32_to_le(handle))
    }

    /// Creates a handle from its 4-byte little-endian encoding.
    pub fn from_bytes(bytes: [u8; 4]) -> (r: NotificationHandle)
        ensures
            r.spec_bytes() == bytes@,
    {
        NotificationHandle(bytes)
    }

    /// The 4-byte little-endian encoding.
    pub fn to_bytes(&self) -> (r: [u8; 4])
        ensures
            r@ == self.spec_bytes(),
    {
        self.0
    }

    /// The handle value.
    pub fn as_u32(&self) -> (r: u32)
        ensures
            r == self.spec_value(),
    {
        u32_from_le(self.0)
    }

    /// The handle bytes as a slice.
    pub fn as_bytes(&self) -> (r: &[u8])
        ensures
            r@ == self.spec_bytes(),
    {
        self.0.as_slice()
    }

    /// Parses a handle from a slice of exactly four bytes.
    pub fn try_from_slice(bytes: &[u8]) -> (r: Result<NotificationHandle, AdsNotificationHandleError>)
        ensures
            bytes@.len() != 4 ==> r == Err::<NotificationHandle, AdsNotificationHandleError>(AdsNotificationHandleError::UnexpectedLength { expected: 4, got: bytes@.len() as usize }),
            bytes@.len() == 4 ==> (r matches Ok(h) && h.spec_bytes() == bytes@),
    {
        if bytes.len() != 4 {
            return Err(AdsNotificationHandleError::UnexpectedLength { expected: 4, got: bytes.len() });
        }
        let a = [bytes[0], bytes[1], bytes[2], bytes[3]];
        assert(a@ =~= bytes@);
        Ok(NotificationHandle(a))
    }

}

impl core::convert::From<u32> for NotificationHandle {
    fn from(v: u32) -> (r: NotificationHandle)
        ensures
            r.spec_bytes() == u32_bytes(v),
            r.spec_value() == v,
    {
        let h = NotificationHandle::new(v);
        proof {
            let a = spec_u32_array(v);
            assert(h.0@ == u32_bytes(v));
            assert(a@ == u32_bytes(v));
            assert(a =~= h.0);
        }
        h
    }
}

impl vstd::std_specs::convert::FromSpecImpl<u32> for NotificationHandle {
    open spec fn obeys_from_spec() -> bool {
        true
    }

    closed spec fn from_spec(v: u32) -> NotificationHandle {
        NotificationHandle(spec_u32_array(v))
    }
}

impl core::convert::From<NotificationHandle> for u32 {
    fn from(v: NotificationHandle) -> (r: u32) {
        v.as_u32()
    }
}

impl vstd::std_specs::convert::FromSpecImpl<NotificationHandle> for u32 {
    open spec fn obeys_from_spec() -> bool {
        true
    }

    open spec fn from_spec(v: NotificationHandle) -> u32 {
        v.spec_value()
    }
}

/// The bytes of a handle are the little-endian encoding of its value.
pub proof fn lemma_notification_handle_value_bytes(h: NotificationHandle)
    ensures
        u32_bytes(h.spec_value()) == h.spec_bytes(),
{
    let b = h.spec_bytes();
    assert(b.len() == 4);
    lemma_u32_bytes_roundtrip(b[0], b[1], b[2], b[3]);
    assert(seq![b[0], b[1], b[2], b[3]] =~= b);
}

/// Two handles with the same value are the same handle.
pub proof fn lemma_notification_handle_eq(a: NotificationHandle, b: NotificationHandle)
    requires
        a.spec_value() == b.spec_value(),
    ensures
        a == b,
{
    lemma_notification_handle_value_bytes(a);
    lemma_notification_handle_value_bytes(b);
    assert(a.0@ == b.0@);
    assert(a.0 =~= b.0);
}

} // verus!
