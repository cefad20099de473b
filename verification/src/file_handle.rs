//! Handles of files opened through the System Service.

use vstd::prelude::*;
use crate::bytes::{le_u32, u32_bytes, u32_from_le, u32_to_le, lemma_u32_bytes_roundtrip, lemma_u32_roundtrip, spec_u32_array};
use crate::bytes::slice_to_array4;
use std::array::TryFromSliceError;

verus! {

/// A handle to a file opened through the System Service.
#[derive(Debug, Clone, Copy, PartialEq, Eq, Hash)]
pub struct AdsFileHandle([u8; 4]);

impl AdsFileHandle {
    /// Wire size in bytes.
    pub const LENGTH: usize = 4;

    /// The four wire bytes of the handle.
    pub closed spec fn spec_bytes(self) -> Seq<u8> {
        self.0@
    }

    /// The handle value.
    pub open spec fn spec_value(self) -> u32 {
        le_u32(self.spec_bytes()[0], self.spec_bytes()[1], self.spec_bytes()[2], self.spec_bytes()[3])
    }

    /// Creates a handle from its numeric value.
    pub fn new(handle: u32) -> (r: AdsFileHandle)
        ensures
            r.spec_bytes() == u32_bytes(handle),
            r.spec_value() == handle,
    {
        proof {
            lemma_u32_roundtrip(handle);
        }
        AdsFileHandle(u32_to_le(handle))
    }

    /// Creates a handle from its 4-byte little-endian encoding.
    pub fn from_bytes(bytes: [u8; 4]) -> (r: AdsFileHandle)
        ensures
            r.spec_bytes() == bytes@,
    {
        AdsFileHandle(bytes)
    }

    /// The 4-byte little-endian encoding.
    pub fn to_bytes(&self) -> (r: [u8; 4])
        ensures
            r@ == self.spec_bytes(),
    {
        self.0
    }

    /// The handle value.
    pub fn as_u32(&self) -> (r: u32)
        ensures
            r == self.spec_value(),
    {
        u32_from_le(self.0)
    }

    /// The handle bytes as a slice.
    pub fn as_bytes(&self) -> (r: &[u8])
        ensures
            r@ == self.spec_bytes(),
    {
        self.0.as_slice()
    }

    /// Parses a handle from a slice of exactly four bytes.
    pub fn try_from_slice(bytes: &[u8]) -> (r: Result<AdsFileHandle, TryFromSliceError>)
        ensures
            r is Ok <==> bytes@.len() == 4,
            r matches Ok(h) ==> h.spec_bytes() == bytes@,
    {
        match slice_to_array4(bytes) {
            Ok(a) => Ok(AdsFileHandle(a)),
            Err(e) => Err(e),
        }
    }

}

impl core::convert::From<u32> for AdsFileHandle {
    fn from(v: u32) -> (r: AdsFileHandle)
        ensures
            r.spec_bytes() == u32_bytes(v),
            r.spec_value() == v,
    {
        let h = AdsFileHandle::new(v);
        proof {
            let a = spec_u32_array(v);
            assert(h.0@ == u32_bytes(v));
            assert(a@ == u32_bytes(v));
            assert(a =~= h.0);
        }
        h
    }
}

impl vstd::std_specs::convert::FromSpecImpl<u32> for AdsFileHandle {
    open spec fn obeys_from_spec() -> bool {
        true
    }

    closed spec fn from_spec(v: u32) -> AdsFileHandle {
        AdsFileHandle(spec_u32_array(v))
    }
}

impl core::convert::From<AdsFileHandle> for u32 {
    fn from(v: AdsFileHandle) -> (r: u32) {
        v.as_u32()
    }
}

impl vstd::std_specs::convert::FromSpecImpl<AdsFileHandle> for u32 {
    open spec fn obeys_from_spec() -> bool {
        true
    }

    open spec fn from_spec(v: AdsFileHandle) -> u32 {
        v.spec_value()
    }
}

/// The bytes of a handle are the little-endian encoding of its value.
pub proof fn lemma_file_handle_value_bytes(h: AdsFileHandle)
    ensures
        u32_bytes(h.spec_value()) == h.spec_bytes(),
{
    let b = h.spec_bytes();
    assert(b.len() == 4);
    lemma_u32_bytes_roundtrip(b[0], b[1], b[2], b[3]);
    assert(seq![b[0], b[1], b[2], b[3]] =~= b);
}

/// Two handles with the same value are the same handle.
pub proof fn lemma_file_handle_eq(a: AdsFileHandle, b: AdsFileHandle)
    requires
        a.spec_value() == b.spec_value(),
    ensures
        a == b,
{
    lemma_file_handle_value_bytes(a);
    lemma_file_handle_value_bytes(b);
    assert(a.0@ == b.0@);
    assert(a.0 =~= b.0);
}

} // verus!
