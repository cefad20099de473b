//! Handles of PLC symbols acquired by name.

use vstd::prelude::*;
use crate::bytes::{le_u32, u32_bytes, u32_from_le, u32_to_le, lemma_u32_bytes_roundtrip, lemma_u32_roundtrip, spec_u32_array};

verus! {

/// A handle to a PLC symbol, acquired by name and released after use.
#[derive(Debug, Clone, Copy, PartialEq, Eq, PartialOrd, Ord, Hash)]
pub struct SymbolHandle([u8; 4]);

impl SymbolHandle {
    /// Wire size in bytes.
    pub const LENGTH: usize = 4;

    /// The four wire bytes of the handle.
    pub closed spec fn spec_bytes(self) -> Seq<u8> {
        self.0@
    }

    /// The handle value.
    pub open spec fn spec_value(self) -> u32 {
        le_u32(self.spec_bytes()[0], self.spec_bytes()[1], self.spec_bytes()[2], self.spec_bytes()[3])
    }

    /// Creates a handle from its numeric value.
    pub fn new(handle: u32) -> (r: SymbolHandle)
        ensures
            r.spec_bytes() == u32_bytes(handle),
            r.spec_value() == handle,
    {
        proof {
            lemma_u32_roundtrip(handle);
        }
        SymbolHandle(u32_to_le(handle))
    }

    /// Creates a handle from its 4-byte little-endian encoding.
    pub fn from_bytes(bytes: [u8; 4]) -> (r: SymbolHandle)
        ensures
            r.spec_bytes() == bytes@,
    {
        SymbolHandle(bytes)
    }

    /// The 4-byte little-endian encoding.
    pub fn to_bytes(&self) -> (r: [u8; 4])
        ensures
            r@ == self.spec_bytes(),
    {
        self.0
    }

    /// The handle value.
    pub fn as_u32(&self) -> (r: u32)
        ensures
            r == self.spec_value(),
    {
        u32_from_le(self.0)
    }

    /// The handle bytes as a slice.
    pub fn as_bytes(&self) -> (r: &[u8])
        ensures
            r@ == self.spec_bytes(),
    {
        self.0.as_slice()
    }

    /// The zero handle.
    pub fn zero() -> (r: SymbolHandle)
        ensures
            r.spec_value() == 0,
    {
        SymbolHandle::new(0)
    }

}

impl core::convert::From<u32> for SymbolHandle {
    fn from(v: u32) -> (r: SymbolHandle)
        ensures
            r.spec_bytes() == u32_bytes(v),
            r.spec_value() == v,
    {
        let h = SymbolHandle::new(v);
        proof {
            let a = spec_u32_array(v);
            assert(h.0@ == u32_bytes(v));
            assert(a@ == u32_bytes(v));
            assert(a =~= h.0);
        }
        h
    }
}

impl vstd::std_specs::convert::FromSpecImpl<u32> for SymbolHandle {
    open spec fn obeys_from_spec() -> bool {
        true
    }

    closed spec fn from_spec(v: u32) -> SymbolHandle {
        SymbolHandle(spec_u32_array(v))
    }
}

impl core::convert::From<SymbolHandle> for u32 {
    fn from(v: SymbolHandle) -> (r: u32) {
        v.as_u32()
    }
}

impl vstd::std_specs::convert::FromSpecImpl<SymbolHandle> for u32 {
    open spec fn obeys_from_spec() -> bool {
        true
    }

    open spec fn from_spec(v: SymbolHandle) -> u32 {
        v.spec_value()
    }
}

impl core::convert::From<[u8; 4]> for SymbolHandle {
    fn from(bytes: [u8; 4]) -> (r: SymbolHandle)
        ensures
            r.spec_bytes() == bytes@,
    {
        SymbolHandle(bytes)
    }
}

impl vstd::std_specs::convert::FromSpecImpl<[u8; 4]> for SymbolHandle {
    open spec fn obeys_from_spec() -> bool {
        true
    }

    closed spec fn from_spec(bytes: [u8; 4]) -> SymbolHandle {
        SymbolHandle(bytes)
    }
}

/// Two handles with the same value are the same handle.
pub proof fn lemma_symbol_handle_eq(a: SymbolHandle, b: SymbolHandle)
    requires
        a.spec_value() == b.spec_value(),
    ensures
        a == b,
{
    let x = a.spec_bytes();
    let y = b.spec_bytes();
    lemma_u32_bytes_roundtrip(x[0], x[1], x[2], x[3]);
    lemma_u32_bytes_roundtrip(y[0], y[1], y[2], y[3]);
    assert(seq![x[0], x[1], x[2], x[3]] =~= x);
    assert(seq![y[0], y[1], y[2], y[3]] =~= y);
    assert(a.0@ == b.0@);
    assert(a.0 =~= b.0);
}

} // verus!
