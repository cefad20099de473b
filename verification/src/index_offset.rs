//! Index offsets of ADS requests.

use vstd::prelude::*;
use crate::text::{dec_text, push_dec};
use crate::bytes::{le_u32, u32_bytes, u32_from_le, u32_to_le, lemma_u32_roundtrip};

verus! {

/// The index offset of an ADS read/write/notification request (the address within an index group).
#[derive(Debug, Clone, Copy, PartialEq, Eq, Structural, PartialOrd, Ord, Hash)]
pub struct IndexOffset(u32);

impl IndexOffset {
    /// Wire size in bytes.
    pub const LENGTH: usize = 4;

    /// The zero offset.
    pub const ZERO: u32 = 0;
    /// Base offset of the I/O input image.
    pub const IO_IMAGE_INPUT_BASE: u32 = 0x0001_F400;
    /// Base bit offset of the I/O input image.
    pub const IO_IMAGE_INPUT_BIT_BASE: u32 = 0x000F_A000;
    /// Base offset of the I/O output image.
    pub const IO_IMAGE_OUTPUT_BASE: u32 = 0x0003_E800;
    /// Base bit offset of the I/O output image.
    pub const IO_IMAGE_OUTPUT_BIT_BASE: u32 = 0x001F_4000;

    /// The numeric value.
    pub closed spec fn spec_value(self) -> u32 {
        self.0
    }

    /// The text form: the decimal digits of the offset.
    pub fn to_text(&self) -> (r: String)
        ensures
            r@ == dec_text(self.spec_value() as nat),
    {
        let mut s = String::new();
        push_dec(&mut s, self.0 as u64);
        s
    }

    /// Creates a value from a raw `u32`.
    pub fn new(raw: u32) -> (r: IndexOffset)
        ensures
            r.spec_value() == raw,
    {
        IndexOffset(raw)
    }

    /// Returns the raw `u32`.
    pub fn as_u32(&self) -> (r: u32)
        ensures
            r == self.spec_value(),
    {
        self.0
    }

    /// The 4-byte little-endian encoding.
    pub fn to_bytes(&self) -> (r: [u8; 4])
        ensures
            r@ == u32_bytes(self.spec_value()),
    {
        u32_to_le(self.0)
    }

    /// Creates a value from its 4-byte little-endian encoding.
    pub fn from_bytes(bytes: [u8; 4]) -> (r: IndexOffset)
        ensures
            r.spec_value() == le_u32(bytes[0], bytes[1], bytes[2], bytes[3]),
    {
        IndexOffset(u32_from_le(bytes))
    }

}

impl core::convert::From<u32> for IndexOffset {
    fn from(v: u32) -> (r: IndexOffset)
        ensures
            r.spec_value() == v,
    {
        IndexOffset(v)
    }
}

impl vstd::std_specs::convert::FromSpecImpl<u32> for IndexOffset {
    open spec fn obeys_from_spec() -> bool {
        true
    }

    closed spec fn from_spec(v: u32) -> IndexOffset {
        IndexOffset(v)
    }
}

impl core::convert::From<IndexOffset> for u32 {
    fn from(v: IndexOffset) -> (r: u32)
        ensures
            r == v.spec_value(),
    {
        v.0
    }
}

impl vstd::std_specs::convert::FromSpecImpl<IndexOffset> for u32 {
    open spec fn obeys_from_spec() -> bool {
        true
    }

    closed spec fn from_spec(v: IndexOffset) -> u32 {
        v.0
    }
}

/// Two values with the same number are the same value.
pub proof fn lemma_index_offset_ext(a: IndexOffset, b: IndexOffset)
    requires
        a.spec_value() == b.spec_value(),
    ensures
        a == b,
{
}

/// Decoding the bytes of a value gives the value back.
pub proof fn lemma_index_offset_bytes_roundtrip(x: IndexOffset)
    ensures
        le_u32(u32_bytes(x.spec_value())[0], u32_bytes(x.spec_value())[1], u32_bytes(x.spec_value())[2],
            u32_bytes(x.spec_value())[3]) == x.spec_value(),
{
    lemma_u32_roundtrip(x.spec_value());
}

impl core::ops::Add<u32> for IndexOffset {
    type Output = IndexOffset;

    fn add(self, rhs: u32) -> (r: IndexOffset) {
        IndexOffset(self.0 + rhs)
    }
}

impl vstd::std_specs::ops::AddSpecImpl<u32> for IndexOffset {
    open spec fn obeys_add_spec() -> bool {
        true
    }

    closed spec fn add_req(self, rhs: u32) -> bool {
        self.0 + rhs <= u32::MAX
    }

    closed spec fn add_spec(self, rhs: u32) -> IndexOffset {
        IndexOffset((self.0 + rhs) as u32)
    }
}

impl core::ops::Sub<u32> for IndexOffset {
    type Output = IndexOffset;

    fn sub(self, rhs: u32) -> (r: IndexOffset) {
        IndexOffset(self.0 - rhs)
    }
}

impl vstd::std_specs::ops::SubSpecImpl<u32> for IndexOffset {
    open spec fn obeys_sub_spec() -> bool {
        true
    }

    closed spec fn sub_req(self, rhs: u32) -> bool {
        self.0 >= rhs
    }

    closed spec fn sub_spec(self, rhs: u32) -> IndexOffset {
        IndexOffset((self.0 - rhs) as u32)
    }
}

impl core::ops::Mul<u32> for IndexOffset {
    type Output = IndexOffset;

    fn mul(self, rhs: u32) -> (r: IndexOffset) {
        IndexOffset(self.0 * rhs)
    }
}

impl vstd::std_specs::ops::MulSpecImpl<u32> for IndexOffset {
    open spec fn obeys_mul_spec() -> bool {
        true
    }

    closed spec fn mul_req(self, rhs: u32) -> bool {
        self.0 * rhs <= u32::MAX
    }

    closed spec fn mul_spec(self, rhs: u32) -> IndexOffset {
        IndexOffset((self.0 * rhs) as u32)
    }
}

impl core::ops::Div<u32> for IndexOffset {
    type Output = IndexOffset;

    fn div(self, rhs: u32) -> (r: IndexOffset) {
        IndexOffset(self.0 / rhs)
    }
}

impl vstd::std_specs::ops::DivSpecImpl<u32> for IndexOffset {
    open spec fn obeys_div_spec() -> bool {
        true
    }

    closed spec fn div_req(self, rhs: u32) -> bool {
        rhs != 0
    }

    closed spec fn div_spec(self, rhs: u32) -> IndexOffset {
        IndexOffset((self.0 / rhs) as u32)
    }
}

impl core::ops::Rem<u32> for IndexOffset {
    type Output = IndexOffset;

    fn rem(self, rhs: u32) -> (r: IndexOffset) {
        IndexOffset(self.0 % rhs)
    }
}

impl vstd::std_specs::ops::RemSpecImpl<u32> for IndexOffset {
    open spec fn obeys_rem_spec() -> bool {
        true
    }

    closed spec fn rem_req(self, rhs: u32) -> bool {
        rhs != 0
    }

    closed spec fn rem_spec(self, rhs: u32) -> IndexOffset {
        IndexOffset((self.0 % rhs) as u32)
    }
}

impl core::ops::BitAnd<u32> for IndexOffset {
    type Output = IndexOffset;

    fn bitand(self, rhs: u32) -> (r: IndexOffset) {
        IndexOffset(self.0 & rhs)
    }
}

impl vstd::std_specs::ops::BitAndSpecImpl<u32> for IndexOffset {
    open spec fn obeys_bitand_spec() -> bool {
        true
    }

    closed spec fn bitand_req(self, rhs: u32) -> bool {
        true
    }

    closed spec fn bitand_spec(self, rhs: u32) -> IndexOffset {
        IndexOffset((self.0 & rhs) as u32)
    }
}

impl core::ops::BitOr<u32> for IndexOffset {
    type Output = IndexOffset;

    fn bitor(self, rhs: u32) -> (r: IndexOffset) {
        IndexOffset(self.0 | rhs)
    }
}

impl vstd::std_specs::ops::BitOrSpecImpl<u32> for IndexOffset {
    open spec fn obeys_bitor_spec() -> bool {
        true
    }

    closed spec fn bitor_req(self, rhs: u32) -> bool {
        true
    }

    closed spec fn bitor_spec(self, rhs: u32) -> IndexOffset {
        IndexOffset((self.0 | rhs) as u32)
    }
}

impl core::ops::BitXor<u32> for IndexOffset {
    type Output = IndexOffset;

    fn bitxor(self, rhs: u32) -> (r: IndexOffset) {
        IndexOffset(self.0 ^ rhs)
    }
}

impl vstd::std_specs::ops::BitXorSpecImpl<u32> for IndexOffset {
    open spec fn obeys_bitxor_spec() -> bool {
        true
    }

    closed spec fn bitxor_req(self, rhs: u32) -> bool {
        true
    }

    closed spec fn bitxor_spec(self, rhs: u32) -> IndexOffset {
        IndexOffset((self.0 ^ rhs) as u32)
    }
}

impl core::ops::Shl<u32> for IndexOffset {
    type Output = IndexOffset;

    fn shl(self, rhs: u32) -> (r: IndexOffset) {
        IndexOffset(self.0 << rhs)
    }
}

impl vstd::std_specs::ops::ShlSpecImpl<u32> for IndexOffset {
    open spec fn obeys_shl_spec() -> bool {
        true
    }

    closed spec fn shl_req(self, rhs: u32) -> bool {
        rhs < 32
    }

    closed spec fn shl_spec(self, rhs: u32) -> IndexOffset {
        IndexOffset((self.0 << rhs) as u32)
    }
}

impl core::ops::Shr<u32> for IndexOffset {
    type Output = IndexOffset;

    fn shr(self, rhs: u32) -> (r: IndexOffset) {
        IndexOffset(self.0 >> rhs)
    }
}

impl vstd::std_specs::ops::ShrSpecImpl<u32> for IndexOffset {
    open spec fn obeys_shr_spec() -> bool {
        true
    }

    closed spec fn shr_req(self, rhs: u32) -> bool {
        rhs < 32
    }

    closed spec fn shr_spec(self, rhs: u32) -> IndexOffset {
        IndexOffset((self.0 >> rhs) as u32)
    }
}

impl core::default::Default for IndexOffset {
    fn default() -> (r: IndexOffset)
        ensures
            r.spec_value() == 0,
    {
        IndexOffset(0)
    }
}

} // verus!
