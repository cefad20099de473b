//! Flags of a symbol upload info block.

use vstd::prelude::*;
use crate::text::{flag_table_view, flags_text, flags_text_of};
use crate::bytes::{le_u32, u32_bytes, u32_from_le, u32_to_le, lemma_u32_roundtrip};
use crate::error::AdsSymbolUploadInfoError;

verus! {

/// Flags describing a symbol upload (platform, base types, encoding).
#[derive(Debug, Clone, Copy, PartialEq, Eq, Structural, PartialOrd, Ord, Hash)]
pub struct AdsSymbolUploadFlags(u32);

/// The flag names of [`AdsSymbolUploadFlags`], in declaration order.
pub open spec fn ads_symbol_upload_flags_names() -> Seq<(u32, Seq<char>)> {
    seq![
        (0x00000001u32, "IS_64BIT_PLATFORM"@),
        (0x00000002u32, "INCLUDES_BASE_TYPES"@),
        (0x00000004u32, "UTF8_ENCODED_STRING_DATA"@),
    ]
}

/// The flag names of [`AdsSymbolUploadFlags`], in declaration order.
fn ads_symbol_upload_flags_name_table() -> (r: Vec<(u32, &'static str)>)
    ensures
        flag_table_view(r@) == ads_symbol_upload_flags_names(),
{
    let r = vec![
        (0x00000001u32, "IS_64BIT_PLATFORM"),
        (0x00000002u32, "INCLUDES_BASE_TYPES"),
        (0x00000004u32, "UTF8_ENCODED_STRING_DATA"),
    ];
    assert(flag_table_view(r@) =~= ads_symbol_upload_flags_names());
    r
}

impl AdsSymbolUploadFlags {
    /// The target runtime is a 64-bit platform. Pointer and reference sizes are 8 bytes. (raw bit value)
    pub const IS_64BIT_PLATFORM: u32 = 0x1;
    /// The data type blob includes built-in base types (e.g. `UDINT`, `LINT`). (raw bit value)
    pub const INCLUDES_BASE_TYPES: u32 = 0x2;
    /// All PLC `STRING` data is UTF-8 encoded. Set from TwinCAT 4026 onwards. (raw bit value)
    pub const UTF8_ENCODED_STRING_DATA: u32 = 0x4;
    /// Utf8 64 bit platform data. (raw bit value)
    pub const UTF8_64_BIT_PLATFORM_DATA: u32 = 0x5;
    /// Includes base types data and 64 bit. (raw bit value)
    pub const INCLUDES_BASE_TYPES_DATA_AND_64_BIT: u32 = 0x3;

    /// Wire size in bytes.
    pub const LENGTH: usize = 4;

    /// The raw bits of this flag set.
    pub closed spec fn spec_bits(self) -> u32 {
        self.0
    }

    /// The text form: `None` when no flag is set, else the names of the set
    /// flags joined with ` | `, with the bits that no name covers as `0x` and lower-case hexadecimal digits.
    pub fn to_text(&self) -> (r: String)
        ensures
            r@ == flags_text_of(self.spec_bits(), ads_symbol_upload_flags_names(), true),
    {
        flags_text(self.0, &ads_symbol_upload_flags_name_table(), true)
    }

    /// True when every bit of `mask` is set.
    pub open spec fn spec_has(self, mask: u32) -> bool {
        self.spec_bits() & mask == mask
    }

    /// Creates a flag set from a raw value, keeping unrecognised bits.
    pub fn new(raw: u32) -> (r: AdsSymbolUploadFlags)
        ensures
            r.spec_bits() == raw,
    {
        AdsSymbolUploadFlags(raw)
    }

    /// Creates a flag set from a raw value, keeping unrecognised bits.
    pub fn from_bits_retain(raw: u32) -> (r: AdsSymbolUploadFlags)
        ensures
            r.spec_bits() == raw,
    {
        AdsSymbolUploadFlags(raw)
    }

    /// The empty flag set.
    pub fn empty() -> (r: AdsSymbolUploadFlags)
        ensures
            r.spec_bits() == 0,
    {
        AdsSymbolUploadFlags(0)
    }

    /// Creates a flag set from its 4-byte little-endian encoding.
    pub fn from_bytes(b: [u8; 4]) -> (r: AdsSymbolUploadFlags)
        ensures
            r.spec_bits() == le_u32(b[0], b[1], b[2], b[3]),
    {
        AdsSymbolUploadFlags(u32_from_le(b))
    }

    /// The 4-byte little-endian encoding of this flag set.
    pub fn to_bytes(self) -> (r: [u8; 4])
        ensures
            r@ == u32_bytes(self.spec_bits()),
    {
        u32_to_le(self.0)
    }

    /// Returns the raw value.
    pub fn as_raw(self) -> (r: u32)
        ensures
            r == self.spec_bits(),
    {
        self.0
    }

    /// Returns the raw value.
    pub fn bits(self) -> (r: u32)
        ensures
            r == self.spec_bits(),
    {
        self.0
    }

    /// True when no bit is set.
    pub fn is_empty(self) -> (r: bool)
        ensures
            r == (self.spec_bits() == 0),
    {
        self.0 == 0
    }

    /// True when every bit of `other` is also set in `self`.
    pub fn contains(self, other: AdsSymbolUploadFlags) -> (r: bool)
        ensures
            r == self.spec_has(other.spec_bits()),
    {
        self.0 & other.0 == other.0
    }

    /// The union of two flag sets.
    pub fn union(self, other: AdsSymbolUploadFlags) -> (r: AdsSymbolUploadFlags)
        ensures
            r.spec_bits() == self.spec_bits() | other.spec_bits(),
    {
        AdsSymbolUploadFlags(self.0 | other.0)
    }

    /// The bits of `self` that are not in `other`.
    pub fn difference(self, other: AdsSymbolUploadFlags) -> (r: AdsSymbolUploadFlags)
        ensures
            r.spec_bits() == self.spec_bits() & !other.spec_bits(),
    {
        AdsSymbolUploadFlags(self.0 & !other.0)
    }

    /// Sets every bit of `other`.
    pub fn insert(&mut self, other: AdsSymbolUploadFlags)
        ensures
            final(self).spec_bits() == old(self).spec_bits() | other.spec_bits(),
    {
        self.0 = self.0 | other.0;
    }

    /// Clears every bit of `other`.
    pub fn remove(&mut self, other: AdsSymbolUploadFlags)
        ensures
            final(self).spec_bits() == old(self).spec_bits() & !other.spec_bits(),
    {
        self.0 = self.0 & !other.0;
    }

    /// Returns `true` if the target runtime is a 64-bit platform.
    pub fn is_64bit_platform(self) -> (r: bool)
        ensures
            r == self.spec_has(0x1),
    {
        self.0 & 0x1 == 0x1
    }

    /// Returns `true` if the data type blob includes built-in base types.
    pub fn includes_base_types(self) -> (r: bool)
        ensures
            r == self.spec_has(0x2),
    {
        self.0 & 0x2 == 0x2
    }

    /// Returns `true` if PLC `STRING` values are UTF-8 encoded.
    pub fn is_utf8_encoded(self) -> (r: bool)
        ensures
            r == self.spec_has(0x4),
    {
        self.0 & 0x4 == 0x4
    }


    /// Parses a slice of exactly four bytes.
    pub fn try_from_slice(value: &[u8]) -> (r: Result<AdsSymbolUploadFlags, AdsSymbolUploadInfoError>)
        ensures
            value@.len() != 4 ==> r == Err::<AdsSymbolUploadFlags, AdsSymbolUploadInfoError>(
                AdsSymbolUploadInfoError::UnexpectedLength { expected: 4, got: value@.len() as usize },
            ),
            value@.len() == 4 ==> (r matches Ok(f) && f.spec_bits() == le_u32(value@[0], value@[1], value@[2], value@[3])),
    {
        if value.len() != 4 {
            return Err(AdsSymbolUploadInfoError::UnexpectedLength { expected: 4, got: value.len() });
        }
        Ok(AdsSymbolUploadFlags::from_bytes([value[0], value[1], value[2], value[3]]))
    }

}

impl core::ops::BitOr for AdsSymbolUploadFlags {
    type Output = AdsSymbolUploadFlags;

    fn bitor(self, rhs: AdsSymbolUploadFlags) -> (r: AdsSymbolUploadFlags) {
        AdsSymbolUploadFlags(self.0 | rhs.0)
    }
}

impl vstd::std_specs::ops::BitOrSpecImpl for AdsSymbolUploadFlags {
    open spec fn obeys_bitor_spec() -> bool {
        true
    }

    open spec fn bitor_req(self, rhs: AdsSymbolUploadFlags) -> bool {
        true
    }

    closed spec fn bitor_spec(self, rhs: AdsSymbolUploadFlags) -> AdsSymbolUploadFlags {
        AdsSymbolUploadFlags(self.0 | rhs.0)
    }
}

impl core::default::Default for AdsSymbolUploadFlags {
    fn default() -> (r: AdsSymbolUploadFlags)
        ensures
            r.spec_bits() == 0,
    {
        AdsSymbolUploadFlags(0)
    }
}

/// Decoding the bytes that a flag set encodes to gives the same flag set.
pub proof fn lemma_ads_symbol_upload_flags_bytes_roundtrip(f: AdsSymbolUploadFlags)
    ensures
        le_u32(u32_bytes(f.spec_bits())[0], u32_bytes(f.spec_bits())[1], u32_bytes(f.spec_bits())[2], u32_bytes(f.spec_bits())[3]) == f.spec_bits(),
{
    lemma_u32_roundtrip(f.spec_bits());
}

} // verus!
