//! Flags and extended flags of symbol entries.

use vstd::prelude::*;
use crate::text::{flag_table_view, flags_text, flags_text_of};
use crate::bytes::{le_u16, u16_bytes, u16_from_le, u16_to_le, lemma_u16_roundtrip, le_u32, u32_bytes, u32_from_le, u32_to_le, lemma_u32_roundtrip};
use crate::error::AdsSymbolInfoError;

verus! {

/// Flags of a symbol entry.
#[derive(Debug, Clone, Copy, PartialEq, Eq, Structural, PartialOrd, Ord, Hash)]
pub struct AdsSymbolFlags(u16);

/// The flag names of [`AdsSymbolFlags`], in declaration order.
pub open spec fn ads_symbol_flags_names() -> Seq<(u32, Seq<char>)> {
    seq![
        (0x0001u32, "PERSISTENT"@),
        (0x0002u32, "BIT_VALUE"@),
        (0x0004u32, "REFERENCE_TO"@),
        (0x0008u32, "TYPE_GUID"@),
        (0x0010u32, "TCOM_INTERFACE_PTR"@),
        (0x0020u32, "READ_ONLY"@),
        (0x0040u32, "ITF_METHOD_ACCESS"@),
        (0x0080u32, "METHOD_DEREF"@),
        (0x0F00u32, "CONTEXT_MASK"@),
        (0x1000u32, "ATTRIBUTES"@),
        (0x2000u32, "STATIC"@),
        (0x4000u32, "INIT_ON_RESET"@),
        (0x8000u32, "EXTENDED_FLAGS"@),
    ]
}

/// The flag names of [`AdsSymbolFlags`], in declaration order.
fn ads_symbol_flags_name_table() -> (r: Vec<(u32, &'static str)>)
    ensures
        flag_table_view(r@) == ads_symbol_flags_names(),
{
    let r = vec![
        (0x0001u32, "PERSISTENT"),
        (0x0002u32, "BIT_VALUE"),
        (0x0004u32, "REFERENCE_TO"),
        (0x0008u32, "TYPE_GUID"),
        (0x0010u32, "TCOM_INTERFACE_PTR"),
        (0x0020u32, "READ_ONLY"),
        (0x0040u32, "ITF_METHOD_ACCESS"),
        (0x0080u32, "METHOD_DEREF"),
        (0x0F00u32, "CONTEXT_MASK"),
        (0x1000u32, "ATTRIBUTES"),
        (0x2000u32, "STATIC"),
        (0x4000u32, "INIT_ON_RESET"),
        (0x8000u32, "EXTENDED_FLAGS"),
    ];
    assert(flag_table_view(r@) =~= ads_symbol_flags_names());
    r
}

impl AdsSymbolFlags {
    /// The symbol's value is persistent and retained across runtime restarts. (raw bit value)
    pub const PERSISTENT: u16 = 0x1;
    /// The symbol represents a single bit value (its byte size is 0). (raw bit value)
    pub const BIT_VALUE: u16 = 0x2;
    /// The symbol is a reference to another variable or memory location. (raw bit value)
    pub const REFERENCE_TO: u16 = 0x4;
    /// The symbol metadata includes a 16-byte Type GUID. (raw bit value)
    pub const TYPE_GUID: u16 = 0x8;
    /// The symbol is a TcCOM interface pointer. (raw bit value)
    pub const TCOM_INTERFACE_PTR: u16 = 0x10;
    /// The symbol is read-only and cannot be written to by an ADS client. (raw bit value)
    pub const READ_ONLY: u16 = 0x20;
    /// The symbol provides interface method access. (raw bit value)
    pub const ITF_METHOD_ACCESS: u16 = 0x40;
    /// The symbol requires method dereferencing. (raw bit value)
    pub const METHOD_DEREF: u16 = 0x80;
    /// A 4-bit mask (bits 8-11) indicating the context of the symbol. (raw bit value)
    pub const CONTEXT_MASK: u16 = 0xf00;
    /// The symbol metadata includes key-value attributes/pragmas. (raw bit value)
    pub const ATTRIBUTES: u16 = 0x1000;
    /// The symbol is statically allocated. (raw bit value)
    pub const STATIC: u16 = 0x2000;
    /// Persistent data will not be restored after a cold reset. (raw bit value)
    pub const INIT_ON_RESET: u16 = 0x4000;
    /// The symbol metadata includes a 4-byte extended flags section ([`AdsSymbol2Flags`]). (raw bit value)
    pub const EXTENDED_FLAGS: u16 = 0x8000;

    /// Wire size in bytes.
    pub const LENGTH: usize = 2;

    /// The raw bits of this flag set.
    pub closed spec fn spec_bits(self) -> u16 {
        self.0
    }

    /// The text form: `None` when no flag is set, else the names of the set
    /// flags joined with ` | `, with the bits that no name covers as `0x` and lower-case hexadecimal digits.
    pub fn to_text(&self) -> (r: String)
        ensures
            r@ == flags_text_of((self.spec_bits() as u32), ads_symbol_flags_names(), true),
    {
        flags_text((self.0 as u32), &ads_symbol_flags_name_table(), true)
    }

    /// True when every bit of `mask` is set.
    pub open spec fn spec_has(self, mask: u16) -> bool {
        self.spec_bits() & mask == mask
    }

    /// Creates a flag set from a raw value, keeping unrecognised bits.
    pub fn new(raw: u16) -> (r: AdsSymbolFlags)
        ensures
            r.spec_bits() == raw,
    {
        AdsSymbolFlags(raw)
    }

    /// Creates a flag set from a raw value, keeping unrecognised bits.
    pub fn from_bits_retain(raw: u16) -> (r: AdsSymbolFlags)
        ensures
            r.spec_bits() == raw,
    {
        AdsSymbolFlags(raw)
    }

    /// The empty flag set.
    pub fn empty() -> (r: AdsSymbolFlags)
        ensures
            r.spec_bits() == 0,
    {
        AdsSymbolFlags(0)
    }

    /// Creates a flag set from its 2-byte little-endian encoding.
    pub fn from_bytes(b: [u8; 2]) -> (r: AdsSymbolFlags)
        ensures
            r.spec_bits() == le_u16(b[0], b[1]),
    {
        AdsSymbolFlags(u16_from_le(b))
    }

    /// The 2-byte little-endian encoding of this flag set.
    pub fn to_bytes(self) -> (r: [u8; 2])
        ensures
            r@ == u16_bytes(self.spec_bits()),
    {
        u16_to_le(self.0)
    }

    /// Returns the raw value.
    pub fn as_raw(self) -> (r: u16)
        ensures
            r == self.spec_bits(),
    {
        self.0
    }

    /// Returns the raw value.
    pub fn bits(self) -> (r: u16)
        ensures
            r == self.spec_bits(),
    {
        self.0
    }

    /// True when no bit is set.
    pub fn is_empty(self) -> (r: bool)
        ensures
            r == (self.spec_bits() == 0),
    {
        self.0 == 0
    }

    /// True when every bit of `other` is also set in `self`.
    pub fn contains(self, other: AdsSymbolFlags) -> (r: bool)
        ensures
            r == self.spec_has(other.spec_bits()),
    {
        self.0 & other.0 == other.0
    }

    /// The union of two flag sets.
    pub fn union(self, other: AdsSymbolFlags) -> (r: AdsSymbolFlags)
        ensures
            r.spec_bits() == self.spec_bits() | other.spec_bits(),
    {
        AdsSymbolFlags(self.0 | other.0)
    }

    /// The bits of `self` that are not in `other`.
    pub fn difference(self, other: AdsSymbolFlags) -> (r: AdsSymbolFlags)
        ensures
            r.spec_bits() == self.spec_bits() & !other.spec_bits(),
    {
        AdsSymbolFlags(self.0 & !other.0)
    }

    /// Sets every bit of `other`.
    pub fn insert(&mut self, other: AdsSymbolFlags)
        ensures
            final(self).spec_bits() == old(self).spec_bits() | other.spec_bits(),
    {
        self.0 = self.0 | other.0;
    }

    /// Clears every bit of `other`.
    pub fn remove(&mut self, other: AdsSymbolFlags)
        ensures
            final(self).spec_bits() == old(self).spec_bits() & !other.spec_bits(),
    {
        self.0 = self.0 & !other.0;
    }

    /// Returns `true` if the symbol's value is persistent.
    pub fn is_persistent(self) -> (r: bool)
        ensures
            r == self.spec_has(0x1),
    {
        self.0 & 0x1 == 0x1
    }

    /// Returns `true` if the symbol represents a bit value (byte size is 0).
    pub fn is_bit_value(self) -> (r: bool)
        ensures
            r == self.spec_has(0x2),
    {
        self.0 & 0x2 == 0x2
    }

    /// Returns `true` if the symbol is a reference to another variable.
    pub fn is_reference_to(self) -> (r: bool)
        ensures
            r == self.spec_has(0x4),
    {
        self.0 & 0x4 == 0x4
    }

    /// Returns `true` if the symbol metadata contains a Type GUID.
    pub fn has_type_guid(self) -> (r: bool)
        ensures
            r == self.spec_has(0x8),
    {
        self.0 & 0x8 == 0x8
    }

    /// Returns `true` if the symbol is a TcCOM interface pointer.
    pub fn is_tcom_interface_ptr(self) -> (r: bool)
        ensures
            r == self.spec_has(0x10),
    {
        self.0 & 0x10 == 0x10
    }

    /// Returns `true` if the symbol is strictly read-only.
    pub fn is_read_only(self) -> (r: bool)
        ensures
            r == self.spec_has(0x20),
    {
        self.0 & 0x20 == 0x20
    }

    /// Returns `true` if the symbol provides interface method access.
    pub fn is_itf_method_access(self) -> (r: bool)
        ensures
            r == self.spec_has(0x40),
    {
        self.0 & 0x40 == 0x40
    }

    /// Returns `true` if the symbol requires method dereferencing.
    pub fn is_method_deref(self) -> (r: bool)
        ensures
            r == self.spec_has(0x80),
    {
        self.0 & 0x80 == 0x80
    }

    /// Returns `true` if the symbol metadata contains attributes/pragmas.
    pub fn has_attributes(self) -> (r: bool)
        ensures
            r == self.spec_has(0x1000),
    {
        self.0 & 0x1000 == 0x1000
    }

    /// Returns `true` if the symbol is statically allocated.
    pub fn is_static(self) -> (r: bool)
        ensures
            r == self.spec_has(0x2000),
    {
        self.0 & 0x2000 == 0x2000
    }

    /// Returns `true` if persistent data will not be restored on a cold reset.
    pub fn is_init_on_reset(self) -> (r: bool)
        ensures
            r == self.spec_has(0x4000),
    {
        self.0 & 0x4000 == 0x4000
    }

    /// Returns `true` if the symbol metadata includes extended flags.
    pub fn has_extended_flags(self) -> (r: bool)
        ensures
            r == self.spec_has(0x8000),
    {
        self.0 & 0x8000 == 0x8000
    }


    /// The 4-bit context field (bits 8..11).
    pub fn context_mask(self) -> (r: u8)
        ensures
            r == ((self.spec_bits() & 0x0F00) >> 8) as u8,
    {
        ((self.0 & 0x0F00) >> 8) as u8
    }

    /// Parses a slice of exactly two bytes.
    pub fn try_from_slice(value: &[u8]) -> (r: Result<AdsSymbolFlags, AdsSymbolInfoError>)
        ensures
            value@.len() != 2 ==> r == Err::<AdsSymbolFlags, AdsSymbolInfoError>(
                AdsSymbolInfoError::UnexpectedLength { expected: 2, got: value@.len() as usize },
            ),
            value@.len() == 2 ==> (r matches Ok(f) && f.spec_bits() == le_u16(value@[0], value@[1])),
    {
        if value.len() != 2 {
            return Err(AdsSymbolInfoError::UnexpectedLength { expected: 2, got: value.len() });
        }
        Ok(AdsSymbolFlags::from_bytes([value[0], value[1]]))
    }

}

impl core::ops::BitOr for AdsSymbolFlags {
    type Output = AdsSymbolFlags;

    fn bitor(self, rhs: AdsSymbolFlags) -> (r: AdsSymbolFlags) {
        AdsSymbolFlags(self.0 | rhs.0)
    }
}

impl vstd::std_specs::ops::BitOrSpecImpl for AdsSymbolFlags {
    open spec fn obeys_bitor_spec() -> bool {
        true
    }

    open spec fn bitor_req(self, rhs: AdsSymbolFlags) -> bool {
        true
    }

    closed spec fn bitor_spec(self, rhs: AdsSymbolFlags) -> AdsSymbolFlags {
        AdsSymbolFlags(self.0 | rhs.0)
    }
}

impl core::default::Default for AdsSymbolFlags {
    fn default() -> (r: AdsSymbolFlags)
        ensures
            r.spec_bits() == 0,
    {
        AdsSymbolFlags(0)
    }
}

/// Decoding the bytes that a flag set encodes to gives the same flag set.
pub proof fn lemma_ads_symbol_flags_bytes_roundtrip(f: AdsSymbolFlags)
    ensures
        le_u16(u16_bytes(f.spec_bits())[0], u16_bytes(f.spec_bits())[1]) == f.spec_bits(),
{
    lemma_u16_roundtrip(f.spec_bits());
}

/// Extended flags of a symbol entry.
#[derive(Debug, Clone, Copy, PartialEq, Eq, Structural, PartialOrd, Ord, Hash)]
pub struct AdsSymbol2Flags(u32);

/// The flag names of [`AdsSymbol2Flags`], in declaration order.
pub open spec fn ads_symbol2_flags_names() -> Seq<(u32, Seq<char>)> {
    seq![
        (0x00000001u32, "PLC_POINTER_TYPE"@),
        (0x00000002u32, "REDUNDANCY_IGNORE"@),
        (0x00000004u32, "REFACTOR_INFO"@),
        (0x00000008u32, "ONLINE_CHANGE_PTR_REF_TYPE"@),
        (0x00000010u32, "VARIANT_TYPE"@),
    ]
}

/// The flag names of [`AdsSymbol2Flags`], in declaration order.
fn ads_symbol2_flags_name_table() -> (r: Vec<(u32, &'static str)>)
    ensures
        flag_table_view(r@) == ads_symbol2_flags_names(),
{
    let r = vec![
        (0x00000001u32, "PLC_POINTER_TYPE"),
        (0x00000002u32, "REDUNDANCY_IGNORE"),
        (0x00000004u32, "REFACTOR_INFO"),
        (0x00000008u32, "ONLINE_CHANGE_PTR_REF_TYPE"),
        (0x00000010u32, "VARIANT_TYPE"),
    ];
    assert(flag_table_view(r@) =~= ads_symbol2_flags_names());
    r
}

impl AdsSymbol2Flags {
    /// A PLC pointer type that requires derelocation/relocation while equalizing redundancy projects. (raw bit value)
    pub const PLC_POINTER_TYPE: u32 = 0x1;
    /// Ignore this symbol while equalizing redundancy projects. (raw bit value)
    pub const REDUNDANCY_IGNORE: u32 = 0x2;
    /// The symbol contains refactoring information. (raw bit value)
    pub const REFACTOR_INFO: u32 = 0x4;
    /// A PLC pointer or reference that the runtime attempts to resolve after an online change. (raw bit value)
    pub const ONLINE_CHANGE_PTR_REF_TYPE: u32 = 0x8;
    /// The symbol is a Variant Type. (raw bit value)
    pub const VARIANT_TYPE: u32 = 0x10;

    /// Wire size in bytes.
    pub const LENGTH: usize = 4;

    /// The raw bits of this flag set.
    pub closed spec fn spec_bits(self) -> u32 {
        self.0
    }

    /// The text form: `None` when no flag is set, else the names of the set
    /// flags joined with ` | `, with the bits that no name covers as `0x` and lower-case hexadecimal digits.
    pub fn to_text(&self) -> (r: String)
        ensures
            r@ == flags_text_of(self.spec_bits(), ads_symbol2_flags_names(), true),
    {
        flags_text(self.0, &ads_symbol2_flags_name_table(), true)
    }

    /// True when every bit of `mask` is set.
    pub open spec fn spec_has(self, mask: u32) -> bool {
        self.spec_bits() & mask == mask
    }

    /// Creates a flag set from a raw value, keeping unrecognised bits.
    pub fn new(raw: u32) -> (r: AdsSymbol2Flags)
        ensures
            r.spec_bits() == raw,
    {
        AdsSymbol2Flags(raw)
    }

    /// Creates a flag set from a raw value, keeping unrecognised bits.
    pub fn from_bits_retain(raw: u32) -> (r: AdsSymbol2Flags)
        ensures
            r.spec_bits() == raw,
    {
        AdsSymbol2Flags(raw)
    }

    /// The empty flag set.
    pub fn empty() -> (r: AdsSymbol2Flags)
        ensures
            r.spec_bits() == 0,
    {
        AdsSymbol2Flags(0)
    }

    /// Creates a flag set from its 4-byte little-endian encoding.
    pub fn from_bytes(b: [u8; 4]) -> (r: AdsSymbol2Flags)
        ensures
            r.spec_bits() == le_u32(b[0], b[1], b[2], b[3]),
    {
        AdsSymbol2Flags(u32_from_le(b))
    }

    /// The 4-byte little-endian encoding of this flag set.
    pub fn to_bytes(self) -> (r: [u8; 4])
        ensures
            r@ == u32_bytes(self.spec_bits()),
    {
        u32_to_le(self.0)
    }

    /// Returns the raw value.
    pub fn as_raw(self) -> (r: u32)
        ensures
            r == self.spec_bits(),
    {
        self.0
    }

    /// Returns the raw value.
    pub fn bits(self) -> (r: u32)
        ensures
            r == self.spec_bits(),
    {
        self.0
    }

    /// True when no bit is set.
    pub fn is_empty(self) -> (r: bool)
        ensures
            r == (self.spec_bits() == 0),
    {
        self.0 == 0
    }

    /// True when every bit of `other` is also set in `self`.
    pub fn contains(self, other: AdsSymbol2Flags) -> (r: bool)
        ensures
            r == self.spec_has(other.spec_bits()),
    {
        self.0 & other.0 == other.0
    }

    /// The union of two flag sets.
    pub fn union(self, other: AdsSymbol2Flags) -> (r: AdsSymbol2Flags)
        ensures
            r.spec_bits() == self.spec_bits() | other.spec_bits(),
    {
        AdsSymbol2Flags(self.0 | other.0)
    }

    /// The bits of `self` that are not in `other`.
    pub fn difference(self, other: AdsSymbol2Flags) -> (r: AdsSymbol2Flags)
        ensures
            r.spec_bits() == self.spec_bits() & !other.spec_bits(),
    {
        AdsSymbol2Flags(self.0 & !other.0)
    }

    /// Sets every bit of `other`.
    pub fn insert(&mut self, other: AdsSymbol2Flags)
        ensures
            final(self).spec_bits() == old(self).spec_bits() | other.spec_bits(),
    {
        self.0 = self.0 | other.0;
    }

    /// Clears every bit of `other`.
    pub fn remove(&mut self, other: AdsSymbol2Flags)
        ensures
            final(self).spec_bits() == old(self).spec_bits() & !other.spec_bits(),
    {
        self.0 = self.0 & !other.0;
    }

    /// Returns `true` if the symbol is a PLC pointer type.
    pub fn is_plc_pointer_type(self) -> (r: bool)
        ensures
            r == self.spec_has(0x1),
    {
        self.0 & 0x1 == 0x1
    }

    /// Returns `true` if the symbol is ignored during redundancy project equalization.
    pub fn is_redundancy_ignore(self) -> (r: bool)
        ensures
            r == self.spec_has(0x2),
    {
        self.0 & 0x2 == 0x2
    }

    /// Returns `true` if the symbol metadata contains refactoring history.
    pub fn has_refactor_info(self) -> (r: bool)
        ensures
            r == self.spec_has(0x4),
    {
        self.0 & 0x4 == 0x4
    }

    /// Returns `true` if the pointer/reference is resolved after an online change.
    pub fn is_online_change_ptr_ref_type(self) -> (r: bool)
        ensures
            r == self.spec_has(0x8),
    {
        self.0 & 0x8 == 0x8
    }

    /// Returns `true` if the symbol is a Variant Type.
    pub fn is_variant_type(self) -> (r: bool)
        ensures
            r == self.spec_has(0x10),
    {
        self.0 & 0x10 == 0x10
    }


    /// Parses a slice of exactly four bytes.
    pub fn try_from_slice(value: &[u8]) -> (r: Result<AdsSymbol2Flags, AdsSymbolInfoError>)
        ensures
            value@.len() != 4 ==> r == Err::<AdsSymbol2Flags, AdsSymbolInfoError>(
                AdsSymbolInfoError::UnexpectedLength { expected: 4, got: value@.len() as usize },
            ),
            value@.len() == 4 ==> (r matches Ok(f) && f.spec_bits() == le_u32(value@[0], value@[1], value@[2], value@[3])),
    {
        if value.len() != 4 {
            return Err(AdsSymbolInfoError::UnexpectedLength { expected: 4, got: value.len() });
        }
        Ok(AdsSymbol2Flags::from_bytes([value[0], value[1], value[2], value[3]]))
    }

}

impl core::ops::BitOr for AdsSymbol2Flags {
    type Output = AdsSymbol2Flags;

    fn bitor(self, rhs: AdsSymbol2Flags) -> (r: AdsSymbol2Flags) {
        AdsSymbol2Flags(self.0 | rhs.0)
    }
}

impl vstd::std_specs::ops::BitOrSpecImpl for AdsSymbol2Flags {
    open spec fn obeys_bitor_spec() -> bool {
        true
    }

    open spec fn bitor_req(self, rhs: AdsSymbol2Flags) -> bool {
        true
    }

    closed spec fn bitor_spec(self, rhs: AdsSymbol2Flags) -> AdsSymbol2Flags {
        AdsSymbol2Flags(self.0 | rhs.0)
    }
}

impl core::default::Default for AdsSymbol2Flags {
    fn default() -> (r: AdsSymbol2Flags)
        ensures
            r.spec_bits() == 0,
    {
        AdsSymbol2Flags(0)
    }
}

/// Decoding the bytes that a flag set encodes to gives the same flag set.
pub proof fn lemma_ads_symbol2_flags_bytes_roundtrip(f: AdsSymbol2Flags)
    ensures
        le_u32(u32_bytes(f.spec_bits())[0], u32_bytes(f.spec_bits())[1], u32_bytes(f.spec_bits())[2], u32_bytes(f.spec_bits())[3]) == f.spec_bits(),
{
    lemma_u32_roundtrip(f.spec_bits());
}

} // verus!
