//! Flags of method and method parameter entries.

use vstd::prelude::*;
use crate::text::{flag_table_view, flags_text, flags_text_of, hex8_lower, push_hex8_lower, push_text};
use crate::bytes::{le_u32, u32_bytes, u32_from_le, u32_to_le, lemma_u32_roundtrip};
use crate::error::AdsTypeInfoError;

verus! {

/// Flags of a method entry.
#[derive(Debug, Clone, Copy, PartialEq, Eq, Structural, PartialOrd, Ord, Hash)]
pub struct AdsMethodFlags(u32);

/// The flag names of [`AdsMethodFlags`], in declaration order.
pub open spec fn ads_method_flags_names() -> Seq<(u32, Seq<char>)> {
    seq![
        (0x00000001u32, "PLC_CALLING_CONVENTION"@),
        (0x00000002u32, "CALL_UNLOCKED"@),
        (0x00000004u32, "NOT_CALLABLE"@),
        (0x00000008u32, "ATTRIBUTES"@),
    ]
}

/// The flag names of [`AdsMethodFlags`], in declaration order.
fn ads_method_flags_name_table() -> (r: Vec<(u32, &'static str)>)
    ensures
        flag_table_view(r@) == ads_method_flags_names(),
{
    let r = vec![
        (0x00000001u32, "PLC_CALLING_CONVENTION"),
        (0x00000002u32, "CALL_UNLOCKED"),
        (0x00000004u32, "NOT_CALLABLE"),
        (0x00000008u32, "ATTRIBUTES"),
    ];
    assert(flag_table_view(r@) =~= ads_method_flags_names());
    r
}

impl AdsMethodFlags {
    /// Plc calling convention. (raw bit value)
    pub const PLC_CALLING_CONVENTION: u32 = 0x1;
    /// Call unlocked. (raw bit value)
    pub const CALL_UNLOCKED: u32 = 0x2;
    /// Not callable. (raw bit value)
    pub const NOT_CALLABLE: u32 = 0x4;
    /// Attributes. (raw bit value)
    pub const ATTRIBUTES: u32 = 0x8;

    /// Wire size in bytes.
    pub const LENGTH: usize = 4;

    /// The raw bits of this flag set.
    pub closed spec fn spec_bits(self) -> u32 {
        self.0
    }

    /// The text form: `None` when no flag is set, else the names of the set
    /// flags joined with ` | `, with the bits that no name covers as `0x` and lower-case hexadecimal digits.
    pub fn to_text(&self) -> (r: String)
        ensures
            r@ == flags_text_of(self.spec_bits(), ads_method_flags_names(), true),
    {
        flags_text(self.0, &ads_method_flags_name_table(), true)
    }

    /// The debugging form: `AdsMethodFlags(0x`, the eight hexadecimal digits of the
    /// bits, `, `, the text form, and `)`.
    pub fn to_debug_text(&self) -> (r: String)
        ensures
            r@ == "AdsMethodFlags(0x"@ + hex8_lower(self.spec_bits()) + ", "@ + flags_text_of(self.spec_bits(), ads_method_flags_names(), true)
                + ")"@,
    {
        let mut s = String::new();
        push_text(&mut s, "AdsMethodFlags(0x");
        push_hex8_lower(&mut s, self.0);
        push_text(&mut s, ", ");
        let t = self.to_text();
        push_text(&mut s, t.as_str());
        push_text(&mut s, ")");
        s
    }

    /// True when every bit of `mask` is set.
    pub open spec fn spec_has(self, mask: u32) -> bool {
        self.spec_bits() & mask == mask
    }

    /// Creates a flag set from a raw value, keeping unrecognised bits.
    pub fn new(raw: u32) -> (r: AdsMethodFlags)
        ensures
            r.spec_bits() == raw,
    {
        AdsMethodFlags(raw)
    }

    /// Creates a flag set from a raw value, keeping unrecognised bits.
    pub fn from_bits_retain(raw: u32) -> (r: AdsMethodFlags)
        ensures
            r.spec_bits() == raw,
    {
        AdsMethodFlags(raw)
    }

    /// The empty flag set.
    pub fn empty() -> (r: AdsMethodFlags)
        ensures
            r.spec_bits() == 0,
    {
        AdsMethodFlags(0)
    }

    /// Creates a flag set from its 4-byte little-endian encoding.
    pub fn from_bytes(b: [u8; 4]) -> (r: AdsMethodFlags)
        ensures
            r.spec_bits() == le_u32(b[0], b[1], b[2], b[3]),
    {
        AdsMethodFlags(u32_from_le(b))
    }

    /// The 4-byte little-endian encoding of this flag set.
    pub fn to_bytes(self) -> (r: [u8; 4])
        ensures
            r@ == u32_bytes(self.spec_bits()),
    {
        u32_to_le(self.0)
    }

    /// Returns the raw value.
    pub fn as_raw(self) -> (r: u32)
        ensures
            r == self.spec_bits(),
    {
        self.0
    }

    /// Returns the raw value.
    pub fn bits(self) -> (r: u32)
        ensures
            r == self.spec_bits(),
    {
        self.0
    }

    /// True when no bit is set.
    pub fn is_empty(self) -> (r: bool)
        ensures
            r == (self.spec_bits() == 0),
    {
        self.0 == 0
    }

    /// True when every bit of `other` is also set in `self`.
    pub fn contains(self, other: AdsMethodFlags) -> (r: bool)
        ensures
            r == self.spec_has(other.spec_bits()),
    {
        self.0 & other.0 == other.0
    }

    /// The union of two flag sets.
    pub fn union(self, other: AdsMethodFlags) -> (r: AdsMethodFlags)
        ensures
            r.spec_bits() == self.spec_bits() | other.spec_bits(),
    {
        AdsMethodFlags(self.0 | other.0)
    }

    /// The bits of `self` that are not in `other`.
    pub fn difference(self, other: AdsMethodFlags) -> (r: AdsMethodFlags)
        ensures
            r.spec_bits() == self.spec_bits() & !other.spec_bits(),
    {
        AdsMethodFlags(self.0 & !other.0)
    }

    /// Sets every bit of `other`.
    pub fn insert(&mut self, other: AdsMethodFlags)
        ensures
            final(self).spec_bits() == old(self).spec_bits() | other.spec_bits(),
    {
        self.0 = self.0 | other.0;
    }

    /// Clears every bit of `other`.
    pub fn remove(&mut self, other: AdsMethodFlags)
        ensures
            final(self).spec_bits() == old(self).spec_bits() & !other.spec_bits(),
    {
        self.0 = self.0 & !other.0;
    }

    /// Returns `true` if the `PLC_CALLING_CONVENTION` flag is set.
    pub fn is_plc_calling_convention(self) -> (r: bool)
        ensures
            r == self.spec_has(0x1),
    {
        self.0 & 0x1 == 0x1
    }

    /// Returns `true` if the `CALL_UNLOCKED` flag is set.
    pub fn is_call_unlocked(self) -> (r: bool)
        ensures
            r == self.spec_has(0x2),
    {
        self.0 & 0x2 == 0x2
    }

    /// Returns `true` if the `NOT_CALLABLE` flag is set.
    pub fn is_not_callable(self) -> (r: bool)
        ensures
            r == self.spec_has(0x4),
    {
        self.0 & 0x4 == 0x4
    }

    /// Returns `true` if the `ATTRIBUTES` flag is set.
    pub fn has_attributes(self) -> (r: bool)
        ensures
            r == self.spec_has(0x8),
    {
        self.0 & 0x8 == 0x8
    }


    /// Parses a slice of exactly four bytes.
    pub fn try_from_slice(value: &[u8]) -> (r: Result<AdsMethodFlags, AdsTypeInfoError>)
        ensures
            value@.len() != 4 ==> r == Err::<AdsMethodFlags, AdsTypeInfoError>(
                AdsTypeInfoError::EntryLengthMismatch { expected: 4, got: value@.len() as usize },
            ),
            value@.len() == 4 ==> (r matches Ok(f) && f.spec_bits() == le_u32(value@[0], value@[1], value@[2], value@[3])),
    {
        if value.len() != 4 {
            return Err(AdsTypeInfoError::EntryLengthMismatch { expected: 4, got: value.len() });
        }
        Ok(AdsMethodFlags::from_bytes([value[0], value[1], value[2], value[3]]))
    }

}

impl core::ops::BitOr for AdsMethodFlags {
    type Output = AdsMethodFlags;

    fn bitor(self, rhs: AdsMethodFlags) -> (r: AdsMethodFlags) {
        AdsMethodFlags(self.0 | rhs.0)
    }
}

impl vstd::std_specs::ops::BitOrSpecImpl for AdsMethodFlags {
    open spec fn obeys_bitor_spec() -> bool {
        true
    }

    open spec fn bitor_req(self, rhs: AdsMethodFlags) -> bool {
        true
    }

    closed spec fn bitor_spec(self, rhs: AdsMethodFlags) -> AdsMethodFlags {
        AdsMethodFlags(self.0 | rhs.0)
    }
}

impl core::default::Default for AdsMethodFlags {
    fn default() -> (r: AdsMethodFlags)
        ensures
            r.spec_bits() == 0,
    {
        AdsMethodFlags(0)
    }
}

/// Decoding the bytes that a flag set encodes to gives the same flag set.
pub proof fn lemma_ads_method_flags_bytes_roundtrip(f: AdsMethodFlags)
    ensures
        le_u32(u32_bytes(f.spec_bits())[0], u32_bytes(f.spec_bits())[1], u32_bytes(f.spec_bits())[2], u32_bytes(f.spec_bits())[3]) == f.spec_bits(),
{
    lemma_u32_roundtrip(f.spec_bits());
}

/// Flags of a method parameter entry.
#[derive(Debug, Clone, Copy, PartialEq, Eq, Structural, PartialOrd, Ord, Hash)]
pub struct AdsMethodParamFlags(u32);

/// The flag names of [`AdsMethodParamFlags`], in declaration order.
pub open spec fn ads_method_param_flags_names() -> Seq<(u32, Seq<char>)> {
    seq![
        (0x00000001u32, "IN"@),
        (0x00000002u32, "OUT"@),
        (0x00000004u32, "BY_REF"@),
        (0x00000008u32, "ATTRIBUTES"@),
    ]
}

/// The flag names of [`AdsMethodParamFlags`], in declaration order.
fn ads_method_param_flags_name_table() -> (r: Vec<(u32, &'static str)>)
    ensures
        flag_table_view(r@) == ads_method_param_flags_names(),
{
    let r = vec![
        (0x00000001u32, "IN"),
        (0x00000002u32, "OUT"),
        (0x00000004u32, "BY_REF"),
        (0x00000008u32, "ATTRIBUTES"),
    ];
    assert(flag_table_view(r@) =~= ads_method_param_flags_names());
    r
}

impl AdsMethodParamFlags {
    /// In. (raw bit value)
    pub const IN: u32 = 0x1;
    /// Out. (raw bit value)
    pub const OUT: u32 = 0x2;
    /// By ref. (raw bit value)
    pub const BY_REF: u32 = 0x4;
    /// Attributes. (raw bit value)
    pub const ATTRIBUTES: u32 = 0x8;

    /// Wire size in bytes.
    pub const LENGTH: usize = 4;

    /// The raw bits of this flag set.
    pub closed spec fn spec_bits(self) -> u32 {
        self.0
    }

    /// The text form: `None` when no flag is set, else the names of the set
    /// flags joined with ` | `, with the bits that no name covers as `0x` and lower-case hexadecimal digits.
    pub fn to_text(&self) -> (r: String)
        ensures
            r@ == flags_text_of(self.spec_bits(), ads_method_param_flags_names(), true),
    {
        flags_text(self.0, &ads_method_param_flags_name_table(), true)
    }

    /// The debugging form: `AdsMethodParamFlags(0x`, the eight hexadecimal digits of the
    /// bits, `, `, the text form, and `)`.
    pub fn to_debug_text(&self) -> (r: String)
        ensures
            r@ == "AdsMethodParamFlags(0x"@ + hex8_lower(self.spec_bits()) + ", "@ + flags_text_of(self.spec_bits(), ads_method_param_flags_names(), true)
                + ")"@,
    {
        let mut s = String::new();
        push_text(&mut s, "AdsMethodParamFlags(0x");
        push_hex8_lower(&mut s, self.0);
        push_text(&mut s, ", ");
        let t = self.to_text();
        push_text(&mut s, t.as_str());
        push_text(&mut s, ")");
        s
    }

    /// True when every bit of `mask` is set.
    pub open spec fn spec_has(self, mask: u32) -> bool {
        self.spec_bits() & mask == mask
    }

    /// Creates a flag set from a raw value, keeping unrecognised bits.
    pub fn new(raw: u32) -> (r: AdsMethodParamFlags)
        ensures
            r.spec_bits() == raw,
    {
        AdsMethodParamFlags(raw)
    }

    /// Creates a flag set from a raw value, keeping unrecognised bits.
    pub fn from_bits_retain(raw: u32) -> (r: AdsMethodParamFlags)
        ensures
            r.spec_bits() == raw,
    {
        AdsMethodParamFlags(raw)
    }

    /// The empty flag set.
    pub fn empty() -> (r: AdsMethodParamFlags)
        ensures
            r.spec_bits() == 0,
    {
        AdsMethodParamFlags(0)
    }

    /// Creates a flag set from its 4-byte little-endian encoding.
    pub fn from_bytes(b: [u8; 4]) -> (r: AdsMethodParamFlags)
        ensures
            r.spec_bits() == le_u32(b[0], b[1], b[2], b[3]),
    {
        AdsMethodParamFlags(u32_from_le(b))
    }

    /// The 4-byte little-endian encoding of this flag set.
    pub fn to_bytes(self) -> (r: [u8; 4])
        ensures
            r@ == u32_bytes(self.spec_bits()),
    {
        u32_to_le(self.0)
    }

    /// Returns the raw value.
    pub fn as_raw(self) -> (r: u32)
        ensures
            r == self.spec_bits(),
    {
        self.0
    }

    /// Returns the raw value.
    pub fn bits(self) -> (r: u32)
        ensures
            r == self.spec_bits(),
    {
        self.0
    }

    /// True when no bit is set.
    pub fn is_empty(self) -> (r: bool)
        ensures
            r == (self.spec_bits() == 0),
    {
        self.0 == 0
    }

    /// True when every bit of `other` is also set in `self`.
    pub fn contains(self, other: AdsMethodParamFlags) -> (r: bool)
        ensures
            r == self.spec_has(other.spec_bits()),
    {
        self.0 & other.0 == other.0
    }

    /// The union of two flag sets.
    pub fn union(self, other: AdsMethodParamFlags) -> (r: AdsMethodParamFlags)
        ensures
            r.spec_bits() == self.spec_bits() | other.spec_bits(),
    {
        AdsMethodParamFlags(self.0 | other.0)
    }

    /// The bits of `self` that are not in `other`.
    pub fn difference(self, other: AdsMethodParamFlags) -> (r: AdsMethodParamFlags)
        ensures
            r.spec_bits() == self.spec_bits() & !other.spec_bits(),
    {
        AdsMethodParamFlags(self.0 & !other.0)
    }

    /// Sets every bit of `other`.
    pub fn insert(&mut self, other: AdsMethodParamFlags)
        ensures
            final(self).spec_bits() == old(self).spec_bits() | other.spec_bits(),
    {
        self.0 = self.0 | other.0;
    }

    /// Clears every bit of `other`.
    pub fn remove(&mut self, other: AdsMethodParamFlags)
        ensures
            final(self).spec_bits() == old(self).spec_bits() & !other.spec_bits(),
    {
        self.0 = self.0 & !other.0;
    }

    /// Returns `true` if the method parameter is an input parameter.
    pub fn is_input(self) -> (r: bool)
        ensures
            r == self.spec_has(0x1),
    {
        self.0 & 0x1 == 0x1
    }

    /// Returns `true` if the method parameter is an output parameter.
    pub fn is_output(self) -> (r: bool)
        ensures
            r == self.spec_has(0x2),
    {
        self.0 & 0x2 == 0x2
    }

    /// Returns `true` if the method parameter is a reference.
    pub fn is_reference(self) -> (r: bool)
        ensures
            r == self.spec_has(0x4),
    {
        self.0 & 0x4 == 0x4
    }

    /// Returns `true` if the method parameter has attributes.
    pub fn has_attributes(self) -> (r: bool)
        ensures
            r == self.spec_has(0x8),
    {
        self.0 & 0x8 == 0x8
    }


    /// Parses a slice of exactly four bytes.
    pub fn try_from_slice(value: &[u8]) -> (r: Result<AdsMethodParamFlags, AdsTypeInfoError>)
        ensures
            value@.len() != 4 ==> r == Err::<AdsMethodParamFlags, AdsTypeInfoError>(
                AdsTypeInfoError::EntryLengthMismatch { expected: 4, got: value@.len() as usize },
            ),
            value@.len() == 4 ==> (r matches Ok(f) && f.spec_bits() == le_u32(value@[0], value@[1], value@[2], value@[3])),
    {
        if value.len() != 4 {
            return Err(AdsTypeInfoError::EntryLengthMismatch { expected: 4, got: value.len() });
        }
        Ok(AdsMethodParamFlags::from_bytes([value[0], value[1], value[2], value[3]]))
    }

}

impl core::ops::BitOr for AdsMethodParamFlags {
    type Output = AdsMethodParamFlags;

    fn bitor(self, rhs: AdsMethodParamFlags) -> (r: AdsMethodParamFlags) {
        AdsMethodParamFlags(self.0 | rhs.0)
    }
}

impl vstd::std_specs::ops::BitOrSpecImpl for AdsMethodParamFlags {
    open spec fn obeys_bitor_spec() -> bool {
        true
    }

    open spec fn bitor_req(self, rhs: AdsMethodParamFlags) -> bool {
        true
    }

    closed spec fn bitor_spec(self, rhs: AdsMethodParamFlags) -> AdsMethodParamFlags {
        AdsMethodParamFlags(self.0 | rhs.0)
    }
}

impl core::default::Default for AdsMethodParamFlags {
    fn default() -> (r: AdsMethodParamFlags)
        ensures
            r.spec_bits() == 0,
    {
        AdsMethodParamFlags(0)
    }
}

/// Decoding the bytes that a flag set encodes to gives the same flag set.
pub proof fn lemma_ads_method_param_flags_bytes_roundtrip(f: AdsMethodParamFlags)
    ensures
        le_u32(u32_bytes(f.spec_bits())[0], u32_bytes(f.spec_bits())[1], u32_bytes(f.spec_bits())[2], u32_bytes(f.spec_bits())[3]) == f.spec_bits(),
{
    lemma_u32_roundtrip(f.spec_bits());
}

} // verus!
