//! Flags of a type entry.

use vstd::prelude::*;
use crate::text::{flag_table_view, flags_text, flags_text_of};
use crate::bytes::{le_u32, u32_bytes, u32_from_le, u32_to_le, lemma_u32_roundtrip};

verus! {

/// Flags describing the properties and optional wire sections of a type entry.
#[derive(Debug, Clone, Copy, PartialEq, Eq, Structural, PartialOrd, Ord, Hash)]
pub struct AdsTypeFlags(u32);

/// The flag names of [`AdsTypeFlags`], in declaration order.
pub open spec fn ads_type_flags_names() -> Seq<(u32, Seq<char>)> {
    seq![
        (0x00000001u32, "DATA_TYPE"@),
        (0x00000002u32, "DATA_ITEM"@),
        (0x00000004u32, "REFERENCE_TO"@),
        (0x00000008u32, "METHOD_DEREF"@),
        (0x00000010u32, "OVERSAMPLE"@),
        (0x00000020u32, "BIT_VALUES"@),
        (0x00000040u32, "PROP_ITEM"@),
        (0x00000080u32, "TYPE_GUID"@),
        (0x00000100u32, "PERSISTENT"@),
        (0x00000200u32, "COPY_MASK"@),
        (0x00000400u32, "TCOM_INTERFACE_PTR"@),
        (0x00000800u32, "METHOD_INFOS"@),
        (0x00001000u32, "ATTRIBUTES"@),
        (0x00002000u32, "ENUM_INFOS"@),
        (0x00010000u32, "ALIGNED"@),
        (0x00020000u32, "STATIC"@),
        (0x00040000u32, "SOFTWARE_PROTECTION_LEVELS"@),
        (0x00080000u32, "IGNORE_PERSIST"@),
        (0x00100000u32, "ANY_SIZE_ARRAY"@),
        (0x00200000u32, "PERSISTENT_DATATYPE"@),
        (0x00400000u32, "INIT_ON_RESET"@),
        (0x00800000u32, "PLC_POINTER_TYPE"@),
        (0x01000000u32, "REFACTOR_INFO"@),
        (0x02000000u32, "HIDE_SUB_ITEMS"@),
        (0x04000000u32, "INCOMPLETE"@),
        (0x08000000u32, "CONTAINS_ONLINE_CHANGE_PTR_REF"@),
        (0x10000000u32, "VARIANT"@),
        (0x20000000u32, "EXTENDED_ENUM_INFOS"@),
        (0x80000000u32, "EXTENDED_FLAGS"@),
    ]
}

/// The flag names of [`AdsTypeFlags`], in declaration order.
fn ads_type_flags_name_table() -> (r: Vec<(u32, &'static str)>)
    ensures
        flag_table_view(r@) == ads_type_flags_names(),
{
    let r = vec![
        (0x00000001u32, "DATA_TYPE"),
        (0x00000002u32, "DATA_ITEM"),
        (0x00000004u32, "REFERENCE_TO"),
        (0x00000008u32, "METHOD_DEREF"),
        (0x00000010u32, "OVERSAMPLE"),
        (0x00000020u32, "BIT_VALUES"),
        (0x00000040u32, "PROP_ITEM"),
        (0x00000080u32, "TYPE_GUID"),
        (0x00000100u32, "PERSISTENT"),
        (0x00000200u32, "COPY_MASK"),
        (0x00000400u32, "TCOM_INTERFACE_PTR"),
        (0x00000800u32, "METHOD_INFOS"),
        (0x00001000u32, "ATTRIBUTES"),
        (0x00002000u32, "ENUM_INFOS"),
        (0x00010000u32, "ALIGNED"),
        (0x00020000u32, "STATIC"),
        (0x00040000u32, "SOFTWARE_PROTECTION_LEVELS"),
        (0x00080000u32, "IGNORE_PERSIST"),
        (0x00100000u32, "ANY_SIZE_ARRAY"),
        (0x00200000u32, "PERSISTENT_DATATYPE"),
        (0x00400000u32, "INIT_ON_RESET"),
        (0x00800000u32, "PLC_POINTER_TYPE"),
        (0x01000000u32, "REFACTOR_INFO"),
        (0x02000000u32, "HIDE_SUB_ITEMS"),
        (0x04000000u32, "INCOMPLETE"),
        (0x08000000u32, "CONTAINS_ONLINE_CHANGE_PTR_REF"),
        (0x10000000u32, "VARIANT"),
        (0x20000000u32, "EXTENDED_ENUM_INFOS"),
        (0x80000000u32, "EXTENDED_FLAGS"),
    ];
    assert(flag_table_view(r@) =~= ads_type_flags_names());
    r
}

impl AdsTypeFlags {
    /// Entry is a root data type. (raw bit value)
    pub const DATA_TYPE: u32 = 0x1;
    /// Entry is a data item (struct field / sub-item). (raw bit value)
    pub const DATA_ITEM: u32 = 0x2;
    /// Entry contains a reference to another type. (raw bit value)
    pub const REFERENCE_TO: u32 = 0x4;
    /// Entry is a method dereference. (raw bit value)
    pub const METHOD_DEREF: u32 = 0x8;
    /// Entry uses oversampling. (raw bit value)
    pub const OVERSAMPLE: u32 = 0x10;
    /// Size and offset are in bits rather than bytes. (raw bit value)
    pub const BIT_VALUES: u32 = 0x20;
    /// Entry contains a reference to a function block property. (raw bit value)
    pub const PROP_ITEM: u32 = 0x40;
    /// A 16-byte GUID follows the sub-items in the wire format. (raw bit value)
    pub const TYPE_GUID: u32 = 0x80;
    /// Entry or one of its fields is persistent across power cycles. (raw bit value)
    pub const PERSISTENT: u32 = 0x100;
    /// A copy mask follows in the wire format (legacy). (raw bit value)
    pub const COPY_MASK: u32 = 0x200;
    /// Entry contains or is a TcCOM interface pointer. (raw bit value)
    pub const TCOM_INTERFACE_PTR: u32 = 0x400;
    /// An RPC method section follows in the wire format. (raw bit value)
    pub const METHOD_INFOS: u32 = 0x800;
    /// An attribute section follows in the wire format. (raw bit value)
    pub const ATTRIBUTES: u32 = 0x1000;
    /// An enum info section follows in the wire format. (raw bit value)
    pub const ENUM_INFOS: u32 = 0x2000;
    /// Entry is aligned. (raw bit value)
    pub const ALIGNED: u32 = 0x10000;
    /// Data item is static — do not use offsets when accessing. (raw bit value)
    pub const STATIC: u32 = 0x20000;
    /// Entry has software protection levels. (raw bit value)
    pub const SOFTWARE_PROTECTION_LEVELS: u32 = 0x40000;
    /// Persistent data is not restored after a cold reset. (raw bit value)
    pub const IGNORE_PERSIST: u32 = 0x80000;
    /// Any-size array. (raw bit value)
    pub const ANY_SIZE_ARRAY: u32 = 0x100000;
    /// Entry is used for persistent variables. (raw bit value)
    pub const PERSISTENT_DATATYPE: u32 = 0x200000;
    /// Persistent data is not restored after reset (cold). (raw bit value)
    pub const INIT_ON_RESET: u32 = 0x400000;
    /// Entry contains or is a PLC pointer type. (raw bit value)
    pub const PLC_POINTER_TYPE: u32 = 0x800000;
    /// Refactoring information section follows in the wire format. (raw bit value)
    pub const REFACTOR_INFO: u32 = 0x1000000;
    /// Sub-items are hidden and will not be evaluated. (raw bit value)
    pub const HIDE_SUB_ITEMS: u32 = 0x2000000;
    /// Type description is incomplete. (raw bit value)
    pub const INCOMPLETE: u32 = 0x4000000;
    /// Entry contains or is an online change pointer reference. (raw bit value)
    pub const CONTAINS_ONLINE_CHANGE_PTR_REF: u32 = 0x8000000;
    /// Entry contains or is a variant / deref type. A deref section follows. (raw bit value)
    pub const VARIANT: u32 = 0x10000000;
    /// Extended enum info section follows in the wire format. (raw bit value)
    pub const EXTENDED_ENUM_INFOS: u32 = 0x20000000;
    /// Extended flags `u32` follows in the wire format. (raw bit value)
    pub const EXTENDED_FLAGS: u32 = 0x80000000;
    /// Data type with guid. (raw bit value)
    pub const DATA_TYPE_WITH_GUID: u32 = 0x81;
    /// Data type with guid attrs. (raw bit value)
    pub const DATA_TYPE_WITH_GUID_ATTRS: u32 = 0x1081;
    /// Data item with guid. (raw bit value)
    pub const DATA_ITEM_WITH_GUID: u32 = 0x82;

    /// Wire size in bytes.
    pub const LENGTH: usize = 4;

    /// The raw bits of this flag set.
    pub closed spec fn spec_bits(self) -> u32 {
        self.0
    }

    /// The text form: `None` when no flag is set, else the names of the set
    /// flags joined with ` | `, with the bits that no name covers as `0x` and lower-case hexadecimal digits.
    pub fn to_text(&self) -> (r: String)
        ensures
            r@ == flags_text_of(self.spec_bits(), ads_type_flags_names(), true),
    {
        flags_text(self.0, &ads_type_flags_name_table(), true)
    }

    /// True when every bit of `mask` is set.
    pub open spec fn spec_has(self, mask: u32) -> bool {
        self.spec_bits() & mask == mask
    }

    /// Creates a flag set from a raw value, keeping unrecognised bits.
    pub fn new(raw: u32) -> (r: AdsTypeFlags)
        ensures
            r.spec_bits() == raw,
    {
        AdsTypeFlags(raw)
    }

    /// Creates a flag set from a raw value, keeping unrecognised bits.
    pub fn from_bits_retain(raw: u32) -> (r: AdsTypeFlags)
        ensures
            r.spec_bits() == raw,
    {
        AdsTypeFlags(raw)
    }

    /// The empty flag set.
    pub fn empty() -> (r: AdsTypeFlags)
        ensures
            r.spec_bits() == 0,
    {
        AdsTypeFlags(0)
    }

    /// Creates a flag set from its 4-byte little-endian encoding.
    pub fn from_bytes(b: [u8; 4]) -> (r: AdsTypeFlags)
        ensures
            r.spec_bits() == le_u32(b[0], b[1], b[2], b[3]),
    {
        AdsTypeFlags(u32_from_le(b))
    }

    /// The 4-byte little-endian encoding of this flag set.
    pub fn to_bytes(self) -> (r: [u8; 4])
        ensures
            r@ == u32_bytes(self.spec_bits()),
    {
        u32_to_le(self.0)
    }

    /// Returns the raw value.
    pub fn as_raw(self) -> (r: u32)
        ensures
            r == self.spec_bits(),
    {
        self.0
    }

    /// Returns the raw value.
    pub fn bits(self) -> (r: u32)
        ensures
            r == self.spec_bits(),
    {
        self.0
    }

    /// True when no bit is set.
    pub fn is_empty(self) -> (r: bool)
        ensures
            r == (self.spec_bits() == 0),
    {
        self.0 == 0
    }

    /// True when every bit of `other` is also set in `self`.
    pub fn contains(self, other: AdsTypeFlags) -> (r: bool)
        ensures
            r == self.spec_has(other.spec_bits()),
    {
        self.0 & other.0 == other.0
    }

    /// The union of two flag sets.
    pub fn union(self, other: AdsTypeFlags) -> (r: AdsTypeFlags)
        ensures
            r.spec_bits() == self.spec_bits() | other.spec_bits(),
    {
        AdsTypeFlags(self.0 | other.0)
    }

    /// The bits of `self` that are not in `other`.
    pub fn difference(self, other: AdsTypeFlags) -> (r: AdsTypeFlags)
        ensures
            r.spec_bits() == self.spec_bits() & !other.spec_bits(),
    {
        AdsTypeFlags(self.0 & !other.0)
    }

    /// Sets every bit of `other`.
    pub fn insert(&mut self, other: AdsTypeFlags)
        ensures
            final(self).spec_bits() == old(self).spec_bits() | other.spec_bits(),
    {
        self.0 = self.0 | other.0;
    }

    /// Clears every bit of `other`.
    pub fn remove(&mut self, other: AdsTypeFlags)
        ensures
            final(self).spec_bits() == old(self).spec_bits() & !other.spec_bits(),
    {
        self.0 = self.0 & !other.0;
    }

    /// Returns `true` if the [`DATA_TYPE`](Self::DATA_TYPE) flag is set.
    pub fn is_data_type(self) -> (r: bool)
        ensures
            r == self.spec_has(0x1),
    {
        self.0 & 0x1 == 0x1
    }

    /// Returns `true` if the [`DATA_ITEM`](Self::DATA_ITEM) flag is set.
    pub fn is_data_item(self) -> (r: bool)
        ensures
            r == self.spec_has(0x2),
    {
        self.0 & 0x2 == 0x2
    }

    /// Returns `true` if the [`REFERENCE_TO`](Self::REFERENCE_TO) flag is set.
    pub fn is_reference_to(self) -> (r: bool)
        ensures
            r == self.spec_has(0x4),
    {
        self.0 & 0x4 == 0x4
    }

    /// Returns `true` if the [`BIT_VALUES`](Self::BIT_VALUES) flag is set.
    pub fn is_bit_values(self) -> (r: bool)
        ensures
            r == self.spec_has(0x20),
    {
        self.0 & 0x20 == 0x20
    }

    /// Returns `true` if the [`PROP_ITEM`](Self::PROP_ITEM) flag is set.
    pub fn is_prop_item(self) -> (r: bool)
        ensures
            r == self.spec_has(0x40),
    {
        self.0 & 0x40 == 0x40
    }

    /// Returns `true` if a 16-byte GUID section is present in the wire format.
    pub fn has_type_guid(self) -> (r: bool)
        ensures
            r == self.spec_has(0x80),
    {
        self.0 & 0x80 == 0x80
    }

    /// Returns `true` if the [`PERSISTENT`](Self::PERSISTENT) flag is set.
    pub fn is_persistent(self) -> (r: bool)
        ensures
            r == self.spec_has(0x100),
    {
        self.0 & 0x100 == 0x100
    }

    /// Returns `true` if a copy mask section is present (legacy).
    pub fn has_copy_mask(self) -> (r: bool)
        ensures
            r == self.spec_has(0x200),
    {
        self.0 & 0x200 == 0x200
    }

    /// Returns `true` if an RPC method section is present in the wire format.
    pub fn has_method_infos(self) -> (r: bool)
        ensures
            r == self.spec_has(0x800),
    {
        self.0 & 0x800 == 0x800
    }

    /// Returns `true` if an attribute section is present in the wire format.
    pub fn has_attributes(self) -> (r: bool)
        ensures
            r == self.spec_has(0x1000),
    {
        self.0 & 0x1000 == 0x1000
    }

    /// Returns `true` if an enum info section is present in the wire format.
    pub fn has_enum_infos(self) -> (r: bool)
        ensures
            r == self.spec_has(0x2000),
    {
        self.0 & 0x2000 == 0x2000
    }

    /// Returns `true` if the [`STATIC`](Self::STATIC) flag is set.
    pub fn is_static(self) -> (r: bool)
        ensures
            r == self.spec_has(0x20000),
    {
        self.0 & 0x20000 == 0x20000
    }

    /// Returns `true` if the [`ANY_SIZE_ARRAY`](Self::ANY_SIZE_ARRAY) flag is set.
    pub fn is_any_size_array(self) -> (r: bool)
        ensures
            r == self.spec_has(0x100000),
    {
        self.0 & 0x100000 == 0x100000
    }

    /// Returns `true` if the [`PLC_POINTER_TYPE`](Self::PLC_POINTER_TYPE) flag is set.
    pub fn is_plc_pointer_type(self) -> (r: bool)
        ensures
            r == self.spec_has(0x800000),
    {
        self.0 & 0x800000 == 0x800000
    }

    /// Returns `true` if a refactor info section is present in the wire format.
    pub fn has_refactor_info(self) -> (r: bool)
        ensures
            r == self.spec_has(0x1000000),
    {
        self.0 & 0x1000000 == 0x1000000
    }

    /// Returns `true` if sub-items are hidden.
    pub fn hide_sub_items(self) -> (r: bool)
        ensures
            r == self.spec_has(0x2000000),
    {
        self.0 & 0x2000000 == 0x2000000
    }

    /// Returns `true` if a deref section is present in the wire format.
    pub fn is_variant(self) -> (r: bool)
        ensures
            r == self.spec_has(0x10000000),
    {
        self.0 & 0x10000000 == 0x10000000
    }

    /// Returns `true` if an extended enum info section is present in the wire format.
    pub fn has_extended_enum_infos(self) -> (r: bool)
        ensures
            r == self.spec_has(0x20000000),
    {
        self.0 & 0x20000000 == 0x20000000
    }

    /// Returns `true` if an extended flags `u32` is present in the wire format.
    pub fn has_extended_flags(self) -> (r: bool)
        ensures
            r == self.spec_has(0x80000000),
    {
        self.0 & 0x80000000 == 0x80000000
    }

    /// Returns `true` if a software protection levels section is present.
    pub fn has_software_protection_levels(self) -> (r: bool)
        ensures
            r == self.spec_has(0x40000),
    {
        self.0 & 0x40000 == 0x40000
    }


}

impl core::ops::BitOr for AdsTypeFlags {
    type Output = AdsTypeFlags;

    fn bitor(self, rhs: AdsTypeFlags) -> (r: AdsTypeFlags) {
        AdsTypeFlags(self.0 | rhs.0)
    }
}

impl vstd::std_specs::ops::BitOrSpecImpl for AdsTypeFlags {
    open spec fn obeys_bitor_spec() -> bool {
        true
    }

    open spec fn bitor_req(self, rhs: AdsTypeFlags) -> bool {
        true
    }

    closed spec fn bitor_spec(self, rhs: AdsTypeFlags) -> AdsTypeFlags {
        AdsTypeFlags(self.0 | rhs.0)
    }
}

impl core::default::Default for AdsTypeFlags {
    fn default() -> (r: AdsTypeFlags)
        ensures
            r.spec_bits() == 0,
    {
        AdsTypeFlags(0)
    }
}

/// Decoding the bytes that a flag set encodes to gives the same flag set.
pub proof fn lemma_ads_type_flags_bytes_roundtrip(f: AdsTypeFlags)
    ensures
        le_u32(u32_bytes(f.spec_bits())[0], u32_bytes(f.spec_bits())[1], u32_bytes(f.spec_bits())[2], u32_bytes(f.spec_bits())[3]) == f.spec_bits(),
{
    lemma_u32_roundtrip(f.spec_bits());
}

} // verus!
