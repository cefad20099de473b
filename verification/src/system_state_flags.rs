//! Flags of the extended system state.

use vstd::prelude::*;
use crate::text::{flag_table_view, flags_text, flags_text_of};
use crate::bytes::{le_u16, u16_bytes, u16_from_le, u16_to_le, lemma_u16_roundtrip};

verus! {

/// Flags reported in the extended system state of a TwinCAT system service.
#[derive(Debug, Clone, Copy, PartialEq, Eq, Structural, PartialOrd, Ord, Hash)]
pub struct AdsSystemStateFlags(u16);

/// The flag names of [`AdsSystemStateFlags`], in declaration order.
pub open spec fn ads_system_state_flags_names() -> Seq<(u32, Seq<char>)> {
    seq![
        (0x0001u32, "ROUTER_MODE_ONLY"@),
        (0x0002u32, "REDUNDANCY_SYSTEM"@),
        (0x0004u32, "REDUNDANCY_PRIMARY"@),
        (0x0010u32, "REDUNDANCY_ACTIVE"@),
        (0x0020u32, "DATA_FOLDER_SUPPORT"@),
        (0x0040u32, "REDUNDANCY_IN_OP"@),
        (0x0080u32, "REDUNDANCY_SUSPENDED"@),
        (0x0100u32, "NEW_CURRENT_CONFIG"@),
    ]
}

/// The flag names of [`AdsSystemStateFlags`], in declaration order.
fn ads_system_state_flags_name_table() -> (r: Vec<(u32, &'static str)>)
    ensures
        flag_table_view(r@) == ads_system_state_flags_names(),
{
    let r = vec![
        (0x0001u32, "ROUTER_MODE_ONLY"),
        (0x0002u32, "REDUNDANCY_SYSTEM"),
        (0x0004u32, "REDUNDANCY_PRIMARY"),
        (0x0010u32, "REDUNDANCY_ACTIVE"),
        (0x0020u32, "DATA_FOLDER_SUPPORT"),
        (0x0040u32, "REDUNDANCY_IN_OP"),
        (0x0080u32, "REDUNDANCY_SUSPENDED"),
        (0x0100u32, "NEW_CURRENT_CONFIG"),
    ];
    assert(flag_table_view(r@) =~= ads_system_state_flags_names());
    r
}

impl AdsSystemStateFlags {
    /// The system is running in router mode only. (raw bit value)
    pub const ROUTER_MODE_ONLY: u16 = 0x1;
    /// The system is part of a controller redundancy pair. (raw bit value)
    pub const REDUNDANCY_SYSTEM: u16 = 0x2;
    /// The system is the primary controller in a redundancy pair. (raw bit value)
    pub const REDUNDANCY_PRIMARY: u16 = 0x4;
    /// The system is currently active, i.e. controlling the machine. (raw bit value)
    pub const REDUNDANCY_ACTIVE: u16 = 0x10;
    /// The system supports the data folder feature. (raw bit value)
    pub const DATA_FOLDER_SUPPORT: u16 = 0x20;
    /// Redundancy is currently down (not synchronized). (raw bit value)
    pub const REDUNDANCY_IN_OP: u16 = 0x40;
    /// The standby system is currently suspended, e.g. during an online change. (raw bit value)
    pub const REDUNDANCY_SUSPENDED: u16 = 0x80;
    /// A new current config is being created. (raw bit value)
    pub const NEW_CURRENT_CONFIG: u16 = 0x100;

    /// Wire size in bytes.
    pub const LENGTH: usize = 2;

    /// The raw bits of this flag set.
    pub closed spec fn spec_bits(self) -> u16 {
        self.0
    }

    /// The text form: `None` when no flag is set, else the names of the set
    /// flags joined with ` | `, with the bits that no name covers as `0x` and lower-case hexadecimal digits.
    pub fn to_text(&self) -> (r: String)
        ensures
            r@ == flags_text_of((self.spec_bits() as u32), ads_system_state_flags_names(), true),
    {
        flags_text((self.0 as u32), &ads_system_state_flags_name_table(), true)
    }

    /// True when every bit of `mask` is set.
    pub open spec fn spec_has(self, mask: u16) -> bool {
        self.spec_bits() & mask == mask
    }

    /// Creates a flag set from a raw value, keeping unrecognised bits.
    pub fn new(raw: u16) -> (r: AdsSystemStateFlags)
        ensures
            r.spec_bits() == raw,
    {
        AdsSystemStateFlags(raw)
    }

    /// Creates a flag set from a raw value, keeping unrecognised bits.
    pub fn from_bits_retain(raw: u16) -> (r: AdsSystemStateFlags)
        ensures
            r.spec_bits() == raw,
    {
        AdsSystemStateFlags(raw)
    }

    /// The empty flag set.
    pub fn empty() -> (r: AdsSystemStateFlags)
        ensures
            r.spec_bits() == 0,
    {
        AdsSystemStateFlags(0)
    }

    /// Creates a flag set from its 2-byte little-endian encoding.
    pub fn from_bytes(b: [u8; 2]) -> (r: AdsSystemStateFlags)
        ensures
            r.spec_bits() == le_u16(b[0], b[1]),
    {
        AdsSystemStateFlags(u16_from_le(b))
    }

    /// The 2-byte little-endian encoding of this flag set.
    pub fn to_bytes(self) -> (r: [u8; 2])
        ensures
            r@ == u16_bytes(self.spec_bits()),
    {
        u16_to_le(self.0)
    }

    /// Returns the raw value.
    pub fn as_raw(self) -> (r: u16)
        ensures
            r == self.spec_bits(),
    {
        self.0
    }

    /// Returns the raw value.
    pub fn bits(self) -> (r: u16)
        ensures
            r == self.spec_bits(),
    {
        self.0
    }

    /// True when no bit is set.
    pub fn is_empty(self) -> (r: bool)
        ensures
            r == (self.spec_bits() == 0),
    {
        self.0 == 0
    }

    /// True when every bit of `other` is also set in `self`.
    pub fn contains(self, other: AdsSystemStateFlags) -> (r: bool)
        ensures
            r == self.spec_has(other.spec_bits()),
    {
        self.0 & other.0 == other.0
    }

    /// The union of two flag sets.
    pub fn union(self, other: AdsSystemStateFlags) -> (r: AdsSystemStateFlags)
        ensures
            r.spec_bits() == self.spec_bits() | other.spec_bits(),
    {
        AdsSystemStateFlags(self.0 | other.0)
    }

    /// The bits of `self` that are not in `other`.
    pub fn difference(self, other: AdsSystemStateFlags) -> (r: AdsSystemStateFlags)
        ensures
            r.spec_bits() == self.spec_bits() & !other.spec_bits(),
    {
        AdsSystemStateFlags(self.0 & !other.0)
    }

    /// Sets every bit of `other`.
    pub fn insert(&mut self, other: AdsSystemStateFlags)
        ensures
            final(self).spec_bits() == old(self).spec_bits() | other.spec_bits(),
    {
        self.0 = self.0 | other.0;
    }

    /// Clears every bit of `other`.
    pub fn remove(&mut self, other: AdsSystemStateFlags)
        ensures
            final(self).spec_bits() == old(self).spec_bits() & !other.spec_bits(),
    {
        self.0 = self.0 & !other.0;
    }

    /// Returns `true` if the system is running in router mode only.
    pub fn is_router_mode_only(self) -> (r: bool)
        ensures
            r == self.spec_has(0x1),
    {
        self.0 & 0x1 == 0x1
    }

    /// Returns `true` if the system is part of a controller redundancy pair.
    pub fn is_redundancy_system(self) -> (r: bool)
        ensures
            r == self.spec_has(0x2),
    {
        self.0 & 0x2 == 0x2
    }

    /// Returns `true` if the system is the primary controller.
    pub fn is_redundancy_primary(self) -> (r: bool)
        ensures
            r == self.spec_has(0x4),
    {
        self.0 & 0x4 == 0x4
    }

    /// Returns `true` if the system is currently active (controlling the machine).
    pub fn is_redundancy_active(self) -> (r: bool)
        ensures
            r == self.spec_has(0x10),
    {
        self.0 & 0x10 == 0x10
    }

    /// Returns `true` if the system supports the data folder feature.
    pub fn has_data_folder_support(self) -> (r: bool)
        ensures
            r == self.spec_has(0x20),
    {
        self.0 & 0x20 == 0x20
    }

    /// Returns `true` if redundancy is currently down (not synchronized).
    pub fn is_redundancy_in_op(self) -> (r: bool)
        ensures
            r == self.spec_has(0x40),
    {
        self.0 & 0x40 == 0x40
    }

    /// Returns `true` if the standby system is currently suspended.
    pub fn is_redundancy_suspended(self) -> (r: bool)
        ensures
            r == self.spec_has(0x80),
    {
        self.0 & 0x80 == 0x80
    }

    /// Returns `true` if a new current config is being created.
    pub fn is_new_current_config(self) -> (r: bool)
        ensures
            r == self.spec_has(0x100),
    {
        self.0 & 0x100 == 0x100
    }


}

impl core::ops::BitOr for AdsSystemStateFlags {
    type Output = AdsSystemStateFlags;

    fn bitor(self, rhs: AdsSystemStateFlags) -> (r: AdsSystemStateFlags) {
        AdsSystemStateFlags(self.0 | rhs.0)
    }
}

impl vstd::std_specs::ops::BitOrSpecImpl for AdsSystemStateFlags {
    open spec fn obeys_bitor_spec() -> bool {
        true
    }

    open spec fn bitor_req(self, rhs: AdsSystemStateFlags) -> bool {
        true
    }

    closed spec fn bitor_spec(self, rhs: AdsSystemStateFlags) -> AdsSystemStateFlags {
        AdsSystemStateFlags(self.0 | rhs.0)
    }
}

impl core::default::Default for AdsSystemStateFlags {
    fn default() -> (r: AdsSystemStateFlags)
        ensures
            r.spec_bits() == 0,
    {
        AdsSystemStateFlags(0)
    }
}

/// Decoding the bytes that a flag set encodes to gives the same flag set.
pub proof fn lemma_ads_system_state_flags_bytes_roundtrip(f: AdsSystemStateFlags)
    ensures
        le_u16(u16_bytes(f.spec_bits())[0], u16_bytes(f.spec_bits())[1]) == f.spec_bits(),
{
    lemma_u16_roundtrip(f.spec_bits());
}

} // verus!
