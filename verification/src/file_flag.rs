//! File open flags of the System Service.

use vstd::prelude::*;
use crate::text::{flag_table_view, flags_text, flags_text_of};
use crate::bytes::{le_u32, u32_bytes, u32_from_le, u32_to_le, lemma_u32_roundtrip};

verus! {

/// Flags for opening a file through the System Service.
#[derive(Debug, Clone, Copy, PartialEq, Eq, Structural, PartialOrd, Ord, Hash)]
pub struct AdsFileFlags(u32);

/// The flag names of [`AdsFileFlags`], in declaration order.
pub open spec fn ads_file_flags_names() -> Seq<(u32, Seq<char>)> {
    seq![
        (0x1u32, "READ"@),
        (0x2u32, "WRITE"@),
        (0x4u32, "APPEND"@),
        (0x8u32, "PLUS"@),
        (0x10u32, "BINARY"@),
        (0x20u32, "TEXT"@),
        (0x40u32, "ENSURE_DIR"@),
        (0x80u32, "ENABLE_DIR"@),
        (0x100u32, "OVERWRITE"@),
        (0x200u32, "OVERWRITE_RENAME"@),
    ]
}

/// The flag names of [`AdsFileFlags`], in declaration order.
fn ads_file_flags_name_table() -> (r: Vec<(u32, &'static str)>)
    ensures
        flag_table_view(r@) == ads_file_flags_names(),
{
    let r = vec![
        (0x1u32, "READ"),
        (0x2u32, "WRITE"),
        (0x4u32, "APPEND"),
        (0x8u32, "PLUS"),
        (0x10u32, "BINARY"),
        (0x20u32, "TEXT"),
        (0x40u32, "ENSURE_DIR"),
        (0x80u32, "ENABLE_DIR"),
        (0x100u32, "OVERWRITE"),
        (0x200u32, "OVERWRITE_RENAME"),
    ];
    assert(flag_table_view(r@) =~= ads_file_flags_names());
    r
}

impl AdsFileFlags {
    /// File read mode. (raw bit value)
    pub const READ: u32 = 0x1;
    /// File write mode. (raw bit value)
    pub const WRITE: u32 = 0x2;
    /// File append mode. (raw bit value)
    pub const APPEND: u32 = 0x4;
    /// Open for both reading and writing (update). (raw bit value)
    pub const PLUS: u32 = 0x8;
    /// Binary file mode. (raw bit value)
    pub const BINARY: u32 = 0x10;
    /// Text file mode. (raw bit value)
    pub const TEXT: u32 = 0x20;
    /// Ensure the directory exists when opening/creating. (raw bit value)
    pub const ENSURE_DIR: u32 = 0x40;
    /// Enable directory operations (e.g., for deleting). (raw bit value)
    pub const ENABLE_DIR: u32 = 0x80;
    /// Overwrite an existing file. (raw bit value)
    pub const OVERWRITE: u32 = 0x100;
    /// Overwrite an existing file and rename the old one. (raw bit value)
    pub const OVERWRITE_RENAME: u32 = 0x200;

    /// Wire size in bytes.
    pub const LENGTH: usize = 4;

    /// The raw bits of this flag set.
    pub closed spec fn spec_bits(self) -> u32 {
        self.0
    }

    /// The text form: `None` when no flag is set, else the names of the set
    /// flags joined with ` | `, with the bits that no name covers as `0x` and lower-case hexadecimal digits.
    pub fn to_text(&self) -> (r: String)
        ensures
            r@ == flags_text_of(self.spec_bits(), ads_file_flags_names(), true),
    {
        flags_text(self.0, &ads_file_flags_name_table(), true)
    }

    /// True when every bit of `mask` is set.
    pub open spec fn spec_has(self, mask: u32) -> bool {
        self.spec_bits() & mask == mask
    }

    /// Creates a flag set from a raw value, keeping unrecognised bits.
    pub fn new(raw: u32) -> (r: AdsFileFlags)
        ensures
            r.spec_bits() == raw,
    {
        AdsFileFlags(raw)
    }

    /// Creates a flag set from a raw value, keeping unrecognised bits.
    pub fn from_bits_retain(raw: u32) -> (r: AdsFileFlags)
        ensures
            r.spec_bits() == raw,
    {
        AdsFileFlags(raw)
    }

    /// The empty flag set.
    pub fn empty() -> (r: AdsFileFlags)
        ensures
            r.spec_bits() == 0,
    {
        AdsFileFlags(0)
    }

    /// Creates a flag set from its 4-byte little-endian encoding.
    pub fn from_bytes(b: [u8; 4]) -> (r: AdsFileFlags)
        ensures
            r.spec_bits() == le_u32(b[0], b[1], b[2], b[3]),
    {
        AdsFileFlags(u32_from_le(b))
    }

    /// The 4-byte little-endian encoding of this flag set.
    pub fn to_bytes(self) -> (r: [u8; 4])
        ensures
            r@ == u32_bytes(self.spec_bits()),
    {
        u32_to_le(self.0)
    }

    /// Returns the raw value.
    pub fn as_raw(self) -> (r: u32)
        ensures
            r == self.spec_bits(),
    {
        self.0
    }

    /// Returns the raw value.
    pub fn bits(self) -> (r: u32)
        ensures
            r == self.spec_bits(),
    {
        self.0
    }

    /// True when no bit is set.
    pub fn is_empty(self) -> (r: bool)
        ensures
            r == (self.spec_bits() == 0),
    {
        self.0 == 0
    }

    /// True when every bit of `other` is also set in `self`.
    pub fn contains(self, other: AdsFileFlags) -> (r: bool)
        ensures
            r == self.spec_has(other.spec_bits()),
    {
        self.0 & other.0 == other.0
    }

    /// The union of two flag sets.
    pub fn union(self, other: AdsFileFlags) -> (r: AdsFileFlags)
        ensures
            r.spec_bits() == self.spec_bits() | other.spec_bits(),
    {
        AdsFileFlags(self.0 | other.0)
    }

    /// The bits of `self` that are not in `other`.
    pub fn difference(self, other: AdsFileFlags) -> (r: AdsFileFlags)
        ensures
            r.spec_bits() == self.spec_bits() & !other.spec_bits(),
    {
        AdsFileFlags(self.0 & !other.0)
    }

    /// Sets every bit of `other`.
    pub fn insert(&mut self, other: AdsFileFlags)
        ensures
            final(self).spec_bits() == old(self).spec_bits() | other.spec_bits(),
    {
        self.0 = self.0 | other.0;
    }

    /// Clears every bit of `other`.
    pub fn remove(&mut self, other: AdsFileFlags)
        ensures
            final(self).spec_bits() == old(self).spec_bits() & !other.spec_bits(),
    {
        self.0 = self.0 & !other.0;
    }

    /// Returns `true` if the [`READ`](Self::READ) flag is set.
    pub fn is_read(self) -> (r: bool)
        ensures
            r == self.spec_has(0x1),
    {
        self.0 & 0x1 == 0x1
    }

    /// Returns `true` if the [`WRITE`](Self::WRITE) flag is set.
    pub fn is_write(self) -> (r: bool)
        ensures
            r == self.spec_has(0x2),
    {
        self.0 & 0x2 == 0x2
    }

    /// Returns `true` if the [`APPEND`](Self::APPEND) flag is set.
    pub fn is_append(self) -> (r: bool)
        ensures
            r == self.spec_has(0x4),
    {
        self.0 & 0x4 == 0x4
    }

    /// Returns `true` if the [`PLUS`](Self::PLUS) flag is set.
    pub fn is_plus(self) -> (r: bool)
        ensures
            r == self.spec_has(0x8),
    {
        self.0 & 0x8 == 0x8
    }

    /// Returns `true` if the [`BINARY`](Self::BINARY) flag is set.
    pub fn is_binary(self) -> (r: bool)
        ensures
            r == self.spec_has(0x10),
    {
        self.0 & 0x10 == 0x10
    }

    /// Returns `true` if the [`TEXT`](Self::TEXT) flag is set.
    pub fn is_text(self) -> (r: bool)
        ensures
            r == self.spec_has(0x20),
    {
        self.0 & 0x20 == 0x20
    }

    /// Returns `true` if the [`ENSURE_DIR`](Self::ENSURE_DIR) flag is set.
    pub fn has_ensure_dir(self) -> (r: bool)
        ensures
            r == self.spec_has(0x40),
    {
        self.0 & 0x40 == 0x40
    }

    /// Returns `true` if the [`ENABLE_DIR`](Self::ENABLE_DIR) flag is set.
    pub fn has_enable_dir(self) -> (r: bool)
        ensures
            r == self.spec_has(0x80),
    {
        self.0 & 0x80 == 0x80
    }

    /// Returns `true` if the [`OVERWRITE`](Self::OVERWRITE) flag is set.
    pub fn is_overwrite(self) -> (r: bool)
        ensures
            r == self.spec_has(0x100),
    {
        self.0 & 0x100 == 0x100
    }

    /// Returns `true` if the [`OVERWRITE_RENAME`](Self::OVERWRITE_RENAME) flag is set.
    pub fn is_overwrite_rename(self) -> (r: bool)
        ensures
            r == self.spec_has(0x200),
    {
        self.0 & 0x200 == 0x200
    }


}

impl core::ops::BitOr for AdsFileFlags {
    type Output = AdsFileFlags;

    fn bitor(self, rhs: AdsFileFlags) -> (r: AdsFileFlags) {
        AdsFileFlags(self.0 | rhs.0)
    }
}

impl vstd::std_specs::ops::BitOrSpecImpl for AdsFileFlags {
    open spec fn obeys_bitor_spec() -> bool {
        true
    }

    open spec fn bitor_req(self, rhs: AdsFileFlags) -> bool {
        true
    }

    closed spec fn bitor_spec(self, rhs: AdsFileFlags) -> AdsFileFlags {
        AdsFileFlags(self.0 | rhs.0)
    }
}

impl core::default::Default for AdsFileFlags {
    fn default() -> (r: AdsFileFlags)
        ensures
            r.spec_bits() == 0,
    {
        AdsFileFlags(0)
    }
}

/// Decoding the bytes that a flag set encodes to gives the same flag set.
pub proof fn lemma_ads_file_flags_bytes_roundtrip(f: AdsFileFlags)
    ensures
        le_u32(u32_bytes(f.spec_bits())[0], u32_bytes(f.spec_bits())[1], u32_bytes(f.spec_bits())[2], u32_bytes(f.spec_bits())[3]) == f.spec_bits(),
{
    lemma_u32_roundtrip(f.spec_bits());
}

} // verus!
