//! Win32 file attribute bits.

use vstd::prelude::*;
use crate::text::{flag_table_view, flags_text, flags_text_of};
use crate::bytes::{le_u32, u32_bytes, u32_from_le, u32_to_le, lemma_u32_roundtrip};

verus! {

/// Win32 `FILE_ATTRIBUTE_*` bits, as reported by System Service file operations.
#[derive(Debug, Clone, Copy, PartialEq, Eq, Structural, PartialOrd, Ord, Hash)]
pub struct AdsFileAttributes(u32);

/// The flag names of [`AdsFileAttributes`], in declaration order.
pub open spec fn ads_file_attributes_names() -> Seq<(u32, Seq<char>)> {
    seq![
        (0x0001u32, "READ_ONLY"@),
        (0x0002u32, "HIDDEN"@),
        (0x0004u32, "SYSTEM"@),
        (0x0010u32, "DIRECTORY"@),
        (0x0020u32, "ARCHIVE"@),
        (0x0040u32, "DEVICE"@),
        (0x0080u32, "NORMAL"@),
        (0x0100u32, "TEMPORARY"@),
        (0x0200u32, "SPARSE_FILE"@),
        (0x0400u32, "REPARSE_POINT"@),
        (0x0800u32, "COMPRESSED"@),
    ]
}

/// The flag names of [`AdsFileAttributes`], in declaration order.
fn ads_file_attributes_name_table() -> (r: Vec<(u32, &'static str)>)
    ensures
        flag_table_view(r@) == ads_file_attributes_names(),
{
    let r = vec![
        (0x0001u32, "READ_ONLY"),
        (0x0002u32, "HIDDEN"),
        (0x0004u32, "SYSTEM"),
        (0x0010u32, "DIRECTORY"),
        (0x0020u32, "ARCHIVE"),
        (0x0040u32, "DEVICE"),
        (0x0080u32, "NORMAL"),
        (0x0100u32, "TEMPORARY"),
        (0x0200u32, "SPARSE_FILE"),
        (0x0400u32, "REPARSE_POINT"),
        (0x0800u32, "COMPRESSED"),
    ];
    assert(flag_table_view(r@) =~= ads_file_attributes_names());
    r
}

impl AdsFileAttributes {
    /// The file is read-only. (raw bit value)
    pub const READ_ONLY: u32 = 0x1;
    /// The file is hidden. (raw bit value)
    pub const HIDDEN: u32 = 0x2;
    /// The file is a system file. (raw bit value)
    pub const SYSTEM: u32 = 0x4;
    /// The entry is a directory. (raw bit value)
    pub const DIRECTORY: u32 = 0x10;
    /// The file is marked for backup/removal (archive bit). (raw bit value)
    pub const ARCHIVE: u32 = 0x20;
    /// The entry is a device. (raw bit value)
    pub const DEVICE: u32 = 0x40;
    /// The file has no other attributes set. (raw bit value)
    pub const NORMAL: u32 = 0x80;
    /// The file is being used for temporary storage. (raw bit value)
    pub const TEMPORARY: u32 = 0x100;
    /// The file is a sparse file. (raw bit value)
    pub const SPARSE_FILE: u32 = 0x200;
    /// The file has a reparse point. (raw bit value)
    pub const REPARSE_POINT: u32 = 0x400;
    /// The file or directory is compressed. (raw bit value)
    pub const COMPRESSED: u32 = 0x800;

    /// Wire size in bytes.
    pub const LENGTH: usize = 4;

    /// The raw bits of this flag set.
    pub closed spec fn spec_bits(self) -> u32 {
        self.0
    }

    /// The text form: `None` when no flag is set, else the names of the set
    /// flags joined with ` | `, with the bits that no name covers as `0x` and lower-case hexadecimal digits.
    pub fn to_text(&self) -> (r: String)
        ensures
            r@ == flags_text_of(self.spec_bits(), ads_file_attributes_names(), true),
    {
        flags_text(self.0, &ads_file_attributes_name_table(), true)
    }

    /// True when every bit of `mask` is set.
    pub open spec fn spec_has(self, mask: u32) -> bool {
        self.spec_bits() & mask == mask
    }

    /// Creates a flag set from a raw value, keeping unrecognised bits.
    pub fn new(raw: u32) -> (r: AdsFileAttributes)
        ensures
            r.spec_bits() == raw,
    {
        AdsFileAttributes(raw)
    }

    /// Creates a flag set from a raw value, keeping unrecognised bits.
    pub fn from_bits_retain(raw: u32) -> (r: AdsFileAttributes)
        ensures
            r.spec_bits() == raw,
    {
        AdsFileAttributes(raw)
    }

    /// The empty flag set.
    pub fn empty() -> (r: AdsFileAttributes)
        ensures
            r.spec_bits() == 0,
    {
        AdsFileAttributes(0)
    }

    /// Creates a flag set from its 4-byte little-endian encoding.
    pub fn from_bytes(b: [u8; 4]) -> (r: AdsFileAttributes)
        ensures
            r.spec_bits() == le_u32(b[0], b[1], b[2], b[3]),
    {
        AdsFileAttributes(u32_from_le(b))
    }

    /// The 4-byte little-endian encoding of this flag set.
    pub fn to_bytes(self) -> (r: [u8; 4])
        ensures
            r@ == u32_bytes(self.spec_bits()),
    {
        u32_to_le(self.0)
    }

    /// Returns the raw value.
    pub fn as_raw(self) -> (r: u32)
        ensures
            r == self.spec_bits(),
    {
        self.0
    }

    /// Returns the raw value.
    pub fn bits(self) -> (r: u32)
        ensures
            r == self.spec_bits(),
    {
        self.0
    }

    /// True when no bit is set.
    pub fn is_empty(self) -> (r: bool)
        ensures
            r == (self.spec_bits() == 0),
    {
        self.0 == 0
    }

    /// True when every bit of `other` is also set in `self`.
    pub fn contains(self, other: AdsFileAttributes) -> (r: bool)
        ensures
            r == self.spec_has(other.spec_bits()),
    {
        self.0 & other.0 == other.0
    }

    /// The union of two flag sets.
    pub fn union(self, other: AdsFileAttributes) -> (r: AdsFileAttributes)
        ensures
            r.spec_bits() == self.spec_bits() | other.spec_bits(),
    {
        AdsFileAttributes(self.0 | other.0)
    }

    /// The bits of `self` that are not in `other`.
    pub fn difference(self, other: AdsFileAttributes) -> (r: AdsFileAttributes)
        ensures
            r.spec_bits() == self.spec_bits() & !other.spec_bits(),
    {
        AdsFileAttributes(self.0 & !other.0)
    }

    /// Sets every bit of `other`.
    pub fn insert(&mut self, other: AdsFileAttributes)
        ensures
            final(self).spec_bits() == old(self).spec_bits() | other.spec_bits(),
    {
        self.0 = self.0 | other.0;
    }

    /// Clears every bit of `other`.
    pub fn remove(&mut self, other: AdsFileAttributes)
        ensures
            final(self).spec_bits() == old(self).spec_bits() & !other.spec_bits(),
    {
        self.0 = self.0 & !other.0;
    }

    /// Returns `true` if the [`READ_ONLY`](Self::READ_ONLY) flag is set.
    pub fn is_read_only(self) -> (r: bool)
        ensures
            r == self.spec_has(0x1),
    {
        self.0 & 0x1 == 0x1
    }

    /// Returns `true` if the [`HIDDEN`](Self::HIDDEN) flag is set.
    pub fn is_hidden(self) -> (r: bool)
        ensures
            r == self.spec_has(0x2),
    {
        self.0 & 0x2 == 0x2
    }

    /// Returns `true` if the [`SYSTEM`](Self::SYSTEM) flag is set.
    pub fn is_system(self) -> (r: bool)
        ensures
            r == self.spec_has(0x4),
    {
        self.0 & 0x4 == 0x4
    }

    /// Returns `true` if the entry is a directory.
    pub fn is_directory(self) -> (r: bool)
        ensures
            r == self.spec_has(0x10),
    {
        self.0 & 0x10 == 0x10
    }

    /// Returns `true` if the [`ARCHIVE`](Self::ARCHIVE) flag is set.
    pub fn is_archive(self) -> (r: bool)
        ensures
            r == self.spec_has(0x20),
    {
        self.0 & 0x20 == 0x20
    }

    /// Returns `true` if the [`DEVICE`](Self::DEVICE) flag is set.
    pub fn is_device(self) -> (r: bool)
        ensures
            r == self.spec_has(0x40),
    {
        self.0 & 0x40 == 0x40
    }

    /// Returns `true` if the [`NORMAL`](Self::NORMAL) flag is set.
    pub fn is_normal(self) -> (r: bool)
        ensures
            r == self.spec_has(0x80),
    {
        self.0 & 0x80 == 0x80
    }

    /// Returns `true` if the [`TEMPORARY`](Self::TEMPORARY) flag is set.
    pub fn is_temporary(self) -> (r: bool)
        ensures
            r == self.spec_has(0x100),
    {
        self.0 & 0x100 == 0x100
    }

    /// Returns `true` if the [`SPARSE_FILE`](Self::SPARSE_FILE) flag is set.
    pub fn is_sparse_file(self) -> (r: bool)
        ensures
            r == self.spec_has(0x200),
    {
        self.0 & 0x200 == 0x200
    }

    /// Returns `true` if the [`REPARSE_POINT`](Self::REPARSE_POINT) flag is set.
    pub fn is_reparse_point(self) -> (r: bool)
        ensures
            r == self.spec_has(0x400),
    {
        self.0 & 0x400 == 0x400
    }

    /// Returns `true` if the [`COMPRESSED`](Self::COMPRESSED) flag is set.
    pub fn is_compressed(self) -> (r: bool)
        ensures
            r == self.spec_has(0x800),
    {
        self.0 & 0x800 == 0x800
    }


}

impl core::ops::BitOr for AdsFileAttributes {
    type Output = AdsFileAttributes;

    fn bitor(self, rhs: AdsFileAttributes) -> (r: AdsFileAttributes) {
        AdsFileAttributes(self.0 | rhs.0)
    }
}

impl vstd::std_specs::ops::BitOrSpecImpl for AdsFileAttributes {
    open spec fn obeys_bitor_spec() -> bool {
        true
    }

    open spec fn bitor_req(self, rhs: AdsFileAttributes) -> bool {
        true
    }

    closed spec fn bitor_spec(self, rhs: AdsFileAttributes) -> AdsFileAttributes {
        AdsFileAttributes(self.0 | rhs.0)
    }
}

impl core::default::Default for AdsFileAttributes {
    fn default() -> (r: AdsFileAttributes)
        ensures
            r.spec_bits() == 0,
    {
        AdsFileAttributes(0)
    }
}

/// Decoding the bytes that a flag set encodes to gives the same flag set.
pub proof fn lemma_ads_file_attributes_bytes_roundtrip(f: AdsFileAttributes)
    ensures
        le_u32(u32_bytes(f.spec_bits())[0], u32_bytes(f.spec_bits())[1], u32_bytes(f.spec_bits())[2], u32_bytes(f.spec_bits())[3]) == f.spec_bits(),
{
    lemma_u32_roundtrip(f.spec_bits());
}

} // verus!
