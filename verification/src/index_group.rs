//! Index groups of ADS requests.

use vstd::prelude::*;
use crate::text::{hex_upper_padded4, push_hex_upper_padded4};
use crate::bytes::{le_u32, u32_bytes, u32_from_le, u32_to_le, lemma_u32_roundtrip};

verus! {

/// The index group of an ADS read/write/notification request.
///
/// Selects the address space (PLC memory, symbol table, sum commands, ...).
#[derive(Debug, Clone, Copy, PartialEq, Eq, Structural, PartialOrd, Ord, Hash)]
pub struct IndexGroup(u32);

impl IndexGroup {
    /// Wire size in bytes.
    pub const LENGTH: usize = 4;

    /// Read/write PLC input image bytes (`%I` field) via the PLC interface. (`0x4000`)
    pub const PLC_IO_INPUT_BYTES: u32 = 0x4000;
    /// Read/write PLC output image bytes (`%Q` field) via the PLC interface. (`0x4010`)
    pub const PLC_IO_OUTPUT_BYTES: u32 = 0x4010;
    /// Index offset is a byte offset in the range `0x0000`–`0xFFFF`. (`0x4020`)
    pub const PLC_MEMORY_BYTES: u32 = 0x4020;
    /// Index offset encodes the bit address: `byte_offset * 8 + bit_number`. (`0x4021`)
    pub const PLC_MEMORY_BITS: u32 = 0x4021;
    /// Read the byte length of the PLC memory range (`%M`). Index offset: `0`. (`0x4025`)
    pub const PLC_MEMORY_SIZE: u32 = 0x4025;
    /// Read/write PLC retain data byte(s). Index offset is a byte offset. (`0x4030`)
    pub const PLC_RETAIN_BYTES: u32 = 0x4030;
    /// Read the byte length of the PLC retain range. Index offset: `0`. (`0x4035`)
    pub const PLC_RETAIN_SIZE: u32 = 0x4035;
    /// Read/write PLC data byte(s). Index offset is a byte offset. (`0x4040`)
    pub const PLC_DATA_BYTES: u32 = 0x4040;
    /// Read the byte length of the PLC data range. Index offset: `0`. (`0x4045`)
    pub const PLC_DATA_SIZE: u32 = 0x4045;
    /// Access the symbol table directly. (`0xF000`)
    pub const SYMBOL_TABLE: u32 = 0xF000;
    /// Read a symbol name by its index offset. (`0xF001`)
    pub const SYMBOL_NAME: u32 = 0xF001;
    /// Read/write a symbol's value by its index offset. (`0xF002`)
    pub const SYMBOL_VALUE: u32 = 0xF002;
    /// Resolve a symbol's 32-bit handle from its instance path. (`0xF003`)
    pub const SYMBOL_HANDLE_BY_NAME: u32 = 0xF003;
    /// Read/write a symbol's value directly by its instance path. (`0xF004`)
    pub const SYMBOL_VALUE_BY_NAME: u32 = 0xF004;
    /// [`SYMBOL_HANDLE_BY_NAME`](Self::SYMBOL_HANDLE_BY_NAME). (`0xF005`)
    pub const SYMBOL_VALUE_BY_HANDLE: u32 = 0xF005;
    /// Release a previously obtained symbol handle. (`0xF006`)
    pub const SYMBOL_RELEASE_HANDLE: u32 = 0xF006;
    /// Fetch compact symbol metadata by instance path. (`0xF007`)
    pub const SYMBOL_INFO_BY_NAME: u32 = 0xF007;
    /// Read the current symbol-table version counter. Usually changes during an online download. (`0xF008`)
    pub const SYMBOL_VERSION: u32 = 0xF008;
    /// Fetch extended symbol metadata by instance path. (`0xF009`)
    pub const SYMBOL_INFO_BY_NAME_EX: u32 = 0xF009;
    /// Download a symbol table to the PLC. (`0xF00A`)
    pub const SYMBOL_DOWNLOAD: u32 = 0xF00A;
    /// Upload (read) the full symbol table blob from the PLC. (`0xF00B`)
    pub const SYMBOL_UPLOAD: u32 = 0xF00B;
    /// Read the symbol/data-type upload info (original 12-byte [`AdsSymbolUploadInfoV1`](super::AdsSymbolUploadInfoV1)). (`0xF00C`)
    pub const SYMBOL_UPLOAD_INFO: u32 = 0xF00C;
    /// Download a symbol table using the alternate command. (`0xF00D`)
    pub const SYMBOL_DOWNLOAD2: u32 = 0xF00D;
    /// Upload (read) the full data-type blob from the PLC. (`0xF00E`)
    pub const DATA_TYPE_UPLOAD: u32 = 0xF00E;
    /// Read extended symbol/data-type upload info (up to 64-byte [`AdsSymbolUploadInfoV3`](super::AdsSymbolUploadInfoV3)). (`0xF00F`)
    pub const SYMBOL_UPLOAD_INFO2: u32 = 0xF00F;
    /// Subscribe to change notifications for a named symbol. (`0xF010`)
    pub const SYMBOL_NOTIFICATION: u32 = 0xF010;
    /// Fetch full extended data-type metadata by type name. (`0xF011`)
    pub const DATA_TYPE_INFO_BY_NAME_EX: u32 = 0xF011;
    /// a valid range starts at [`IndexOffset::IO_IMAGE_INPUT_BASE`] (`0x0001F400`). (`0xF020`)
    pub const IO_IMAGE_INPUT_BYTES: u32 = 0xF020;
    /// [`IndexOffset::IO_IMAGE_INPUT_BIT_BASE`] (`0x000FA000`). (`0xF021`)
    pub const IO_IMAGE_INPUT_BITS: u32 = 0xF021;
    /// Read the byte length of the physical input process image. Index offset: `0`. (`0xF025`)
    pub const IO_IMAGE_INPUT_SIZE: u32 = 0xF025;
    /// a valid range starts at [`IndexOffset::IO_IMAGE_OUTPUT_BASE`] (`0x0003E800`). (`0xF030`)
    pub const IO_IMAGE_OUTPUT_BYTES: u32 = 0xF030;
    /// [`IndexOffset::IO_IMAGE_OUTPUT_BIT_BASE`] (`0x001F4000`). (`0xF031`)
    pub const IO_IMAGE_OUTPUT_BITS: u32 = 0xF031;
    /// Read the byte length of the physical output process image. Index offset: `0`. (`0xF035`)
    pub const IO_IMAGE_OUTPUT_SIZE: u32 = 0xF035;
    /// Write: `n * [IG, IO, Len]`. Read: `n * Result` + `n * Data`. (`0xF080`)
    pub const SUM_READ: u32 = 0xF080;
    /// Write: `n * [IG, IO, Len]` + `n * Data`. Read: `n * Result`. (`0xF081`)
    pub const SUM_WRITE: u32 = 0xF081;
    /// Read: `n * [Result, ReturnLen]` + `n * ReadData`. (`0xF082`)
    pub const SUM_READ_WRITE: u32 = 0xF082;
    /// Index offset = n. Same wire format as [`SUM_READ`](Self::SUM_READ). (`0xF083`)
    pub const SUM_READ_EX: u32 = 0xF083;
    /// Index offset = n. Same wire format as [`SUM_READ`](Self::SUM_READ). (`0xF084`)
    pub const SUM_READ_EX2: u32 = 0xF084;
    /// Write: `n * [IG, IO, Attrib]`. Read: `n * Result` + `n * Handle`. (`0xF085`)
    pub const SUM_ADD_NOTIFICATION: u32 = 0xF085;
    /// Write: `n * Handle`. Read: `n * Result`. (`0xF086`)
    pub const SUM_DELETE_NOTIFICATION: u32 = 0xF086;
    /// Read device-specific data. (`0xF100`)
    pub const DEVICE_DATA: u32 = 0xF100;

    /// The numeric value.
    pub closed spec fn spec_value(self) -> u32 {
        self.0
    }

    /// The text form: `0x` and at least four upper-case hexadecimal digits.
    pub fn to_text(&self) -> (r: String)
        ensures
            r@ == hex_upper_padded4(self.spec_value() as nat),
    {
        let mut s = String::new();
        push_hex_upper_padded4(&mut s, self.0);
        s
    }

    /// Creates a value from a raw `u32`.
    pub fn new(raw: u32) -> (r: IndexGroup)
        ensures
            r.spec_value() == raw,
    {
        IndexGroup(raw)
    }

    /// Returns the raw `u32`.
    pub fn as_u32(&self) -> (r: u32)
        ensures
            r == self.spec_value(),
    {
        self.0
    }

    /// The 4-byte little-endian encoding.
    pub fn to_bytes(&self) -> (r: [u8; 4])
        ensures
            r@ == u32_bytes(self.spec_value()),
    {
        u32_to_le(self.0)
    }

    /// Creates a value from its 4-byte little-endian encoding.
    pub fn from_bytes(bytes: [u8; 4]) -> (r: IndexGroup)
        ensures
            r.spec_value() == le_u32(bytes[0], bytes[1], bytes[2], bytes[3]),
    {
        IndexGroup(u32_from_le(bytes))
    }

}

impl core::convert::From<u32> for IndexGroup {
    fn from(v: u32) -> (r: IndexGroup)
        ensures
            r.spec_value() == v,
    {
        IndexGroup(v)
    }
}

impl vstd::std_specs::convert::FromSpecImpl<u32> for IndexGroup {
    open spec fn obeys_from_spec() -> bool {
        true
    }

    closed spec fn from_spec(v: u32) -> IndexGroup {
        IndexGroup(v)
    }
}

impl core::convert::From<IndexGroup> for u32 {
    fn from(v: IndexGroup) -> (r: u32)
        ensures
            r == v.spec_value(),
    {
        v.0
    }
}

impl vstd::std_specs::convert::FromSpecImpl<IndexGroup> for u32 {
    open spec fn obeys_from_spec() -> bool {
        true
    }

    closed spec fn from_spec(v: IndexGroup) -> u32 {
        v.0
    }
}

/// Two values with the same number are the same value.
pub proof fn lemma_index_group_ext(a: IndexGroup, b: IndexGroup)
    requires
        a.spec_value() == b.spec_value(),
    ensures
        a == b,
{
}

/// Decoding the bytes of a value gives the value back.
pub proof fn lemma_index_group_bytes_roundtrip(x: IndexGroup)
    ensures
        le_u32(u32_bytes(x.spec_value())[0], u32_bytes(x.spec_value())[1], u32_bytes(x.spec_value())[2],
            u32_bytes(x.spec_value())[3]) == x.spec_value(),
{
    lemma_u32_roundtrip(x.spec_value());
}

} // verus!
