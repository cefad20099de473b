//! Symbol upload info: how many symbols and data types a runtime holds and
//! how large their blobs are, in three versions of growing size.

use vstd::prelude::*;
use crate::bytes::{lemma_seq_u32_at, seq_u32, u32_bytes, u32_from_le, u32_to_le, lemma_u32_bytes_roundtrip, lemma_u32_roundtrip};
use crate::error::AdsSymbolUploadInfoError;
use crate::symbol::upload_flags::AdsSymbolUploadFlags;

verus! {

/// The wire bytes of a version 1 upload info with the given fields.
pub open spec fn spec_upload_info_v1_bytes(f: (u32, u32)) -> Seq<u8> {
    u32_bytes(f.0) + u32_bytes(f.1)
}

/// The fields that the first 8 wire bytes of a version 1 upload info encode.
pub open spec fn spec_upload_info_v1_of(b: Seq<u8>) -> (u32, u32) {
    (seq_u32(b, 0), seq_u32(b, 4))
}

/// Version 1 symbol upload info (8 bytes): symbol count and blob size.
#[derive(Debug, Clone, Copy, PartialEq, Eq, Structural, Hash)]
pub struct AdsSymbolUploadInfoV1 {
    symbol_count: u32,
    symbol_blob_size: u32,
}

impl AdsSymbolUploadInfoV1 {
    /// Wire size in bytes.
    pub const LENGTH: usize = 8;

    /// The fields as plain values, in wire order.
    pub closed spec fn spec_fields(self) -> (u32, u32) {
        (self.symbol_count, self.symbol_blob_size)
    }

    /// Creates an upload info.
    pub fn new(symbol_count: u32, symbol_blob_size: u32) -> (r: AdsSymbolUploadInfoV1)
        ensures
            r.spec_fields() == (symbol_count, symbol_blob_size),
    {
        AdsSymbolUploadInfoV1 { symbol_count, symbol_blob_size }
    }

    /// The number of symbols in the symbol blob.
    pub fn symbol_count(&self) -> (r: u32)
        ensures
            r == self.spec_fields().0,
    {
        self.symbol_count
    }

    /// The total size in bytes of the symbol blob (the read length for it).
    pub fn symbol_blob_size(&self) -> (r: u32)
        ensures
            r == self.spec_fields().1,
    {
        self.symbol_blob_size
    }

    /// The 8 wire bytes.
    pub fn to_bytes(&self) -> (r: [u8; 8])
        ensures
            r@ == spec_upload_info_v1_bytes(self.spec_fields()),
    {
        let b0 = u32_to_le(self.symbol_count);
        let b1 = u32_to_le(self.symbol_blob_size);
        let r = [b0[0], b0[1], b0[2], b0[3], b1[0], b1[1], b1[2], b1[3]];
        assert(r@ =~= spec_upload_info_v1_bytes(self.spec_fields()));
        r
    }

    /// Decodes an upload info from its 8 wire bytes.
    pub fn from_bytes(data: [u8; 8]) -> (r: AdsSymbolUploadInfoV1)
        ensures
            r.spec_fields() == spec_upload_info_v1_of(data@),
    {
        AdsSymbolUploadInfoV1 {
            symbol_count: u32_from_le([data[0], data[1], data[2], data[3]]),
            symbol_blob_size: u32_from_le([data[4], data[5], data[6], data[7]]),
        }
    }

    /// Parses an upload info from the first 8 bytes of a slice.
    pub fn try_from_slice(data: &[u8]) -> (r: Result<AdsSymbolUploadInfoV1, AdsSymbolUploadInfoError>)
        ensures
            data@.len() < 8 ==> r == Err::<AdsSymbolUploadInfoV1, AdsSymbolUploadInfoError>(
                AdsSymbolUploadInfoError::TooShort { expected: 8, got: data@.len() as usize },
            ),
            data@.len() >= 8 ==> (r matches Ok(v) && v.spec_fields() == spec_upload_info_v1_of(data@)),
    {
        if data.len() < 8 {
            return Err(AdsSymbolUploadInfoError::TooShort { expected: 8, got: data.len() });
        }
        let mut buf = [0u8; 8];
        let mut i: usize = 0;
        while i < 8
            invariant
                data@.len() >= 8,
                0 <= i <= 8,
                forall|j: int| 0 <= j < i ==> buf@[j] == data@[j],
            decreases 8 - i,
        {
            buf[i] = data[i];
            i = i + 1;
        }
        assert(spec_upload_info_v1_of(buf@) == spec_upload_info_v1_of(data@));
        Ok(AdsSymbolUploadInfoV1::from_bytes(buf))
    }
}

/// Encoding a version 1 upload info and decoding the bytes gives its fields back.
pub proof fn lemma_upload_info_v1_roundtrip(f: (u32, u32))
    ensures
        spec_upload_info_v1_bytes(f).len() == 8,
        spec_upload_info_v1_of(spec_upload_info_v1_bytes(f)) == f,
{
    lemma_u32_roundtrip(f.0); lemma_u32_roundtrip(f.1);
}

/// Decoding 8 bytes and encoding the fields gives the bytes back.
pub proof fn lemma_upload_info_v1_bytes_roundtrip(b: Seq<u8>)
    requires
        b.len() == 8,
    ensures
        spec_upload_info_v1_bytes(spec_upload_info_v1_of(b)) == b,
{
    lemma_u32_bytes_roundtrip(b[0], b[1], b[2], b[3]);
    lemma_u32_bytes_roundtrip(b[4], b[5], b[6], b[7]);
    assert(spec_upload_info_v1_bytes(spec_upload_info_v1_of(b)) =~= b);
}

/// The wire bytes of a version 2 upload info with the given fields.
pub open spec fn spec_upload_info_v2_bytes(f: (u32, u32, u32, u32, u32, u32)) -> Seq<u8> {
    u32_bytes(f.0) + u32_bytes(f.1) + u32_bytes(f.2) + u32_bytes(f.3) + u32_bytes(f.4) + u32_bytes(f.5)
}

/// The fields that the first 24 wire bytes of a version 2 upload info encode.
pub open spec fn spec_upload_info_v2_of(b: Seq<u8>) -> (u32, u32, u32, u32, u32, u32) {
    (seq_u32(b, 0), seq_u32(b, 4), seq_u32(b, 8), seq_u32(b, 12), seq_u32(b, 16), seq_u32(b, 20))
}

/// Version 2 symbol upload info (24 bytes): adds the data type count and size and
/// the dynamic symbol fields.
#[derive(Debug, Clone, Copy, PartialEq, Eq, Structural, Hash)]
pub struct AdsSymbolUploadInfoV2 {
    symbol_count: u32,
    symbol_blob_size: u32,
    data_type_count: u32,
    data_type_blob_size: u32,
    dyn_symbol_capacity: u32,
    dyn_symbol_count: u32,
}

impl AdsSymbolUploadInfoV2 {
    /// Wire size in bytes.
    pub const LENGTH: usize = 24;

    /// The fields as plain values, in wire order.
    pub closed spec fn spec_fields(self) -> (u32, u32, u32, u32, u32, u32) {
        (self.symbol_count, self.symbol_blob_size, self.data_type_count, self.data_type_blob_size, self.dyn_symbol_capacity, self.dyn_symbol_count)
    }

    /// Creates an upload info.
    pub fn new(symbol_count: u32, symbol_blob_size: u32, data_type_count: u32, data_type_blob_size: u32, dyn_symbol_capacity: u32, dyn_symbol_count: u32) -> (r: AdsSymbolUploadInfoV2)
        ensures
            r.spec_fields() == (symbol_count, symbol_blob_size, data_type_count, data_type_blob_size, dyn_symbol_capacity, dyn_symbol_count),
    {
        AdsSymbolUploadInfoV2 { symbol_count, symbol_blob_size, data_type_count, data_type_blob_size, dyn_symbol_capacity, dyn_symbol_count }
    }

    /// The number of symbols in the symbol blob.
    pub fn symbol_count(&self) -> (r: u32)
        ensures
            r == self.spec_fields().0,
    {
        self.symbol_count
    }

    /// The total size in bytes of the symbol blob (the read length for it).
    pub fn symbol_blob_size(&self) -> (r: u32)
        ensures
            r == self.spec_fields().1,
    {
        self.symbol_blob_size
    }

    /// The number of data types in the data type blob.
    pub fn data_type_count(&self) -> (r: u32)
        ensures
            r == self.spec_fields().2,
    {
        self.data_type_count
    }

    /// The total size in bytes of the data type blob (the read length for it).
    pub fn data_type_blob_size(&self) -> (r: u32)
        ensures
            r == self.spec_fields().3,
    {
        self.data_type_blob_size
    }

    /// The largest number of dynamic symbols the runtime supports.
    pub fn dyn_symbol_capacity(&self) -> (r: u32)
        ensures
            r == self.spec_fields().4,
    {
        self.dyn_symbol_capacity
    }

    /// The number of dynamic symbols in use.
    pub fn dyn_symbol_count(&self) -> (r: u32)
        ensures
            r == self.spec_fields().5,
    {
        self.dyn_symbol_count
    }

    /// The 24 wire bytes.
    pub fn to_bytes(&self) -> (r: [u8; 24])
        ensures
            r@ == spec_upload_info_v2_bytes(self.spec_fields()),
    {
        let b0 = u32_to_le(self.symbol_count);
        let b1 = u32_to_le(self.symbol_blob_size);
        let b2 = u32_to_le(self.data_type_count);
        let b3 = u32_to_le(self.data_type_blob_size);
        let b4 = u32_to_le(self.dyn_symbol_capacity);
        let b5 = u32_to_le(self.dyn_symbol_count);
        let r = [b0[0], b0[1], b0[2], b0[3], b1[0], b1[1], b1[2], b1[3], b2[0], b2[1], b2[2], b2[3], b3[0], b3[1], b3[2], b3[3], b4[0], b4[1], b4[2], b4[3], b5[0], b5[1], b5[2], b5[3]];
        assert(r@ =~= spec_upload_info_v2_bytes(self.spec_fields()));
        r
    }

    /// Decodes an upload info from its 24 wire bytes.
    pub fn from_bytes(data: [u8; 24]) -> (r: AdsSymbolUploadInfoV2)
        ensures
            r.spec_fields() == spec_upload_info_v2_of(data@),
    {
        AdsSymbolUploadInfoV2 {
            symbol_count: u32_from_le([data[0], data[1], data[2], data[3]]),
            symbol_blob_size: u32_from_le([data[4], data[5], data[6], data[7]]),
            data_type_count: u32_from_le([data[8], data[9], data[10], data[11]]),
            data_type_blob_size: u32_from_le([data[12], data[13], data[14], data[15]]),
            dyn_symbol_capacity: u32_from_le([data[16], data[17], data[18], data[19]]),
            dyn_symbol_count: u32_from_le([data[20], data[21], data[22], data[23]]),
        }
    }

    /// Parses an upload info from the first 24 bytes of a slice.
    pub fn try_from_slice(data: &[u8]) -> (r: Result<AdsSymbolUploadInfoV2, AdsSymbolUploadInfoError>)
        ensures
            data@.len() < 24 ==> r == Err::<AdsSymbolUploadInfoV2, AdsSymbolUploadInfoError>(
                AdsSymbolUploadInfoError::TooShort { expected: 24, got: data@.len() as usize },
            ),
            data@.len() >= 24 ==> (r matches Ok(v) && v.spec_fields() == spec_upload_info_v2_of(data@)),
    {
        if data.len() < 24 {
            return Err(AdsSymbolUploadInfoError::TooShort { expected: 24, got: data.len() });
        }
        let mut buf = [0u8; 24];
        let mut i: usize = 0;
        while i < 24
            invariant
                data@.len() >= 24,
                0 <= i <= 24,
                forall|j: int| 0 <= j < i ==> buf@[j] == data@[j],
            decreases 24 - i,
        {
            buf[i] = data[i];
            i = i + 1;
        }
        assert(spec_upload_info_v2_of(buf@) == spec_upload_info_v2_of(data@));
        Ok(AdsSymbolUploadInfoV2::from_bytes(buf))
    }
}

/// Encoding a version 2 upload info and decoding the bytes gives its fields back.
pub proof fn lemma_upload_info_v2_roundtrip(f: (u32, u32, u32, u32, u32, u32))
    ensures
        spec_upload_info_v2_bytes(f).len() == 24,
        spec_upload_info_v2_of(spec_upload_info_v2_bytes(f)) == f,
{
    lemma_u32_roundtrip(f.0); lemma_u32_roundtrip(f.1); lemma_u32_roundtrip(f.2); lemma_u32_roundtrip(f.3); lemma_u32_roundtrip(f.4); lemma_u32_roundtrip(f.5);
}

/// Decoding 24 bytes and encoding the fields gives the bytes back.
pub proof fn lemma_upload_info_v2_bytes_roundtrip(b: Seq<u8>)
    requires
        b.len() == 24,
    ensures
        spec_upload_info_v2_bytes(spec_upload_info_v2_of(b)) == b,
{
    lemma_u32_bytes_roundtrip(b[0], b[1], b[2], b[3]);
    lemma_u32_bytes_roundtrip(b[4], b[5], b[6], b[7]);
    lemma_u32_bytes_roundtrip(b[8], b[9], b[10], b[11]);
    lemma_u32_bytes_roundtrip(b[12], b[13], b[14], b[15]);
    lemma_u32_bytes_roundtrip(b[16], b[17], b[18], b[19]);
    lemma_u32_bytes_roundtrip(b[20], b[21], b[22], b[23]);
    assert(spec_upload_info_v2_bytes(spec_upload_info_v2_of(b)) =~= b);
}

/// The wire bytes of a version 3 upload info with the given fields.
pub open spec fn spec_upload_info_v3_bytes(f: (u32, u32, u32, u32, u32, u32, u32, u32, u32)) -> Seq<u8> {
    u32_bytes(f.0) + u32_bytes(f.1) + u32_bytes(f.2) + u32_bytes(f.3) + u32_bytes(f.4) + u32_bytes(f.5) + u32_bytes(f.6) + u32_bytes(f.7) + u32_bytes(f.8) + Seq::new(28, |i: int| 0u8)
}

/// The fields that the first 64 wire bytes of a version 3 upload info encode.
pub open spec fn spec_upload_info_v3_of(b: Seq<u8>) -> (u32, u32, u32, u32, u32, u32, u32, u32, u32) {
    (seq_u32(b, 0), seq_u32(b, 4), seq_u32(b, 8), seq_u32(b, 12), seq_u32(b, 16), seq_u32(b, 20), seq_u32(b, 24), seq_u32(b, 28), seq_u32(b, 32))
}

/// Version 3 symbol upload info (64 bytes): adds the invalid dynamic symbol count,
/// the code page and the runtime flags; 28 reserved bytes follow.
#[derive(Debug, Clone, Copy, PartialEq, Eq, Structural, Hash)]
pub struct AdsSymbolUploadInfoV3 {
    symbol_count: u32,
    symbol_blob_size: u32,
    data_type_count: u32,
    data_type_blob_size: u32,
    dyn_symbol_capacity: u32,
    dyn_symbol_count: u32,
    invalid_dyn_symbol_count: u32,
    encoding_code_page: u32,
    flags: AdsSymbolUploadFlags,
}

impl AdsSymbolUploadInfoV3 {
    /// Wire size in bytes.
    pub const LENGTH: usize = 64;

    /// The fields as plain values, in wire order.
    pub closed spec fn spec_fields(self) -> (u32, u32, u32, u32, u32, u32, u32, u32, u32) {
        (self.symbol_count, self.symbol_blob_size, self.data_type_count, self.data_type_blob_size, self.dyn_symbol_capacity, self.dyn_symbol_count, self.invalid_dyn_symbol_count, self.encoding_code_page, self.flags.spec_bits())
    }

    /// Creates an upload info.
    pub fn new(symbol_count: u32, symbol_blob_size: u32, data_type_count: u32, data_type_blob_size: u32, dyn_symbol_capacity: u32, dyn_symbol_count: u32, invalid_dyn_symbol_count: u32, encoding_code_page: u32, flags: AdsSymbolUploadFlags) -> (r: AdsSymbolUploadInfoV3)
        ensures
            r.spec_fields() == (symbol_count, symbol_blob_size, data_type_count, data_type_blob_size, dyn_symbol_capacity, dyn_symbol_count, invalid_dyn_symbol_count, encoding_code_page, flags.spec_bits()),
    {
        AdsSymbolUploadInfoV3 { symbol_count, symbol_blob_size, data_type_count, data_type_blob_size, dyn_symbol_capacity, dyn_symbol_count, invalid_dyn_symbol_count, encoding_code_page, flags }
    }

    /// The number of symbols in the symbol blob.
    pub fn symbol_count(&self) -> (r: u32)
        ensures
            r == self.spec_fields().0,
    {
        self.symbol_count
    }

    /// The total size in bytes of the symbol blob (the read length for it).
    pub fn symbol_blob_size(&self) -> (r: u32)
        ensures
            r == self.spec_fields().1,
    {
        self.symbol_blob_size
    }

    /// The number of data types in the data type blob.
    pub fn data_type_count(&self) -> (r: u32)
        ensures
            r == self.spec_fields().2,
    {
        self.data_type_count
    }

    /// The total size in bytes of the data type blob (the read length for it).
    pub fn data_type_blob_size(&self) -> (r: u32)
        ensures
            r == self.spec_fields().3,
    {
        self.data_type_blob_size
    }

    /// The largest number of dynamic symbols the runtime supports.
    pub fn dyn_symbol_capacity(&self) -> (r: u32)
        ensures
            r == self.spec_fields().4,
    {
        self.dyn_symbol_capacity
    }

    /// The number of dynamic symbols in use.
    pub fn dyn_symbol_count(&self) -> (r: u32)
        ensures
            r == self.spec_fields().5,
    {
        self.dyn_symbol_count
    }

    /// The number of invalid dynamic symbols.
    pub fn invalid_dyn_symbol_count(&self) -> (r: u32)
        ensures
            r == self.spec_fields().6,
    {
        self.invalid_dyn_symbol_count
    }

    /// The code page of symbol and type names (1252 for Windows-1252).
    pub fn encoding_code_page(&self) -> (r: u32)
        ensures
            r == self.spec_fields().7,
    {
        self.encoding_code_page
    }

    /// The runtime flags.
    pub fn flags(&self) -> (r: AdsSymbolUploadFlags)
        ensures
            r.spec_bits() == self.spec_fields().8,
    {
        self.flags
    }

    /// The 64 wire bytes; the reserved bytes are zero.
    pub fn to_bytes(&self) -> (r: [u8; 64])
        ensures
            r@ == spec_upload_info_v3_bytes(self.spec_fields()),
    {
        let b0 = u32_to_le(self.symbol_count);
        let b1 = u32_to_le(self.symbol_blob_size);
        let b2 = u32_to_le(self.data_type_count);
        let b3 = u32_to_le(self.data_type_blob_size);
        let b4 = u32_to_le(self.dyn_symbol_capacity);
        let b5 = u32_to_le(self.dyn_symbol_count);
        let b6 = u32_to_le(self.invalid_dyn_symbol_count);
        let b7 = u32_to_le(self.encoding_code_page);
        let b8 = self.flags.to_bytes();
        let r = [b0[0], b0[1], b0[2], b0[3], b1[0], b1[1], b1[2], b1[3], b2[0], b2[1], b2[2], b2[3], b3[0], b3[1], b3[2], b3[3], b4[0], b4[1], b4[2], b4[3], b5[0], b5[1], b5[2], b5[3], b6[0], b6[1], b6[2], b6[3], b7[0], b7[1], b7[2], b7[3], b8[0], b8[1], b8[2], b8[3], 0, 0, 0, 0, 0, 0, 0, 0, 0, 0, 0, 0, 0, 0, 0, 0, 0, 0, 0, 0, 0, 0, 0, 0, 0, 0, 0, 0];
        assert(r@ =~= spec_upload_info_v3_bytes(self.spec_fields()));
        r
    }

    /// Decodes an upload info from its 64 wire bytes.
    pub fn from_bytes(data: [u8; 64]) -> (r: AdsSymbolUploadInfoV3)
        ensures
            r.spec_fields() == spec_upload_info_v3_of(data@),
    {
        AdsSymbolUploadInfoV3 {
            symbol_count: u32_from_le([data[0], data[1], data[2], data[3]]),
            symbol_blob_size: u32_from_le([data[4], data[5], data[6], data[7]]),
            data_type_count: u32_from_le([data[8], data[9], data[10], data[11]]),
            data_type_blob_size: u32_from_le([data[12], data[13], data[14], data[15]]),
            dyn_symbol_capacity: u32_from_le([data[16], data[17], data[18], data[19]]),
            dyn_symbol_count: u32_from_le([data[20], data[21], data[22], data[23]]),
            invalid_dyn_symbol_count: u32_from_le([data[24], data[25], data[26], data[27]]),
            encoding_code_page: u32_from_le([data[28], data[29], data[30], data[31]]),
            flags: AdsSymbolUploadFlags::from_bytes([data[32], data[33], data[34], data[35]]),
        }
    }

    /// Parses an upload info from a slice of exactly 64 bytes.
    pub fn try_from_slice(data: &[u8]) -> (r: Result<AdsSymbolUploadInfoV3, AdsSymbolUploadInfoError>)
        ensures
            data@.len() != 64 ==> r == Err::<AdsSymbolUploadInfoV3, AdsSymbolUploadInfoError>(
                AdsSymbolUploadInfoError::UnexpectedLength { expected: 64, got: data@.len() as usize },
            ),
            data@.len() == 64 ==> (r matches Ok(v) && v.spec_fields() == spec_upload_info_v3_of(data@)),
    {
        if data.len() != 64 {
            return Err(AdsSymbolUploadInfoError::UnexpectedLength { expected: 64, got: data.len() });
        }
        let mut buf = [0u8; 64];
        let mut i: usize = 0;
        while i < 64
            invariant
                data@.len() >= 64,
                0 <= i <= 64,
                forall|j: int| 0 <= j < i ==> buf@[j] == data@[j],
            decreases 64 - i,
        {
            buf[i] = data[i];
            i = i + 1;
        }
        assert(spec_upload_info_v3_of(buf@) == spec_upload_info_v3_of(data@));
        Ok(AdsSymbolUploadInfoV3::from_bytes(buf))
    }
}

/// Encoding a version 3 upload info and decoding the bytes gives its fields back.
pub proof fn lemma_upload_info_v3_roundtrip(f: (u32, u32, u32, u32, u32, u32, u32, u32, u32))
    ensures
        spec_upload_info_v3_bytes(f).len() == 64,
        spec_upload_info_v3_of(spec_upload_info_v3_bytes(f)) == f,
{
    let b = spec_upload_info_v3_bytes(f);
    assert(b.subrange(0, 4) =~= u32_bytes(f.0));
    assert(b.subrange(4, 8) =~= u32_bytes(f.1));
    assert(b.subrange(8, 12) =~= u32_bytes(f.2));
    assert(b.subrange(12, 16) =~= u32_bytes(f.3));
    assert(b.subrange(16, 20) =~= u32_bytes(f.4));
    assert(b.subrange(20, 24) =~= u32_bytes(f.5));
    assert(b.subrange(24, 28) =~= u32_bytes(f.6));
    assert(b.subrange(28, 32) =~= u32_bytes(f.7));
    assert(b.subrange(32, 36) =~= u32_bytes(f.8));
    lemma_seq_u32_at(b, 0, f.0);
    lemma_seq_u32_at(b, 4, f.1);
    lemma_seq_u32_at(b, 8, f.2);
    lemma_seq_u32_at(b, 12, f.3);
    lemma_seq_u32_at(b, 16, f.4);
    lemma_seq_u32_at(b, 20, f.5);
    lemma_seq_u32_at(b, 24, f.6);
    lemma_seq_u32_at(b, 28, f.7);
    lemma_seq_u32_at(b, 32, f.8);
}

/// Symbol upload info in one of its three versions, told apart by size.
#[derive(Debug, Clone, Copy, PartialEq, Eq, Structural, Hash)]
pub enum AdsSymbolUploadInfo {
    /// Version 1 (8 bytes).
    V1(AdsSymbolUploadInfoV1),
    /// Version 2 (24 bytes).
    V2(AdsSymbolUploadInfoV2),
    /// Version 3 (64 bytes).
    V3(AdsSymbolUploadInfoV3),
}

impl AdsSymbolUploadInfo {
    /// The number of symbols in the symbol blob.
    pub fn symbol_count(&self) -> (r: u32)
        ensures
            r == match *self {
                AdsSymbolUploadInfo::V1(v) => v.spec_fields().0,
                AdsSymbolUploadInfo::V2(v) => v.spec_fields().0,
                AdsSymbolUploadInfo::V3(v) => v.spec_fields().0,
            },
    {
        match self {
            AdsSymbolUploadInfo::V1(v) => v.symbol_count(),
            AdsSymbolUploadInfo::V2(v) => v.symbol_count(),
            AdsSymbolUploadInfo::V3(v) => v.symbol_count(),
        }
    }

    /// The total size in bytes of the symbol blob.
    pub fn symbol_blob_size(&self) -> (r: u32)
        ensures
            r == match *self {
                AdsSymbolUploadInfo::V1(v) => v.spec_fields().1,
                AdsSymbolUploadInfo::V2(v) => v.spec_fields().1,
                AdsSymbolUploadInfo::V3(v) => v.spec_fields().1,
            },
    {
        match self {
            AdsSymbolUploadInfo::V1(v) => v.symbol_blob_size(),
            AdsSymbolUploadInfo::V2(v) => v.symbol_blob_size(),
            AdsSymbolUploadInfo::V3(v) => v.symbol_blob_size(),
        }
    }

    /// The number of data types, when the version carries it.
    pub fn data_type_count(&self) -> (r: Option<u32>)
        ensures
            r == match *self {
                AdsSymbolUploadInfo::V1(_) => None,
                AdsSymbolUploadInfo::V2(v) => Some(v.spec_fields().2),
                AdsSymbolUploadInfo::V3(v) => Some(v.spec_fields().2),
            },
    {
        match self {
            AdsSymbolUploadInfo::V1(_) => None,
            AdsSymbolUploadInfo::V2(v) => Some(v.data_type_count()),
            AdsSymbolUploadInfo::V3(v) => Some(v.data_type_count()),
        }
    }

    /// The total size in bytes of the data type blob, when the version carries it.
    pub fn data_type_blob_size(&self) -> (r: Option<u32>)
        ensures
            r == match *self {
                AdsSymbolUploadInfo::V1(_) => None,
                AdsSymbolUploadInfo::V2(v) => Some(v.spec_fields().3),
                AdsSymbolUploadInfo::V3(v) => Some(v.spec_fields().3),
            },
    {
        match self {
            AdsSymbolUploadInfo::V1(_) => None,
            AdsSymbolUploadInfo::V2(v) => Some(v.data_type_blob_size()),
            AdsSymbolUploadInfo::V3(v) => Some(v.data_type_blob_size()),
        }
    }

    /// The largest number of dynamic symbols, when the version carries it.
    pub fn dyn_symbol_capacity(&self) -> (r: Option<u32>)
        ensures
            r == match *self {
                AdsSymbolUploadInfo::V1(_) => None,
                AdsSymbolUploadInfo::V2(v) => Some(v.spec_fields().4),
                AdsSymbolUploadInfo::V3(v) => Some(v.spec_fields().4),
            },
    {
        match self {
            AdsSymbolUploadInfo::V1(_) => None,
            AdsSymbolUploadInfo::V2(v) => Some(v.dyn_symbol_capacity()),
            AdsSymbolUploadInfo::V3(v) => Some(v.dyn_symbol_capacity()),
        }
    }

    /// The number of dynamic symbols in use, when the version carries it.
    pub fn dyn_symbol_count(&self) -> (r: Option<u32>)
        ensures
            r == match *self {
                AdsSymbolUploadInfo::V1(_) => None,
                AdsSymbolUploadInfo::V2(v) => Some(v.spec_fields().5),
                AdsSymbolUploadInfo::V3(v) => Some(v.spec_fields().5),
            },
    {
        match self {
            AdsSymbolUploadInfo::V1(_) => None,
            AdsSymbolUploadInfo::V2(v) => Some(v.dyn_symbol_count()),
            AdsSymbolUploadInfo::V3(v) => Some(v.dyn_symbol_count()),
        }
    }

    /// The code page of names, for version 3.
    pub fn encoding_code_page(&self) -> (r: Option<u32>)
        ensures
            r == match *self {
                AdsSymbolUploadInfo::V3(v) => Some(v.spec_fields().7),
                _ => None,
            },
    {
        match self {
            AdsSymbolUploadInfo::V3(v) => Some(v.encoding_code_page()),
            _ => None,
        }
    }

    /// The runtime flags, for version 3.
    pub fn flags(&self) -> (r: Option<AdsSymbolUploadFlags>)
        ensures
            match *self {
                AdsSymbolUploadInfo::V3(v) => r matches Some(f) && f.spec_bits() == v.spec_fields().8,
                _ => r is None,
            },
    {
        match self {
            AdsSymbolUploadInfo::V3(v) => Some(v.flags()),
            _ => None,
        }
    }

    /// The wire size of this version: 8, 24 or 64 bytes.
    pub fn wire_size(&self) -> (r: usize)
        ensures
            r == match *self {
                AdsSymbolUploadInfo::V1(_) => 8usize,
                AdsSymbolUploadInfo::V2(_) => 24usize,
                AdsSymbolUploadInfo::V3(_) => 64usize,
            },
    {
        match self {
            AdsSymbolUploadInfo::V1(_) => AdsSymbolUploadInfoV1::LENGTH,
            AdsSymbolUploadInfo::V2(_) => AdsSymbolUploadInfoV2::LENGTH,
            AdsSymbolUploadInfo::V3(_) => AdsSymbolUploadInfoV3::LENGTH,
        }
    }

    /// The wire bytes of this version.
    pub fn to_vec(&self) -> (r: Vec<u8>)
        ensures
            r@ == match *self {
                AdsSymbolUploadInfo::V1(v) => spec_upload_info_v1_bytes(v.spec_fields()),
                AdsSymbolUploadInfo::V2(v) => spec_upload_info_v2_bytes(v.spec_fields()),
                AdsSymbolUploadInfo::V3(v) => spec_upload_info_v3_bytes(v.spec_fields()),
            },
    {
        match self {
            AdsSymbolUploadInfo::V1(v) => {
                let b = v.to_bytes();
                vstd::slice::slice_to_vec(b.as_slice())
            },
            AdsSymbolUploadInfo::V2(v) => {
                let b = v.to_bytes();
                vstd::slice::slice_to_vec(b.as_slice())
            },
            AdsSymbolUploadInfo::V3(v) => {
                let b = v.to_bytes();
                vstd::slice::slice_to_vec(b.as_slice())
            },
        }
    }

    /// Parses an upload info, telling the version by the slice length: 64 bytes
    /// or more give version 3, read from the first 64; 24 to 63 give version 2
    /// and 8 to 23 give version 1.
    pub fn try_from_slice(data: &[u8]) -> (r: Result<AdsSymbolUploadInfo, AdsSymbolUploadInfoError>)
        ensures
            data@.len() < 8 ==> r == Err::<AdsSymbolUploadInfo, AdsSymbolUploadInfoError>(
                AdsSymbolUploadInfoError::TooShort { expected: 8, got: data@.len() as usize },
            ),
            8 <= data@.len() < 24 ==> (r matches Ok(AdsSymbolUploadInfo::V1(v)) && v.spec_fields()
                == spec_upload_info_v1_of(data@)),
            24 <= data@.len() < 64 ==> (r matches Ok(AdsSymbolUploadInfo::V2(v)) && v.spec_fields()
                == spec_upload_info_v2_of(data@)),
            data@.len() >= 64 ==> (r matches Ok(AdsSymbolUploadInfo::V3(v)) && v.spec_fields()
                == spec_upload_info_v3_of(data@.subrange(0, 64))),
    {
        if data.len() >= AdsSymbolUploadInfoV3::LENGTH {
            match AdsSymbolUploadInfoV3::try_from_slice(&data[0..AdsSymbolUploadInfoV3::LENGTH]) {
                Ok(v) => Ok(AdsSymbolUploadInfo::V3(v)),
                Err(e) => Err(e),
            }
        } else if data.len() >= AdsSymbolUploadInfoV2::LENGTH {
            match AdsSymbolUploadInfoV2::try_from_slice(data) {
                Ok(v) => Ok(AdsSymbolUploadInfo::V2(v)),
                Err(e) => Err(e),
            }
        } else if data.len() >= AdsSymbolUploadInfoV1::LENGTH {
            match AdsSymbolUploadInfoV1::try_from_slice(data) {
                Ok(v) => Ok(AdsSymbolUploadInfo::V1(v)),
                Err(e) => Err(e),
            }
        } else {
            Err(AdsSymbolUploadInfoError::TooShort { expected: AdsSymbolUploadInfoV1::LENGTH, got: data.len() })
        }
    }
}

/// The wire bytes of an upload info in its own version.
pub open spec fn spec_upload_info_bytes(u: AdsSymbolUploadInfo) -> Seq<u8> {
    match u {
        AdsSymbolUploadInfo::V1(v) => spec_upload_info_v1_bytes(v.spec_fields()),
        AdsSymbolUploadInfo::V2(v) => spec_upload_info_v2_bytes(v.spec_fields()),
        AdsSymbolUploadInfo::V3(v) => spec_upload_info_v3_bytes(v.spec_fields()),
    }
}

/// Serializing an upload info and parsing the bytes gives the same version
/// with the same fields.
pub proof fn lemma_upload_info_roundtrip(u: AdsSymbolUploadInfo)
    ensures
        match u {
            AdsSymbolUploadInfo::V1(v) => spec_upload_info_bytes(u).len() == 8
                && spec_upload_info_v1_of(spec_upload_info_bytes(u)) == v.spec_fields(),
            AdsSymbolUploadInfo::V2(v) => spec_upload_info_bytes(u).len() == 24
                && spec_upload_info_v2_of(spec_upload_info_bytes(u)) == v.spec_fields(),
            AdsSymbolUploadInfo::V3(v) => spec_upload_info_bytes(u).len() == 64
                && spec_upload_info_v3_of(spec_upload_info_bytes(u)) == v.spec_fields(),
        },
{
    match u {
        AdsSymbolUploadInfo::V1(v) => lemma_upload_info_v1_roundtrip(v.spec_fields()),
        AdsSymbolUploadInfo::V2(v) => lemma_upload_info_v2_roundtrip(v.spec_fields()),
        AdsSymbolUploadInfo::V3(v) => {
            lemma_upload_info_v3_roundtrip(v.spec_fields());
        },
    }
}

} // verus!
