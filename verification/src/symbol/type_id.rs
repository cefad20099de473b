//! Primitive type identifiers of the symbol tables.

use vstd::prelude::*;
use crate::bytes::{le_u32, u32_bytes, u32_from_le, u32_to_le, lemma_u32_roundtrip};
use crate::error::AdsTypeInfoError;

verus! {

/// Another name for [`AdsTypeId`].
pub type AdsDataTypeId = AdsTypeId;

/// The base data type of a symbol, field or parameter.
#[derive(Debug, Clone, Copy, PartialEq, Eq, Structural, PartialOrd, Ord, Hash)]
pub enum AdsTypeId {
    Void,
    Int16,
    Int32,
    Real32,
    Real64,
    Int8,
    UInt8,
    UInt16,
    UInt32,
    Int64,
    UInt64,
    String,
    WString,
    Real80,
    Bit,
    MaxTypes,
    BigType,
    /// A value not defined in the library.
    Unknown(u32),
}

/// The wire code of a [`AdsTypeId`].
pub open spec fn ads_type_id_code(x: AdsTypeId) -> u32 {
    match x {
        AdsTypeId::Void => 0,
        AdsTypeId::Int16 => 2,
        AdsTypeId::Int32 => 3,
        AdsTypeId::Real32 => 4,
        AdsTypeId::Real64 => 5,
        AdsTypeId::Int8 => 16,
        AdsTypeId::UInt8 => 17,
        AdsTypeId::UInt16 => 18,
        AdsTypeId::UInt32 => 19,
        AdsTypeId::Int64 => 20,
        AdsTypeId::UInt64 => 21,
        AdsTypeId::String => 30,
        AdsTypeId::WString => 31,
        AdsTypeId::Real80 => 32,
        AdsTypeId::Bit => 33,
        AdsTypeId::MaxTypes => 34,
        AdsTypeId::BigType => 65,
        AdsTypeId::Unknown(n) => n,
    }
}

/// The [`AdsTypeId`] that a wire code denotes.
pub open spec fn ads_type_id_of(v: u32) -> AdsTypeId {
    match v {
        0 => AdsTypeId::Void,
        2 => AdsTypeId::Int16,
        3 => AdsTypeId::Int32,
        4 => AdsTypeId::Real32,
        5 => AdsTypeId::Real64,
        16 => AdsTypeId::Int8,
        17 => AdsTypeId::UInt8,
        18 => AdsTypeId::UInt16,
        19 => AdsTypeId::UInt32,
        20 => AdsTypeId::Int64,
        21 => AdsTypeId::UInt64,
        30 => AdsTypeId::String,
        31 => AdsTypeId::WString,
        32 => AdsTypeId::Real80,
        33 => AdsTypeId::Bit,
        34 => AdsTypeId::MaxTypes,
        65 => AdsTypeId::BigType,
        _ => AdsTypeId::Unknown(v),
    }
}

/// A value is canonical when an `Unknown` payload is none of the named codes.
pub open spec fn ads_type_id_canonical(x: AdsTypeId) -> bool {
    match x {
        AdsTypeId::Unknown(n) => n != 0 && n != 2 && n != 3 && n != 4 && n != 5 && n != 16 && n != 17 && n != 18 && n != 19 && n != 20 && n != 21 && n != 30 && n != 31 && n != 32 && n != 33 && n != 34 && n != 65,
        _ => true,
    }
}

impl AdsTypeId {
    /// Wire size in bytes.
    pub const LENGTH: usize = 4;

    /// The value that a wire code denotes.
    pub fn from_u32(v: u32) -> (r: AdsTypeId)
        ensures
            r == ads_type_id_of(v),
    {
        match v {
            0 => AdsTypeId::Void,
            2 => AdsTypeId::Int16,
            3 => AdsTypeId::Int32,
            4 => AdsTypeId::Real32,
            5 => AdsTypeId::Real64,
            16 => AdsTypeId::Int8,
            17 => AdsTypeId::UInt8,
            18 => AdsTypeId::UInt16,
            19 => AdsTypeId::UInt32,
            20 => AdsTypeId::Int64,
            21 => AdsTypeId::UInt64,
            30 => AdsTypeId::String,
            31 => AdsTypeId::WString,
            32 => AdsTypeId::Real80,
            33 => AdsTypeId::Bit,
            34 => AdsTypeId::MaxTypes,
            65 => AdsTypeId::BigType,
            n => AdsTypeId::Unknown(n),
        }
    }

    /// The wire code of this value.
    pub fn as_u32(self) -> (r: u32)
        ensures
            r == ads_type_id_code(self),
    {
        match self {
            AdsTypeId::Void => 0,
            AdsTypeId::Int16 => 2,
            AdsTypeId::Int32 => 3,
            AdsTypeId::Real32 => 4,
            AdsTypeId::Real64 => 5,
            AdsTypeId::Int8 => 16,
            AdsTypeId::UInt8 => 17,
            AdsTypeId::UInt16 => 18,
            AdsTypeId::UInt32 => 19,
            AdsTypeId::Int64 => 20,
            AdsTypeId::UInt64 => 21,
            AdsTypeId::String => 30,
            AdsTypeId::WString => 31,
            AdsTypeId::Real80 => 32,
            AdsTypeId::Bit => 33,
            AdsTypeId::MaxTypes => 34,
            AdsTypeId::BigType => 65,
            AdsTypeId::Unknown(n) => n,
        }
    }

    /// Creates a value from its 4-byte little-endian encoding.
    pub fn from_bytes(bytes: [u8; 4]) -> (r: AdsTypeId)
        ensures
            r == ads_type_id_of(le_u32(bytes[0], bytes[1], bytes[2], bytes[3])),
    {
        AdsTypeId::from_u32(u32_from_le(bytes))
    }

    /// The 4-byte little-endian encoding of this value.
    pub fn to_bytes(self) -> (r: [u8; 4])
        ensures
            r@ == u32_bytes(ads_type_id_code(self)),
    {
        u32_to_le(self.as_u32())
    }

    /// Parses a value from a slice of exactly 4 bytes.
    pub fn try_from_slice(bytes: &[u8]) -> (r: Result<AdsTypeId, AdsTypeInfoError>)
        ensures
            bytes@.len() != 4 ==> r == Err::<AdsTypeId, AdsTypeInfoError>(AdsTypeInfoError::EntryLengthMismatch { expected: 4, got: bytes@.len() as usize }),
            bytes@.len() == 4 ==> r == Ok::<AdsTypeId, AdsTypeInfoError>(ads_type_id_of(le_u32(bytes@[0], bytes@[1], bytes@[2], bytes@[3]))),
    {
        if bytes.len() != 4 {
            return Err(AdsTypeInfoError::EntryLengthMismatch { expected: 4, got: bytes.len() });
        }
        Ok(AdsTypeId::from_bytes([bytes[0], bytes[1], bytes[2], bytes[3]]))
    }


}

impl core::convert::From<u32> for AdsTypeId {
    fn from(v: u32) -> (r: AdsTypeId) {
        AdsTypeId::from_u32(v)
    }
}

impl vstd::std_specs::convert::FromSpecImpl<u32> for AdsTypeId {
    open spec fn obeys_from_spec() -> bool {
        true
    }

    open spec fn from_spec(v: u32) -> AdsTypeId {
        ads_type_id_of(v)
    }
}

impl core::convert::From<AdsTypeId> for u32 {
    fn from(v: AdsTypeId) -> (r: u32) {
        v.as_u32()
    }
}

impl vstd::std_specs::convert::FromSpecImpl<AdsTypeId> for u32 {
    open spec fn obeys_from_spec() -> bool {
        true
    }

    open spec fn from_spec(v: AdsTypeId) -> u32 {
        ads_type_id_code(v)
    }
}

/// Every wire code survives the trip through [`AdsTypeId`].
pub proof fn lemma_ads_type_id_code_roundtrip(v: u32)
    ensures
        ads_type_id_code(ads_type_id_of(v)) == v,
        ads_type_id_canonical(ads_type_id_of(v)),
{
}

/// Every canonical [`AdsTypeId`] survives the trip through its wire code.
pub proof fn lemma_ads_type_id_roundtrip(x: AdsTypeId)
    requires
        ads_type_id_canonical(x),
    ensures
        ads_type_id_of(ads_type_id_code(x)) == x,
{
}

/// Encoding a canonical [`AdsTypeId`] and decoding the bytes gives it back.
pub proof fn lemma_ads_type_id_bytes_roundtrip(x: AdsTypeId)
    requires
        ads_type_id_canonical(x),
    ensures
        ads_type_id_of(le_u32(u32_bytes(ads_type_id_code(x))[0], u32_bytes(ads_type_id_code(x))[1], u32_bytes(ads_type_id_code(x))[2], u32_bytes(ads_type_id_code(x))[3])) == x,
{
    lemma_u32_roundtrip(ads_type_id_code(x));
}

/// The base data types of the protocol and their wire codes, as the ADS
/// specification numbers them (`ADST_VOID` = 0, `ADST_INT16` = 2, `ADST_INT32` = 3,
/// `ADST_REAL32` = 4, ... `ADST_BIGTYPE` = 65).
pub open spec fn ads_type_id_protocol_table() -> Seq<(u32, AdsTypeId)> {
    seq![
        (0u32, AdsTypeId::Void),
        (2u32, AdsTypeId::Int16),
        (3u32, AdsTypeId::Int32),
        (4u32, AdsTypeId::Real32),
        (5u32, AdsTypeId::Real64),
        (16u32, AdsTypeId::Int8),
        (17u32, AdsTypeId::UInt8),
        (18u32, AdsTypeId::UInt16),
        (19u32, AdsTypeId::UInt32),
        (20u32, AdsTypeId::Int64),
        (21u32, AdsTypeId::UInt64),
        (30u32, AdsTypeId::String),
        (31u32, AdsTypeId::WString),
        (32u32, AdsTypeId::Real80),
        (33u32, AdsTypeId::Bit),
        (34u32, AdsTypeId::MaxTypes),
        (65u32, AdsTypeId::BigType),
    ]
}

/// Every base data type of the protocol table is decoded from its code and
/// encoded as its code: 3 reads as `Int32` (DINT), 4 as `Real32` (REAL), and so
/// on for each entry. Together with the round trip of the codes, this fixes
/// the conversion on every code.
pub proof fn lemma_ads_type_id_protocol_table(i: int)
    requires
        0 <= i < ads_type_id_protocol_table().len(),
    ensures
        ads_type_id_of(ads_type_id_protocol_table()[i].0) == ads_type_id_protocol_table()[i].1,
        ads_type_id_code(ads_type_id_protocol_table()[i].1) == ads_type_id_protocol_table()[i].0,
{
}

} // verus!
