//! Hardware families of an ADS target.

use vstd::prelude::*;
use crate::bytes::{le_u32, u32_bytes, u32_from_le, u32_to_le, lemma_u32_roundtrip};

verus! {

/// The hardware family of an ADS target.
#[derive(Debug, Clone, Copy, PartialEq, Eq, Structural, PartialOrd, Ord, Hash)]
pub enum AdsTargetType {
    Pc,
    Cx,
    Bc,
    Bx,
    /// A value not defined in the library.
    Unknown(u32),
}

/// The wire code of a [`AdsTargetType`].
pub open spec fn ads_target_type_code(x: AdsTargetType) -> u32 {
    match x {
        AdsTargetType::Pc => 1,
        AdsTargetType::Cx => 2,
        AdsTargetType::Bc => 3,
        AdsTargetType::Bx => 4,
        AdsTargetType::Unknown(n) => n,
    }
}

/// The [`AdsTargetType`] that a wire code denotes.
pub open spec fn ads_target_type_of(v: u32) -> AdsTargetType {
    match v {
        1 => AdsTargetType::Pc,
        2 => AdsTargetType::Cx,
        3 => AdsTargetType::Bc,
        4 => AdsTargetType::Bx,
        _ => AdsTargetType::Unknown(v),
    }
}

/// A value is canonical when an `Unknown` payload is none of the named codes.
pub open spec fn ads_target_type_canonical(x: AdsTargetType) -> bool {
    match x {
        AdsTargetType::Unknown(n) => n != 1 && n != 2 && n != 3 && n != 4,
        _ => true,
    }
}

impl AdsTargetType {
    /// Wire size in bytes.
    pub const LENGTH: usize = 4;

    /// The value that a wire code denotes.
    pub fn from_u32(v: u32) -> (r: AdsTargetType)
        ensures
            r == ads_target_type_of(v),
    {
        match v {
            1 => AdsTargetType::Pc,
            2 => AdsTargetType::Cx,
            3 => AdsTargetType::Bc,
            4 => AdsTargetType::Bx,
            n => AdsTargetType::Unknown(n),
        }
    }

    /// The wire code of this value.
    pub fn as_u32(self) -> (r: u32)
        ensures
            r == ads_target_type_code(self),
    {
        match self {
            AdsTargetType::Pc => 1,
            AdsTargetType::Cx => 2,
            AdsTargetType::Bc => 3,
            AdsTargetType::Bx => 4,
            AdsTargetType::Unknown(n) => n,
        }
    }

    /// Creates a value from its 4-byte little-endian encoding.
    pub fn from_bytes(bytes: [u8; 4]) -> (r: AdsTargetType)
        ensures
            r == ads_target_type_of(le_u32(bytes[0], bytes[1], bytes[2], bytes[3])),
    {
        AdsTargetType::from_u32(u32_from_le(bytes))
    }

    /// The 4-byte little-endian encoding of this value.
    pub fn to_bytes(self) -> (r: [u8; 4])
        ensures
            r@ == u32_bytes(ads_target_type_code(self)),
    {
        u32_to_le(self.as_u32())
    }


}

impl core::convert::From<u32> for AdsTargetType {
    fn from(v: u32) -> (r: AdsTargetType) {
        AdsTargetType::from_u32(v)
    }
}

impl vstd::std_specs::convert::FromSpecImpl<u32> for AdsTargetType {
    open spec fn obeys_from_spec() -> bool {
        true
    }

    open spec fn from_spec(v: u32) -> AdsTargetType {
        ads_target_type_of(v)
    }
}

impl core::convert::From<AdsTargetType> for u32 {
    fn from(v: AdsTargetType) -> (r: u32) {
        v.as_u32()
    }
}

impl vstd::std_specs::convert::FromSpecImpl<AdsTargetType> for u32 {
    open spec fn obeys_from_spec() -> bool {
        true
    }

    open spec fn from_spec(v: AdsTargetType) -> u32 {
        ads_target_type_code(v)
    }
}

/// Every wire code survives the trip through [`AdsTargetType`].
pub proof fn lemma_ads_target_type_code_roundtrip(v: u32)
    ensures
        ads_target_type_code(ads_target_type_of(v)) == v,
        ads_target_type_canonical(ads_target_type_of(v)),
{
}

/// Every canonical [`AdsTargetType`] survives the trip through its wire code.
pub proof fn lemma_ads_target_type_roundtrip(x: AdsTargetType)
    requires
        ads_target_type_canonical(x),
    ensures
        ads_target_type_of(ads_target_type_code(x)) == x,
{
}

/// Encoding a canonical [`AdsTargetType`] and decoding the bytes gives it back.
pub proof fn lemma_ads_target_type_bytes_roundtrip(x: AdsTargetType)
    requires
        ads_target_type_canonical(x),
    ensures
        ads_target_type_of(le_u32(u32_bytes(ads_target_type_code(x))[0], u32_bytes(ads_target_type_code(x))[1], u32_bytes(ads_target_type_code(x))[2], u32_bytes(ads_target_type_code(x))[3])) == x,
{
    lemma_u32_roundtrip(ads_target_type_code(x));
}

/// The target types of the protocol and their wire codes: the ADS target types (PC = 1, CX = 2, BC = 3, BX = 4).
pub open spec fn ads_target_type_protocol_table() -> Seq<(u32, AdsTargetType)> {
    seq![
        (1u32, AdsTargetType::Pc),
        (2u32, AdsTargetType::Cx),
        (3u32, AdsTargetType::Bc),
        (4u32, AdsTargetType::Bx),
    ]
}

/// Every entry of the protocol table is decoded from its code and encoded as
/// its code. Together with the round trip of the codes, this fixes the
/// conversion on every code.
pub proof fn lemma_ads_target_type_protocol_table(i: int)
    requires
        0 <= i < ads_target_type_protocol_table().len(),
    ensures
        ads_target_type_of(ads_target_type_protocol_table()[i].0) == ads_target_type_protocol_table()[i].1,
        ads_target_type_code(ads_target_type_protocol_table()[i].1) == ads_target_type_protocol_table()[i].0,
{
}

} // verus!
