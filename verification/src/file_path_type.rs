//! Path kinds of System Service file operations.

use vstd::prelude::*;
use crate::bytes::{le_u16, u16_bytes, u16_from_le, u16_to_le, lemma_u16_roundtrip};

verus! {

/// The base folder of a System Service file path.
#[derive(Debug, Clone, Copy, PartialEq, Eq, Structural, PartialOrd, Ord, Hash)]
pub enum AdsFilePathType {
    /// Generic path.
    Generic,
    /// Boot project folder.
    BootProject,
    /// Boot data folder.
    BootData,
    /// Boot folder.
    BootPath,
    /// A value not defined in the library.
    Unknown(u16),
}

/// The wire code of a [`AdsFilePathType`].
pub open spec fn ads_file_path_type_code(x: AdsFilePathType) -> u16 {
    match x {
        AdsFilePathType::Generic => 1,
        AdsFilePathType::BootProject => 2,
        AdsFilePathType::BootData => 3,
        AdsFilePathType::BootPath => 4,
        AdsFilePathType::Unknown(n) => n,
    }
}

/// The [`AdsFilePathType`] that a wire code denotes.
pub open spec fn ads_file_path_type_of(v: u16) -> AdsFilePathType {
    match v {
        1 => AdsFilePathType::Generic,
        2 => AdsFilePathType::BootProject,
        3 => AdsFilePathType::BootData,
        4 => AdsFilePathType::BootPath,
        _ => AdsFilePathType::Unknown(v),
    }
}

/// A value is canonical when an `Unknown` payload is none of the named codes.
pub open spec fn ads_file_path_type_canonical(x: AdsFilePathType) -> bool {
    match x {
        AdsFilePathType::Unknown(n) => n != 1 && n != 2 && n != 3 && n != 4,
        _ => true,
    }
}

impl AdsFilePathType {
    /// Wire size in bytes.
    pub const LENGTH: usize = 2;

    /// The value that a wire code denotes.
    pub fn from_u16(v: u16) -> (r: AdsFilePathType)
        ensures
            r == ads_file_path_type_of(v),
    {
        match v {
            1 => AdsFilePathType::Generic,
            2 => AdsFilePathType::BootProject,
            3 => AdsFilePathType::BootData,
            4 => AdsFilePathType::BootPath,
            n => AdsFilePathType::Unknown(n),
        }
    }

    /// The wire code of this value.
    pub fn as_u16(self) -> (r: u16)
        ensures
            r == ads_file_path_type_code(self),
    {
        match self {
            AdsFilePathType::Generic => 1,
            AdsFilePathType::BootProject => 2,
            AdsFilePathType::BootData => 3,
            AdsFilePathType::BootPath => 4,
            AdsFilePathType::Unknown(n) => n,
        }
    }

    /// Creates a value from its 2-byte little-endian encoding.
    pub fn from_bytes(bytes: [u8; 2]) -> (r: AdsFilePathType)
        ensures
            r == ads_file_path_type_of(le_u16(bytes[0], bytes[1])),
    {
        AdsFilePathType::from_u16(u16_from_le(bytes))
    }

    /// The 2-byte little-endian encoding of this value.
    pub fn to_bytes(self) -> (r: [u8; 2])
        ensures
            r@ == u16_bytes(ads_file_path_type_code(self)),
    {
        u16_to_le(self.as_u16())
    }


}

impl core::convert::From<u16> for AdsFilePathType {
    fn from(v: u16) -> (r: AdsFilePathType) {
        AdsFilePathType::from_u16(v)
    }
}

impl vstd::std_specs::convert::FromSpecImpl<u16> for AdsFilePathType {
    open spec fn obeys_from_spec() -> bool {
        true
    }

    open spec fn from_spec(v: u16) -> AdsFilePathType {
        ads_file_path_type_of(v)
    }
}

impl core::convert::From<AdsFilePathType> for u16 {
    fn from(v: AdsFilePathType) -> (r: u16) {
        v.as_u16()
    }
}

impl vstd::std_specs::convert::FromSpecImpl<AdsFilePathType> for u16 {
    open spec fn obeys_from_spec() -> bool {
        true
    }

    open spec fn from_spec(v: AdsFilePathType) -> u16 {
        ads_file_path_type_code(v)
    }
}

impl core::default::Default for AdsFilePathType {
    fn default() -> (r: AdsFilePathType)
        ensures
            r == AdsFilePathType::Generic,
    {
        AdsFilePathType::Generic
    }
}

/// Every wire code survives the trip through [`AdsFilePathType`].
pub proof fn lemma_ads_file_path_type_code_roundtrip(v: u16)
    ensures
        ads_file_path_type_code(ads_file_path_type_of(v)) == v,
        ads_file_path_type_canonical(ads_file_path_type_of(v)),
{
}

/// Every canonical [`AdsFilePathType`] survives the trip through its wire code.
pub proof fn lemma_ads_file_path_type_roundtrip(x: AdsFilePathType)
    requires
        ads_file_path_type_canonical(x),
    ensures
        ads_file_path_type_of(ads_file_path_type_code(x)) == x,
{
}

/// Encoding a canonical [`AdsFilePathType`] and decoding the bytes gives it back.
pub proof fn lemma_ads_file_path_type_bytes_roundtrip(x: AdsFilePathType)
    requires
        ads_file_path_type_canonical(x),
    ensures
        ads_file_path_type_of(le_u16(u16_bytes(ads_file_path_type_code(x))[0], u16_bytes(ads_file_path_type_code(x))[1])) == x,
{
    lemma_u16_roundtrip(ads_file_path_type_code(x));
}

/// The file path types of the protocol and their wire codes: the ADS file path types (generic = 1, boot project = 2, boot data = 3, boot path = 4).
pub open spec fn ads_file_path_type_protocol_table() -> Seq<(u16, AdsFilePathType)> {
    seq![
        (1u16, AdsFilePathType::Generic),
        (2u16, AdsFilePathType::BootProject),
        (3u16, AdsFilePathType::BootData),
        (4u16, AdsFilePathType::BootPath),
    ]
}

/// Every entry of the protocol table is decoded from its code and encoded as
/// its code. Together with the round trip of the codes, this fixes the
/// conversion on every code.
pub proof fn lemma_ads_file_path_type_protocol_table(i: int)
    requires
        0 <= i < ads_file_path_type_protocol_table().len(),
    ensures
        ads_file_path_type_of(ads_file_path_type_protocol_table()[i].0) == ads_file_path_type_protocol_table()[i].1,
        ads_file_path_type_code(ads_file_path_type_protocol_table()[i].1) == ads_file_path_type_protocol_table()[i].0,
{
}

} // verus!
