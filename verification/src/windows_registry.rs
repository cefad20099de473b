//! Value types of the Windows registry.

use vstd::prelude::*;
use crate::bytes::{le_u32, slice_to_array4, u32_bytes, u32_from_le, u32_to_le, lemma_u32_roundtrip};
use std::array::TryFromSliceError;

verus! {

/// The type of a Windows registry value.
#[derive(Debug, Clone, Copy, PartialEq, Eq, Structural, PartialOrd, Ord, Hash)]
pub enum WinRegistryValueType {
    NoType,
    String,
    ExpandString,
    Binary,
    DWord,
    DWordBigEndian,
    Link,
    MultiString,
    ResourceList,
    FullResourceDescriptor,
    ResourceRequirementsList,
    QWord,
    /// A value not defined in the library.
    Other(u32),
}

/// The wire code of a [`WinRegistryValueType`].
pub open spec fn win_registry_value_type_code(x: WinRegistryValueType) -> u32 {
    match x {
        WinRegistryValueType::NoType => 0,
        WinRegistryValueType::String => 1,
        WinRegistryValueType::ExpandString => 2,
        WinRegistryValueType::Binary => 3,
        WinRegistryValueType::DWord => 4,
        WinRegistryValueType::DWordBigEndian => 5,
        WinRegistryValueType::Link => 6,
        WinRegistryValueType::MultiString => 7,
        WinRegistryValueType::ResourceList => 8,
        WinRegistryValueType::FullResourceDescriptor => 9,
        WinRegistryValueType::ResourceRequirementsList => 10,
        WinRegistryValueType::QWord => 11,
        WinRegistryValueType::Other(n) => n,
    }
}

/// The [`WinRegistryValueType`] that a wire code denotes.
pub open spec fn win_registry_value_type_of(v: u32) -> WinRegistryValueType {
    match v {
        0 => WinRegistryValueType::NoType,
        1 => WinRegistryValueType::String,
        2 => WinRegistryValueType::ExpandString,
        3 => WinRegistryValueType::Binary,
        4 => WinRegistryValueType::DWord,
        5 => WinRegistryValueType::DWordBigEndian,
        6 => WinRegistryValueType::Link,
        7 => WinRegistryValueType::MultiString,
        8 => WinRegistryValueType::ResourceList,
        9 => WinRegistryValueType::FullResourceDescriptor,
        10 => WinRegistryValueType::ResourceRequirementsList,
        11 => WinRegistryValueType::QWord,
        _ => WinRegistryValueType::Other(v),
    }
}

/// A value is canonical when an `Other` payload is none of the named codes.
pub open spec fn win_registry_value_type_canonical(x: WinRegistryValueType) -> bool {
    match x {
        WinRegistryValueType::Other(n) => n != 0 && n != 1 && n != 2 && n != 3 && n != 4 && n != 5 && n != 6 && n != 7 && n != 8 && n != 9 && n != 10 && n != 11,
        _ => true,
    }
}

impl WinRegistryValueType {
    /// Wire size in bytes.
    pub const LENGTH: usize = 4;

    /// The value that a wire code denotes.
    pub fn from_u32(v: u32) -> (r: WinRegistryValueType)
        ensures
            r == win_registry_value_type_of(v),
    {
        match v {
            0 => WinRegistryValueType::NoType,
            1 => WinRegistryValueType::String,
            2 => WinRegistryValueType::ExpandString,
            3 => WinRegistryValueType::Binary,
            4 => WinRegistryValueType::DWord,
            5 => WinRegistryValueType::DWordBigEndian,
            6 => WinRegistryValueType::Link,
            7 => WinRegistryValueType::MultiString,
            8 => WinRegistryValueType::ResourceList,
            9 => WinRegistryValueType::FullResourceDescriptor,
            10 => WinRegistryValueType::ResourceRequirementsList,
            11 => WinRegistryValueType::QWord,
            n => WinRegistryValueType::Other(n),
        }
    }

    /// The wire code of this value.
    pub fn as_u32(self) -> (r: u32)
        ensures
            r == win_registry_value_type_code(self),
    {
        match self {
            WinRegistryValueType::NoType => 0,
            WinRegistryValueType::String => 1,
            WinRegistryValueType::ExpandString => 2,
            WinRegistryValueType::Binary => 3,
            WinRegistryValueType::DWord => 4,
            WinRegistryValueType::DWordBigEndian => 5,
            WinRegistryValueType::Link => 6,
            WinRegistryValueType::MultiString => 7,
            WinRegistryValueType::ResourceList => 8,
            WinRegistryValueType::FullResourceDescriptor => 9,
            WinRegistryValueType::ResourceRequirementsList => 10,
            WinRegistryValueType::QWord => 11,
            WinRegistryValueType::Other(n) => n,
        }
    }

    /// Creates a value from its 4-byte little-endian encoding.
    pub fn from_bytes(bytes: [u8; 4]) -> (r: WinRegistryValueType)
        ensures
            r == win_registry_value_type_of(le_u32(bytes[0], bytes[1], bytes[2], bytes[3])),
    {
        WinRegistryValueType::from_u32(u32_from_le(bytes))
    }

    /// The 4-byte little-endian encoding of this value.
    pub fn to_bytes(self) -> (r: [u8; 4])
        ensures
            r@ == u32_bytes(win_registry_value_type_code(self)),
    {
        u32_to_le(self.as_u32())
    }

    /// Parses a value from a slice of exactly four bytes.
    pub fn try_from_slice(bytes: &[u8]) -> (r: Result<WinRegistryValueType, TryFromSliceError>)
        ensures
            r is Ok <==> bytes@.len() == 4,
            r matches Ok(v) ==> v == win_registry_value_type_of(le_u32(bytes@[0], bytes@[1], bytes@[2], bytes@[3])),
    {
        match slice_to_array4(bytes) {
            Ok(a) => Ok(WinRegistryValueType::from_bytes(a)),
            Err(e) => Err(e),
        }
    }
}

impl core::convert::From<u32> for WinRegistryValueType {
    fn from(v: u32) -> (r: WinRegistryValueType) {
        WinRegistryValueType::from_u32(v)
    }
}

impl vstd::std_specs::convert::FromSpecImpl<u32> for WinRegistryValueType {
    open spec fn obeys_from_spec() -> bool {
        true
    }

    open spec fn from_spec(v: u32) -> WinRegistryValueType {
        win_registry_value_type_of(v)
    }
}

impl core::convert::From<WinRegistryValueType> for u32 {
    fn from(v: WinRegistryValueType) -> (r: u32) {
        v.as_u32()
    }
}

impl vstd::std_specs::convert::FromSpecImpl<WinRegistryValueType> for u32 {
    open spec fn obeys_from_spec() -> bool {
        true
    }

    open spec fn from_spec(v: WinRegistryValueType) -> u32 {
        win_registry_value_type_code(v)
    }
}

/// Every wire code survives the trip through [`WinRegistryValueType`].
pub proof fn lemma_win_registry_value_type_code_roundtrip(v: u32)
    ensures
        win_registry_value_type_code(win_registry_value_type_of(v)) == v,
        win_registry_value_type_canonical(win_registry_value_type_of(v)),
{
}

/// Every canonical [`WinRegistryValueType`] survives the trip through its wire code.
pub proof fn lemma_win_registry_value_type_roundtrip(x: WinRegistryValueType)
    requires
        win_registry_value_type_canonical(x),
    ensures
        win_registry_value_type_of(win_registry_value_type_code(x)) == x,
{
}

/// Encoding a canonical [`WinRegistryValueType`] and decoding the bytes gives it back.
pub proof fn lemma_win_registry_value_type_bytes_roundtrip(x: WinRegistryValueType)
    requires
        win_registry_value_type_canonical(x),
    ensures
        win_registry_value_type_of(le_u32(u32_bytes(win_registry_value_type_code(x))[0], u32_bytes(win_registry_value_type_code(x))[1], u32_bytes(win_registry_value_type_code(x))[2], u32_bytes(win_registry_value_type_code(x))[3])) == x,
{
    lemma_u32_roundtrip(win_registry_value_type_code(x));
}

/// The registry value types of the protocol and their wire codes: the Windows registry value types (`REG_NONE` = 0 ... `REG_QWORD` = 11).
pub open spec fn win_registry_value_type_protocol_table() -> Seq<(u32, WinRegistryValueType)> {
    seq![
        (0u32, WinRegistryValueType::NoType),
        (1u32, WinRegistryValueType::String),
        (2u32, WinRegistryValueType::ExpandString),
        (3u32, WinRegistryValueType::Binary),
        (4u32, WinRegistryValueType::DWord),
        (5u32, WinRegistryValueType::DWordBigEndian),
        (6u32, WinRegistryValueType::Link),
        (7u32, WinRegistryValueType::MultiString),
        (8u32, WinRegistryValueType::ResourceList),
        (9u32, WinRegistryValueType::FullResourceDescriptor),
        (10u32, WinRegistryValueType::ResourceRequirementsList),
        (11u32, WinRegistryValueType::QWord),
    ]
}

/// Every entry of the protocol table is decoded from its code and encoded as
/// its code. Together with the round trip of the codes, this fixes the
/// conversion on every code.
pub proof fn lemma_win_registry_value_type_protocol_table(i: int)
    requires
        0 <= i < win_registry_value_type_protocol_table().len(),
    ensures
        win_registry_value_type_of(win_registry_value_type_protocol_table()[i].0) == win_registry_value_type_protocol_table()[i].1,
        win_registry_value_type_code(win_registry_value_type_protocol_table()[i].1) == win_registry_value_type_protocol_table()[i].0,
{
}

} // verus!
