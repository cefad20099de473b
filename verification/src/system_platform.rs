//! Platforms and operating systems reported in the system state.

use vstd::prelude::*;

verus! {

/// The CPU platform of a TwinCAT system.
#[derive(Debug, Clone, Copy, PartialEq, Eq, Structural, PartialOrd, Ord, Hash)]
pub enum AdsPlatform {
    X86,
    X64,
    ArmV7,
    ArmT2,
    /// A value not defined in the library.
    Unknown(u8),
}

/// The wire code of a [`AdsPlatform`].
pub open spec fn ads_platform_code(x: AdsPlatform) -> u8 {
    match x {
        AdsPlatform::X86 => 0,
        AdsPlatform::X64 => 1,
        AdsPlatform::ArmV7 => 2,
        AdsPlatform::ArmT2 => 3,
        AdsPlatform::Unknown(n) => n,
    }
}

/// The [`AdsPlatform`] that a wire code denotes.
pub open spec fn ads_platform_of(v: u8) -> AdsPlatform {
    match v {
        0 => AdsPlatform::X86,
        1 => AdsPlatform::X64,
        2 => AdsPlatform::ArmV7,
        3 => AdsPlatform::ArmT2,
        _ => AdsPlatform::Unknown(v),
    }
}

/// A value is canonical when an `Unknown` payload is none of the named codes.
pub open spec fn ads_platform_canonical(x: AdsPlatform) -> bool {
    match x {
        AdsPlatform::Unknown(n) => n != 0 && n != 1 && n != 2 && n != 3,
        _ => true,
    }
}

impl AdsPlatform {
    /// Wire size in bytes.
    pub const LENGTH: usize = 1;

    /// The value that a wire code denotes.
    pub fn from_u8(v: u8) -> (r: AdsPlatform)
        ensures
            r == ads_platform_of(v),
    {
        match v {
            0 => AdsPlatform::X86,
            1 => AdsPlatform::X64,
            2 => AdsPlatform::ArmV7,
            3 => AdsPlatform::ArmT2,
            n => AdsPlatform::Unknown(n),
        }
    }

    /// The wire code of this value.
    pub fn as_u8(self) -> (r: u8)
        ensures
            r == ads_platform_code(self),
    {
        match self {
            AdsPlatform::X86 => 0,
            AdsPlatform::X64 => 1,
            AdsPlatform::ArmV7 => 2,
            AdsPlatform::ArmT2 => 3,
            AdsPlatform::Unknown(n) => n,
        }
    }


}

impl core::convert::From<u8> for AdsPlatform {
    fn from(v: u8) -> (r: AdsPlatform) {
        AdsPlatform::from_u8(v)
    }
}

impl vstd::std_specs::convert::FromSpecImpl<u8> for AdsPlatform {
    open spec fn obeys_from_spec() -> bool {
        true
    }

    open spec fn from_spec(v: u8) -> AdsPlatform {
        ads_platform_of(v)
    }
}

impl core::convert::From<AdsPlatform> for u8 {
    fn from(v: AdsPlatform) -> (r: u8) {
        v.as_u8()
    }
}

impl vstd::std_specs::convert::FromSpecImpl<AdsPlatform> for u8 {
    open spec fn obeys_from_spec() -> bool {
        true
    }

    open spec fn from_spec(v: AdsPlatform) -> u8 {
        ads_platform_code(v)
    }
}

/// Every wire code survives the trip through [`AdsPlatform`].
pub proof fn lemma_ads_platform_code_roundtrip(v: u8)
    ensures
        ads_platform_code(ads_platform_of(v)) == v,
        ads_platform_canonical(ads_platform_of(v)),
{
}

/// Every canonical [`AdsPlatform`] survives the trip through its wire code.
pub proof fn lemma_ads_platform_roundtrip(x: AdsPlatform)
    requires
        ads_platform_canonical(x),
    ensures
        ads_platform_of(ads_platform_code(x)) == x,
{
}

/// The operating system of a TwinCAT system.
#[derive(Debug, Clone, Copy, PartialEq, Eq, Structural, PartialOrd, Ord, Hash)]
pub enum AdsOsType {
    Windows,
    WindowsCe,
    UserMode,
    TwinCat,
    /// A value not defined in the library.
    Unknown(u8),
}

/// The wire code of a [`AdsOsType`].
pub open spec fn ads_os_type_code(x: AdsOsType) -> u8 {
    match x {
        AdsOsType::Windows => 0,
        AdsOsType::WindowsCe => 1,
        AdsOsType::UserMode => 2,
        AdsOsType::TwinCat => 3,
        AdsOsType::Unknown(n) => n,
    }
}

/// The [`AdsOsType`] that a wire code denotes.
pub open spec fn ads_os_type_of(v: u8) -> AdsOsType {
    match v {
        0 => AdsOsType::Windows,
        1 => AdsOsType::WindowsCe,
        2 => AdsOsType::UserMode,
        3 => AdsOsType::TwinCat,
        _ => AdsOsType::Unknown(v),
    }
}

/// A value is canonical when an `Unknown` payload is none of the named codes.
pub open spec fn ads_os_type_canonical(x: AdsOsType) -> bool {
    match x {
        AdsOsType::Unknown(n) => n != 0 && n != 1 && n != 2 && n != 3,
        _ => true,
    }
}

impl AdsOsType {
    /// Wire size in bytes.
    pub const LENGTH: usize = 1;

    /// The value that a wire code denotes.
    pub fn from_u8(v: u8) -> (r: AdsOsType)
        ensures
            r == ads_os_type_of(v),
    {
        match v {
            0 => AdsOsType::Windows,
            1 => AdsOsType::WindowsCe,
            2 => AdsOsType::UserMode,
            3 => AdsOsType::TwinCat,
            n => AdsOsType::Unknown(n),
        }
    }

    /// The wire code of this value.
    pub fn as_u8(self) -> (r: u8)
        ensures
            r == ads_os_type_code(self),
    {
        match self {
            AdsOsType::Windows => 0,
            AdsOsType::WindowsCe => 1,
            AdsOsType::UserMode => 2,
            AdsOsType::TwinCat => 3,
            AdsOsType::Unknown(n) => n,
        }
    }


}

impl core::convert::From<u8> for AdsOsType {
    fn from(v: u8) -> (r: AdsOsType) {
        AdsOsType::from_u8(v)
    }
}

impl vstd::std_specs::convert::FromSpecImpl<u8> for AdsOsType {
    open spec fn obeys_from_spec() -> bool {
        true
    }

    open spec fn from_spec(v: u8) -> AdsOsType {
        ads_os_type_of(v)
    }
}

impl core::convert::From<AdsOsType> for u8 {
    fn from(v: AdsOsType) -> (r: u8) {
        v.as_u8()
    }
}

impl vstd::std_specs::convert::FromSpecImpl<AdsOsType> for u8 {
    open spec fn obeys_from_spec() -> bool {
        true
    }

    open spec fn from_spec(v: AdsOsType) -> u8 {
        ads_os_type_code(v)
    }
}

/// Every wire code survives the trip through [`AdsOsType`].
pub proof fn lemma_ads_os_type_code_roundtrip(v: u8)
    ensures
        ads_os_type_code(ads_os_type_of(v)) == v,
        ads_os_type_canonical(ads_os_type_of(v)),
{
}

/// Every canonical [`AdsOsType`] survives the trip through its wire code.
pub proof fn lemma_ads_os_type_roundtrip(x: AdsOsType)
    requires
        ads_os_type_canonical(x),
    ensures
        ads_os_type_of(ads_os_type_code(x)) == x,
{
}

/// The platforms of the protocol and their wire codes: the TwinCAT platforms (x86 = 0, x64 = 1, ARMv7 = 2, ARMT2 = 3).
pub open spec fn ads_platform_protocol_table() -> Seq<(u8, AdsPlatform)> {
    seq![
        (0u8, AdsPlatform::X86),
        (1u8, AdsPlatform::X64),
        (2u8, AdsPlatform::ArmV7),
        (3u8, AdsPlatform::ArmT2),
    ]
}

/// Every entry of the protocol table is decoded from its code and encoded as
/// its code. Together with the round trip of the codes, this fixes the
/// conversion on every code.
pub proof fn lemma_ads_platform_protocol_table(i: int)
    requires
        0 <= i < ads_platform_protocol_table().len(),
    ensures
        ads_platform_of(ads_platform_protocol_table()[i].0) == ads_platform_protocol_table()[i].1,
        ads_platform_code(ads_platform_protocol_table()[i].1) == ads_platform_protocol_table()[i].0,
{
}

/// The operating system types of the protocol and their wire codes: the TwinCAT operating system categories (Windows = 0, Windows CE = 1, user mode = 2, TwinCAT = 3).
pub open spec fn ads_os_type_protocol_table() -> Seq<(u8, AdsOsType)> {
    seq![
        (0u8, AdsOsType::Windows),
        (1u8, AdsOsType::WindowsCe),
        (2u8, AdsOsType::UserMode),
        (3u8, AdsOsType::TwinCat),
    ]
}

/// Every entry of the protocol table is decoded from its code and encoded as
/// its code. Together with the round trip of the codes, this fixes the
/// conversion on every code.
pub proof fn lemma_ads_os_type_protocol_table(i: int)
    requires
        0 <= i < ads_os_type_protocol_table().len(),
    ensures
        ads_os_type_of(ads_os_type_protocol_table()[i].0) == ads_os_type_protocol_table()[i].1,
        ads_os_type_code(ads_os_type_protocol_table()[i].1) == ads_os_type_protocol_table()[i].0,
{
}

} // verus!
