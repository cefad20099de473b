//! The ADS state of a device (Run, Stop, Config, ...).

use vstd::prelude::*;
use crate::bytes::{le_u16, u16_bytes, u16_from_le, u16_to_le, lemma_u16_roundtrip};
use crate::error::AdsStateError;

verus! {

/// Device status word reported next to the ADS state.
pub type DeviceState = u16;

/// The ADS state of a device.
///
/// Describes the current operating state (e.g. Run, Stop, Config).
#[derive(Debug, Clone, Copy, PartialEq, Eq, Structural, PartialOrd, Ord, Hash)]
pub enum AdsState {
    Invalid,
    Idle,
    Reset,
    Init,
    Start,
    Run,
    Stop,
    SaveCfg,
    LoadCfg,
    PowerFailure,
    PowerGood,
    Error,
    Shutdown,
    Suspend,
    Resume,
    Config,
    Reconfig,
    Stopping,
    /// System is incompatible.
    Incompatible,
    /// System exception.
    Exception,
    /// A state not defined in the library.
    Unknown(u16),
}

/// The wire code of a [`AdsState`].
pub open spec fn ads_state_code(x: AdsState) -> u16 {
    match x {
        AdsState::Invalid => 0,
        AdsState::Idle => 1,
        AdsState::Reset => 2,
        AdsState::Init => 3,
        AdsState::Start => 4,
        AdsState::Run => 5,
        AdsState::Stop => 6,
        AdsState::SaveCfg => 7,
        AdsState::LoadCfg => 8,
        AdsState::PowerFailure => 9,
        AdsState::PowerGood => 10,
        AdsState::Error => 11,
        AdsState::Shutdown => 12,
        AdsState::Suspend => 13,
        AdsState::Resume => 14,
        AdsState::Config => 15,
        AdsState::Reconfig => 16,
        AdsState::Stopping => 17,
        AdsState::Incompatible => 18,
        AdsState::Exception => 19,
        AdsState::Unknown(n) => n,
    }
}

/// The [`AdsState`] that a wire code denotes.
pub open spec fn ads_state_of(v: u16) -> AdsState {
    match v {
        0 => AdsState::Invalid,
        1 => AdsState::Idle,
        2 => AdsState::Reset,
        3 => AdsState::Init,
        4 => AdsState::Start,
        5 => AdsState::Run,
        6 => AdsState::Stop,
        7 => AdsState::SaveCfg,
        8 => AdsState::LoadCfg,
        9 => AdsState::PowerFailure,
        10 => AdsState::PowerGood,
        11 => AdsState::Error,
        12 => AdsState::Shutdown,
        13 => AdsState::Suspend,
        14 => AdsState::Resume,
        15 => AdsState::Config,
        16 => AdsState::Reconfig,
        17 => AdsState::Stopping,
        18 => AdsState::Incompatible,
        19 => AdsState::Exception,
        _ => AdsState::Unknown(v),
    }
}

/// A value is canonical when an `Unknown` payload is none of the named codes.
pub open spec fn ads_state_canonical(x: AdsState) -> bool {
    match x {
        AdsState::Unknown(n) => n != 0 && n != 1 && n != 2 && n != 3 && n != 4 && n != 5 && n != 6 && n != 7 && n != 8 && n != 9 && n != 10 && n != 11 && n != 12 && n != 13 && n != 14 && n != 15 && n != 16 && n != 17 && n != 18 && n != 19,
        _ => true,
    }
}

impl AdsState {
    /// Wire size in bytes.
    pub const LENGTH: usize = 2;

    /// The value that a wire code denotes.
    pub fn from_u16(v: u16) -> (r: AdsState)
        ensures
            r == ads_state_of(v),
    {
        match v {
            0 => AdsState::Invalid,
            1 => AdsState::Idle,
            2 => AdsState::Reset,
            3 => AdsState::Init,
            4 => AdsState::Start,
            5 => AdsState::Run,
            6 => AdsState::Stop,
            7 => AdsState::SaveCfg,
            8 => AdsState::LoadCfg,
            9 => AdsState::PowerFailure,
            10 => AdsState::PowerGood,
            11 => AdsState::Error,
            12 => AdsState::Shutdown,
            13 => AdsState::Suspend,
            14 => AdsState::Resume,
            15 => AdsState::Config,
            16 => AdsState::Reconfig,
            17 => AdsState::Stopping,
            18 => AdsState::Incompatible,
            19 => AdsState::Exception,
            n => AdsState::Unknown(n),
        }
    }

    /// The wire code of this value.
    pub fn as_u16(self) -> (r: u16)
        ensures
            r == ads_state_code(self),
    {
        match self {
            AdsState::Invalid => 0,
            AdsState::Idle => 1,
            AdsState::Reset => 2,
            AdsState::Init => 3,
            AdsState::Start => 4,
            AdsState::Run => 5,
            AdsState::Stop => 6,
            AdsState::SaveCfg => 7,
            AdsState::LoadCfg => 8,
            AdsState::PowerFailure => 9,
            AdsState::PowerGood => 10,
            AdsState::Error => 11,
            AdsState::Shutdown => 12,
            AdsState::Suspend => 13,
            AdsState::Resume => 14,
            AdsState::Config => 15,
            AdsState::Reconfig => 16,
            AdsState::Stopping => 17,
            AdsState::Incompatible => 18,
            AdsState::Exception => 19,
            AdsState::Unknown(n) => n,
        }
    }

    /// Creates a value from its 2-byte little-endian encoding.
    pub fn from_bytes(bytes: [u8; 2]) -> (r: AdsState)
        ensures
            r == ads_state_of(le_u16(bytes[0], bytes[1])),
    {
        AdsState::from_u16(u16_from_le(bytes))
    }

    /// The 2-byte little-endian encoding of this value.
    pub fn to_bytes(self) -> (r: [u8; 2])
        ensures
            r@ == u16_bytes(ads_state_code(self)),
    {
        u16_to_le(self.as_u16())
    }

    /// Parses a value from the first 2 bytes of a slice.
    pub fn try_from_slice(bytes: &[u8]) -> (r: Result<AdsState, AdsStateError>)
        ensures
            bytes@.len() < 2 ==> r == Err::<AdsState, AdsStateError>(AdsStateError::UnexpectedLength { expected: 2, got: bytes@.len() as usize }),
            bytes@.len() >= 2 ==> r == Ok::<AdsState, AdsStateError>(ads_state_of(le_u16(bytes@[0], bytes@[1]))),
    {
        if bytes.len() < 2 {
            return Err(AdsStateError::UnexpectedLength { expected: 2, got: bytes.len() });
        }
        Ok(AdsState::from_bytes([bytes[0], bytes[1]]))
    }


}

impl core::convert::From<u16> for AdsState {
    fn from(v: u16) -> (r: AdsState) {
        AdsState::from_u16(v)
    }
}

impl vstd::std_specs::convert::FromSpecImpl<u16> for AdsState {
    open spec fn obeys_from_spec() -> bool {
        true
    }

    open spec fn from_spec(v: u16) -> AdsState {
        ads_state_of(v)
    }
}

impl core::convert::From<AdsState> for u16 {
    fn from(v: AdsState) -> (r: u16) {
        v.as_u16()
    }
}

impl vstd::std_specs::convert::FromSpecImpl<AdsState> for u16 {
    open spec fn obeys_from_spec() -> bool {
        true
    }

    open spec fn from_spec(v: AdsState) -> u16 {
        ads_state_code(v)
    }
}

/// Every wire code survives the trip through [`AdsState`].
pub proof fn lemma_ads_state_code_roundtrip(v: u16)
    ensures
        ads_state_code(ads_state_of(v)) == v,
        ads_state_canonical(ads_state_of(v)),
{
}

/// Every canonical [`AdsState`] survives the trip through its wire code.
pub proof fn lemma_ads_state_roundtrip(x: AdsState)
    requires
        ads_state_canonical(x),
    ensures
        ads_state_of(ads_state_code(x)) == x,
{
}

/// Encoding a canonical [`AdsState`] and decoding the bytes gives it back.
pub proof fn lemma_ads_state_bytes_roundtrip(x: AdsState)
    requires
        ads_state_canonical(x),
    ensures
        ads_state_of(le_u16(u16_bytes(ads_state_code(x))[0], u16_bytes(ads_state_code(x))[1])) == x,
{
    lemma_u16_roundtrip(ads_state_code(x));
}

/// The ADS states of the protocol and their wire codes, as the ADS
/// specification numbers them (`ADSSTATE_INVALID` = 0 ... `ADSSTATE_EXCEPTION` = 19).
pub open spec fn ads_state_protocol_table() -> Seq<(u16, AdsState)> {
    seq![
        (0u16, AdsState::Invalid),
        (1u16, AdsState::Idle),
        (2u16, AdsState::Reset),
        (3u16, AdsState::Init),
        (4u16, AdsState::Start),
        (5u16, AdsState::Run),
        (6u16, AdsState::Stop),
        (7u16, AdsState::SaveCfg),
        (8u16, AdsState::LoadCfg),
        (9u16, AdsState::PowerFailure),
        (10u16, AdsState::PowerGood),
        (11u16, AdsState::Error),
        (12u16, AdsState::Shutdown),
        (13u16, AdsState::Suspend),
        (14u16, AdsState::Resume),
        (15u16, AdsState::Config),
        (16u16, AdsState::Reconfig),
        (17u16, AdsState::Stopping),
        (18u16, AdsState::Incompatible),
        (19u16, AdsState::Exception),
    ]
}

/// Every state of the protocol table is decoded from its code and encoded as
/// its code: a stopped PLC's 6 reads as `Stop`, 15 as `Config`, and so on for
/// each entry. Together with the round trip of the codes, this fixes the
/// conversion on every code.
pub proof fn lemma_ads_state_protocol_table(i: int)
    requires
        0 <= i < ads_state_protocol_table().len(),
    ensures
        ads_state_of(ads_state_protocol_table()[i].0) == ads_state_protocol_table()[i].1,
        ads_state_code(ads_state_protocol_table()[i].1) == ads_state_protocol_table()[i].0,
{
}

} // verus!
