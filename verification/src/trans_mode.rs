//! Transmission modes of device notifications.

use vstd::prelude::*;
use crate::bytes::{le_u32, u32_bytes, u32_from_le, u32_to_le, lemma_u32_roundtrip};
use crate::error::AdsTransModeError;

verus! {

/// Transmission mode of an ADS device notification.
#[derive(Debug, Clone, Copy, PartialEq, Eq, Structural, PartialOrd, Ord, Hash)]
pub enum AdsTransMode {
    /// No notification.
    NoTrans,
    /// Client-side cyclic polling.
    ClientCycle,
    /// Client-side on-change polling.
    ClientOnChange,
    /// Server sends the value cyclically.
    ServerCycle,
    /// Server sends the value when it changes.
    ServerOnChange,
    /// A value not defined in the library.
    Unknown(u32),
}

/// The wire code of a [`AdsTransMode`].
pub open spec fn ads_trans_mode_code(x: AdsTransMode) -> u32 {
    match x {
        AdsTransMode::NoTrans => 0,
        AdsTransMode::ClientCycle => 1,
        AdsTransMode::ClientOnChange => 2,
        AdsTransMode::ServerCycle => 3,
        AdsTransMode::ServerOnChange => 4,
        AdsTransMode::Unknown(n) => n,
    }
}

/// The [`AdsTransMode`] that a wire code denotes.
pub open spec fn ads_trans_mode_of(v: u32) -> AdsTransMode {
    match v {
        0 => AdsTransMode::NoTrans,
        1 => AdsTransMode::ClientCycle,
        2 => AdsTransMode::ClientOnChange,
        3 => AdsTransMode::ServerCycle,
        4 => AdsTransMode::ServerOnChange,
        _ => AdsTransMode::Unknown(v),
    }
}

/// A value is canonical when an `Unknown` payload is none of the named codes.
pub open spec fn ads_trans_mode_canonical(x: AdsTransMode) -> bool {
    match x {
        AdsTransMode::Unknown(n) => n != 0 && n != 1 && n != 2 && n != 3 && n != 4,
        _ => true,
    }
}

impl AdsTransMode {
    /// Wire size in bytes.
    pub const LENGTH: usize = 4;

    /// The value that a wire code denotes.
    pub fn from_u32(v: u32) -> (r: AdsTransMode)
        ensures
            r == ads_trans_mode_of(v),
    {
        match v {
            0 => AdsTransMode::NoTrans,
            1 => AdsTransMode::ClientCycle,
            2 => AdsTransMode::ClientOnChange,
            3 => AdsTransMode::ServerCycle,
            4 => AdsTransMode::ServerOnChange,
            n => AdsTransMode::Unknown(n),
        }
    }

    /// The wire code of this value.
    pub fn as_u32(self) -> (r: u32)
        ensures
            r == ads_trans_mode_code(self),
    {
        match self {
            AdsTransMode::NoTrans => 0,
            AdsTransMode::ClientCycle => 1,
            AdsTransMode::ClientOnChange => 2,
            AdsTransMode::ServerCycle => 3,
            AdsTransMode::ServerOnChange => 4,
            AdsTransMode::Unknown(n) => n,
        }
    }

    /// Creates a value from its 4-byte little-endian encoding.
    pub fn from_bytes(bytes: [u8; 4]) -> (r: AdsTransMode)
        ensures
            r == ads_trans_mode_of(le_u32(bytes[0], bytes[1], bytes[2], bytes[3])),
    {
        AdsTransMode::from_u32(u32_from_le(bytes))
    }

    /// The 4-byte little-endian encoding of this value.
    pub fn to_bytes(self) -> (r: [u8; 4])
        ensures
            r@ == u32_bytes(ads_trans_mode_code(self)),
    {
        u32_to_le(self.as_u32())
    }

    /// Parses a value from the first 4 bytes of a slice.
    pub fn try_from_slice(bytes: &[u8]) -> (r: Result<AdsTransMode, AdsTransModeError>)
        ensures
            bytes@.len() < 4 ==> r == Err::<AdsTransMode, AdsTransModeError>(AdsTransModeError::UnexpectedLength { expected: 4, got: bytes@.len() as usize }),
            bytes@.len() >= 4 ==> r == Ok::<AdsTransMode, AdsTransModeError>(ads_trans_mode_of(le_u32(bytes@[0], bytes@[1], bytes@[2], bytes@[3]))),
    {
        if bytes.len() < 4 {
            return Err(AdsTransModeError::UnexpectedLength { expected: 4, got: bytes.len() });
        }
        Ok(AdsTransMode::from_bytes([bytes[0], bytes[1], bytes[2], bytes[3]]))
    }


}

impl core::convert::From<u32> for AdsTransMode {
    fn from(v: u32) -> (r: AdsTransMode) {
        AdsTransMode::from_u32(v)
    }
}

impl vstd::std_specs::convert::FromSpecImpl<u32> for AdsTransMode {
    open spec fn obeys_from_spec() -> bool {
        true
    }

    open spec fn from_spec(v: u32) -> AdsTransMode {
        ads_trans_mode_of(v)
    }
}

impl core::convert::From<AdsTransMode> for u32 {
    fn from(v: AdsTransMode) -> (r: u32) {
        v.as_u32()
    }
}

impl vstd::std_specs::convert::FromSpecImpl<AdsTransMode> for u32 {
    open spec fn obeys_from_spec() -> bool {
        true
    }

    open spec fn from_spec(v: AdsTransMode) -> u32 {
        ads_trans_mode_code(v)
    }
}

/// Every wire code survives the trip through [`AdsTransMode`].
pub proof fn lemma_ads_trans_mode_code_roundtrip(v: u32)
    ensures
        ads_trans_mode_code(ads_trans_mode_of(v)) == v,
        ads_trans_mode_canonical(ads_trans_mode_of(v)),
{
}

/// Every canonical [`AdsTransMode`] survives the trip through its wire code.
pub proof fn lemma_ads_trans_mode_roundtrip(x: AdsTransMode)
    requires
        ads_trans_mode_canonical(x),
    ensures
        ads_trans_mode_of(ads_trans_mode_code(x)) == x,
{
}

/// Encoding a canonical [`AdsTransMode`] and decoding the bytes gives it back.
pub proof fn lemma_ads_trans_mode_bytes_roundtrip(x: AdsTransMode)
    requires
        ads_trans_mode_canonical(x),
    ensures
        ads_trans_mode_of(le_u32(u32_bytes(ads_trans_mode_code(x))[0], u32_bytes(ads_trans_mode_code(x))[1], u32_bytes(ads_trans_mode_code(x))[2], u32_bytes(ads_trans_mode_code(x))[3])) == x,
{
    lemma_u32_roundtrip(ads_trans_mode_code(x));
}

/// The transmission modes of the protocol and their wire codes: the ADS notification transmission modes (none = 0, client cycle = 1, client on change = 2, server cycle = 3, server on change = 4).
pub open spec fn ads_trans_mode_protocol_table() -> Seq<(u32, AdsTransMode)> {
    seq![
        (0u32, AdsTransMode::NoTrans),
        (1u32, AdsTransMode::ClientCycle),
        (2u32, AdsTransMode::ClientOnChange),
        (3u32, AdsTransMode::ServerCycle),
        (4u32, AdsTransMode::ServerOnChange),
    ]
}

/// Every entry of the protocol table is decoded from its code and encoded as
/// its code. Together with the round trip of the codes, this fixes the
/// conversion on every code.
pub proof fn lemma_ads_trans_mode_protocol_table(i: int)
    requires
        0 <= i < ads_trans_mode_protocol_table().len(),
    ensures
        ads_trans_mode_of(ads_trans_mode_protocol_table()[i].0) == ads_trans_mode_protocol_table()[i].1,
        ads_trans_mode_code(ads_trans_mode_protocol_table()[i].1) == ads_trans_mode_protocol_table()[i].0,
{
}

} // verus!
