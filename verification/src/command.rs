//! Command identifiers of the ADS header.

use vstd::prelude::*;
use crate::bytes::{le_u16, u16_bytes, u16_from_le, u16_to_le, lemma_u16_roundtrip};
use crate::error::AdsCommandError;

verus! {

/// The command of an ADS request or response.
#[derive(Debug, Clone, Copy, PartialEq, Eq, Structural, PartialOrd, Ord, Hash)]
pub enum AdsCommand {
    /// Invalid command.
    AdsInvalid,
    /// Reads the name and version of a device.
    AdsReadDeviceInfo,
    /// Reads data.
    AdsRead,
    /// Writes data.
    AdsWrite,
    /// Reads the ADS and device state.
    AdsReadState,
    /// Changes the ADS and device state.
    AdsWriteControl,
    /// Creates a device notification.
    AdsAddDeviceNotification,
    /// Deletes a device notification.
    AdsDeleteDeviceNotification,
    /// Carries notification samples.
    AdsDeviceNotification,
    /// Writes data and reads the answer.
    AdsReadWrite,
    /// A command not defined in the library.
    Unknown(u16),
}

/// The wire code of a [`AdsCommand`].
pub open spec fn ads_command_code(x: AdsCommand) -> u16 {
    match x {
        AdsCommand::AdsInvalid => 0,
        AdsCommand::AdsReadDeviceInfo => 1,
        AdsCommand::AdsRead => 2,
        AdsCommand::AdsWrite => 3,
        AdsCommand::AdsReadState => 4,
        AdsCommand::AdsWriteControl => 5,
        AdsCommand::AdsAddDeviceNotification => 6,
        AdsCommand::AdsDeleteDeviceNotification => 7,
        AdsCommand::AdsDeviceNotification => 8,
        AdsCommand::AdsReadWrite => 9,
        AdsCommand::Unknown(n) => n,
    }
}

/// The [`AdsCommand`] that a wire code denotes.
pub open spec fn ads_command_of(v: u16) -> AdsCommand {
    match v {
        0 => AdsCommand::AdsInvalid,
        1 => AdsCommand::AdsReadDeviceInfo,
        2 => AdsCommand::AdsRead,
        3 => AdsCommand::AdsWrite,
        4 => AdsCommand::AdsReadState,
        5 => AdsCommand::AdsWriteControl,
        6 => AdsCommand::AdsAddDeviceNotification,
        7 => AdsCommand::AdsDeleteDeviceNotification,
        8 => AdsCommand::AdsDeviceNotification,
        9 => AdsCommand::AdsReadWrite,
        _ => AdsCommand::Unknown(v),
    }
}

/// A value is canonical when an `Unknown` payload is none of the named codes.
pub open spec fn ads_command_canonical(x: AdsCommand) -> bool {
    match x {
        AdsCommand::Unknown(n) => n != 0 && n != 1 && n != 2 && n != 3 && n != 4 && n != 5 && n != 6 && n != 7 && n != 8 && n != 9,
        _ => true,
    }
}

impl AdsCommand {
    /// Wire size in bytes.
    pub const LENGTH: usize = 2;

    /// The value that a wire code denotes.
    pub fn from_u16(v: u16) -> (r: AdsCommand)
        ensures
            r == ads_command_of(v),
    {
        match v {
            0 => AdsCommand::AdsInvalid,
            1 => AdsCommand::AdsReadDeviceInfo,
            2 => AdsCommand::AdsRead,
            3 => AdsCommand::AdsWrite,
            4 => AdsCommand::AdsReadState,
            5 => AdsCommand::AdsWriteControl,
            6 => AdsCommand::AdsAddDeviceNotification,
            7 => AdsCommand::AdsDeleteDeviceNotification,
            8 => AdsCommand::AdsDeviceNotification,
            9 => AdsCommand::AdsReadWrite,
            n => AdsCommand::Unknown(n),
        }
    }

    /// The wire code of this value.
    pub fn as_u16(self) -> (r: u16)
        ensures
            r == ads_command_code(self),
    {
        match self {
            AdsCommand::AdsInvalid => 0,
            AdsCommand::AdsReadDeviceInfo => 1,
            AdsCommand::AdsRead => 2,
            AdsCommand::AdsWrite => 3,
            AdsCommand::AdsReadState => 4,
            AdsCommand::AdsWriteControl => 5,
            AdsCommand::AdsAddDeviceNotification => 6,
            AdsCommand::AdsDeleteDeviceNotification => 7,
            AdsCommand::AdsDeviceNotification => 8,
            AdsCommand::AdsReadWrite => 9,
            AdsCommand::Unknown(n) => n,
        }
    }

    /// Creates a value from its 2-byte little-endian encoding.
    pub fn from_bytes(bytes: [u8; 2]) -> (r: AdsCommand)
        ensures
            r == ads_command_of(le_u16(bytes[0], bytes[1])),
    {
        AdsCommand::from_u16(u16_from_le(bytes))
    }

    /// The 2-byte little-endian encoding of this value.
    pub fn to_bytes(self) -> (r: [u8; 2])
        ensures
            r@ == u16_bytes(ads_command_code(self)),
    {
        u16_to_le(self.as_u16())
    }

    /// Parses a value from the first 2 bytes of a slice.
    pub fn try_from_slice(bytes: &[u8]) -> (r: Result<AdsCommand, AdsCommandError>)
        ensures
            bytes@.len() < 2 ==> r == Err::<AdsCommand, AdsCommandError>(AdsCommandError::UnexpectedLength { expected: 2, got: bytes@.len() as usize }),
            bytes@.len() >= 2 ==> r == Ok::<AdsCommand, AdsCommandError>(ads_command_of(le_u16(bytes@[0], bytes@[1]))),
    {
        if bytes.len() < 2 {
            return Err(AdsCommandError::UnexpectedLength { expected: 2, got: bytes.len() });
        }
        Ok(AdsCommand::from_bytes([bytes[0], bytes[1]]))
    }


}

impl core::convert::From<u16> for AdsCommand {
    fn from(v: u16) -> (r: AdsCommand) {
        AdsCommand::from_u16(v)
    }
}

impl vstd::std_specs::convert::FromSpecImpl<u16> for AdsCommand {
    open spec fn obeys_from_spec() -> bool {
        true
    }

    open spec fn from_spec(v: u16) -> AdsCommand {
        ads_command_of(v)
    }
}

impl core::convert::From<AdsCommand> for u16 {
    fn from(v: AdsCommand) -> (r: u16) {
        v.as_u16()
    }
}

impl vstd::std_specs::convert::FromSpecImpl<AdsCommand> for u16 {
    open spec fn obeys_from_spec() -> bool {
        true
    }

    open spec fn from_spec(v: AdsCommand) -> u16 {
        ads_command_code(v)
    }
}

/// Every wire code survives the trip through [`AdsCommand`].
pub proof fn lemma_ads_command_code_roundtrip(v: u16)
    ensures
        ads_command_code(ads_command_of(v)) == v,
        ads_command_canonical(ads_command_of(v)),
{
}

/// Every canonical [`AdsCommand`] survives the trip through its wire code.
pub proof fn lemma_ads_command_roundtrip(x: AdsCommand)
    requires
        ads_command_canonical(x),
    ensures
        ads_command_of(ads_command_code(x)) == x,
{
}

/// Encoding a canonical [`AdsCommand`] and decoding the bytes gives it back.
pub proof fn lemma_ads_command_bytes_roundtrip(x: AdsCommand)
    requires
        ads_command_canonical(x),
    ensures
        ads_command_of(le_u16(u16_bytes(ads_command_code(x))[0], u16_bytes(ads_command_code(x))[1])) == x,
{
    lemma_u16_roundtrip(ads_command_code(x));
}

/// The commands of the ADS protocol and their command ids: 0 invalid,
/// 1 Read Device Info, 2 Read, 3 Write, 4 Read State, 5 Write Control,
/// 6 Add Device Notification, 7 Delete Device Notification, 8 Device
/// Notification, 9 Read Write.
pub open spec fn ads_command_protocol_table() -> Seq<(u16, AdsCommand)> {
    seq![
        (0u16, AdsCommand::AdsInvalid),
        (1u16, AdsCommand::AdsReadDeviceInfo),
        (2u16, AdsCommand::AdsRead),
        (3u16, AdsCommand::AdsWrite),
        (4u16, AdsCommand::AdsReadState),
        (5u16, AdsCommand::AdsWriteControl),
        (6u16, AdsCommand::AdsAddDeviceNotification),
        (7u16, AdsCommand::AdsDeleteDeviceNotification),
        (8u16, AdsCommand::AdsDeviceNotification),
        (9u16, AdsCommand::AdsReadWrite),
    ]
}

/// Every command of the protocol table is decoded from its id and encoded as
/// its id: 3 reads as `AdsWrite` and 9 as `AdsReadWrite`, and so on for each
/// entry. Together with the round trip of the ids, this fixes the conversion
/// on every id.
pub proof fn lemma_ads_command_protocol_table(i: int)
    requires
        0 <= i < ads_command_protocol_table().len(),
    ensures
        ads_command_of(ads_command_protocol_table()[i].0) == ads_command_protocol_table()[i].1,
        ads_command_code(ads_command_protocol_table()[i].1) == ads_command_protocol_table()[i].0,
{
}

} // verus!
