//! The overall runtime status answered by the System Service.

use vstd::prelude::*;
use crate::bytes::{le_u16, u16_from_le};
use crate::device_state::{ads_state_of, AdsState, DeviceState};
use crate::device_version::{spec_device_version, AdsDeviceVersion};
use crate::error::AdsSystemStateError;
use crate::system_platform::{ads_os_type_of, ads_platform_of, AdsOsType, AdsPlatform};
use crate::system_state_flags::AdsSystemStateFlags;

verus! {

/// Overall runtime status of a target.
///
/// Wire format (16 bytes, little-endian): ADS state (2), device state (2),
/// restart index (2), version (4), platform (1), OS type (1), flags (2),
/// reserved (2).
#[derive(Debug, Clone, Copy, PartialEq, Eq, Structural, Hash)]
pub struct AdsSystemState {
    ads_state: AdsState,
    device_state: DeviceState,
    restart_index: u16,
    version: AdsDeviceVersion,
    platform: AdsPlatform,
    os_type: AdsOsType,
    flags: AdsSystemStateFlags,
    reserved: u16,
}

/// The plain-value view of a system state: (ADS state, device state, restart
/// index, version, platform, OS type, flag bits, reserved).
pub type SystemStateFields = (AdsState, u16, u16, AdsDeviceVersion, AdsPlatform, AdsOsType, u16, u16);

/// The system state that the first 16 wire bytes encode.
pub open spec fn spec_system_state_fields(b: Seq<u8>) -> SystemStateFields {
    (
        ads_state_of(le_u16(b[0], b[1])),
        le_u16(b[2], b[3]),
        le_u16(b[4], b[5]),
        spec_device_version(b.subrange(6, 10)),
        ads_platform_of(b[10]),
        ads_os_type_of(b[11]),
        le_u16(b[12], b[13]),
        le_u16(b[14], b[15]),
    )
}

impl AdsSystemState {
    /// Wire size in bytes.
    pub const LENGTH: usize = 16;

    /// The fields as plain values.
    pub closed spec fn spec_fields(self) -> SystemStateFields {
        (
            self.ads_state,
            self.device_state,
            self.restart_index,
            self.version,
            self.platform,
            self.os_type,
            self.flags.spec_bits(),
            self.reserved,
        )
    }

    /// The ADS state (Run, Stop, Config, ...).
    pub fn ads_state(&self) -> (r: AdsState)
        ensures
            r == self.spec_fields().0,
    {
        self.ads_state
    }

    /// The device-specific state.
    pub fn device_state(&self) -> (r: DeviceState)
        ensures
            r == self.spec_fields().1,
    {
        self.device_state
    }

    /// The number of times the runtime has restarted.
    pub fn restart_index(&self) -> (r: u16)
        ensures
            r == self.spec_fields().2,
    {
        self.restart_index
    }

    /// The target system's version.
    pub fn version(&self) -> (r: AdsDeviceVersion)
        ensures
            r == self.spec_fields().3,
    {
        self.version
    }

    /// The CPU platform.
    pub fn platform(&self) -> (r: AdsPlatform)
        ensures
            r == self.spec_fields().4,
    {
        self.platform
    }

    /// The operating system category.
    pub fn os_type(&self) -> (r: AdsOsType)
        ensures
            r == self.spec_fields().5,
    {
        self.os_type
    }

    /// The System Service flags.
    pub fn flags(&self) -> (r: AdsSystemStateFlags)
        ensures
            r.spec_bits() == self.spec_fields().6,
    {
        self.flags
    }

    /// The raw reserved field.
    pub fn reserved(&self) -> (r: u16)
        ensures
            r == self.spec_fields().7,
    {
        self.reserved
    }

    /// Parses a system state from the first 16 bytes of a slice.
    pub fn try_from_slice(data: &[u8]) -> (r: Result<AdsSystemState, AdsSystemStateError>)
        ensures
            data@.len() < 16 ==> r == Err::<AdsSystemState, AdsSystemStateError>(
                AdsSystemStateError::TooShort { expected: 16, got: data@.len() as usize },
            ),
            data@.len() >= 16 ==> (r matches Ok(s) && s.spec_fields() == spec_system_state_fields(data@)),
    {
        if data.len() < Self::LENGTH {
            return Err(AdsSystemStateError::TooShort { expected: Self::LENGTH, got: data.len() });
        }
        let version = AdsDeviceVersion::from_bytes([data[6], data[7], data[8], data[9]]);
        assert(version == spec_device_version(data@.subrange(6, 10)));
        Ok(AdsSystemState {
            ads_state: AdsState::from_bytes([data[0], data[1]]),
            device_state: u16_from_le([data[2], data[3]]),
            restart_index: u16_from_le([data[4], data[5]]),
            version,
            platform: AdsPlatform::from_u8(data[10]),
            os_type: AdsOsType::from_u8(data[11]),
            flags: AdsSystemStateFlags::from_bytes([data[12], data[13]]),
            reserved: u16_from_le([data[14], data[15]]),
        })
    }
}

} // verus!
