//! Version numbers of ADS devices.

use vstd::prelude::*;
use crate::text::{dec_text, push_dec, push_text};
use crate::bytes::{le_u16, u16_bytes, u16_from_le, u16_to_le, lemma_u16_roundtrip};
use crate::error::AdsDeviceVersionError;

verus! {

/// An ADS device's version number (major.minor.build).
#[derive(Debug, Clone, Copy, PartialEq, Eq, Structural, PartialOrd, Ord, Hash, Default)]
pub struct AdsDeviceVersion {
    pub major: u8,
    pub minor: u8,
    pub build: u16,
}

/// The version that four wire bytes encode.
pub open spec fn spec_device_version(b: Seq<u8>) -> AdsDeviceVersion {
    AdsDeviceVersion { major: b[0], minor: b[1], build: le_u16(b[2], b[3]) }
}

/// The four wire bytes of a version.
pub open spec fn spec_device_version_bytes(v: AdsDeviceVersion) -> Seq<u8> {
    seq![v.major, v.minor] + u16_bytes(v.build)
}

impl AdsDeviceVersion {
    /// Wire size in bytes.
    pub const LENGTH: usize = 4;

    /// The text form `major.minor.build` in decimal.
    pub fn to_text(&self) -> (r: String)
        ensures
            r@ == dec_text(self.major as nat) + "."@ + dec_text(self.minor as nat) + "."@ + dec_text(self.build as nat),
    {
        let mut s = String::new();
        push_dec(&mut s, self.major as u64);
        push_text(&mut s, ".");
        push_dec(&mut s, self.minor as u64);
        push_text(&mut s, ".");
        push_dec(&mut s, self.build as u64);
        s
    }

    /// Creates a version.
    pub fn new(major: u8, minor: u8, build: u16) -> (r: AdsDeviceVersion)
        ensures
            r == (AdsDeviceVersion { major, minor, build }),
    {
        AdsDeviceVersion { major, minor, build }
    }

    /// Creates a version from its 4-byte encoding.
    pub fn from_bytes(bytes: [u8; 4]) -> (r: AdsDeviceVersion)
        ensures
            r == spec_device_version(bytes@),
    {
        AdsDeviceVersion { major: bytes[0], minor: bytes[1], build: u16_from_le([bytes[2], bytes[3]]) }
    }

    /// The 4-byte encoding of this version.
    pub fn to_bytes(&self) -> (r: [u8; 4])
        ensures
            r@ == spec_device_version_bytes(*self),
    {
        let b = u16_to_le(self.build);
        let r = [self.major, self.minor, b[0], b[1]];
        assert(r@ =~= spec_device_version_bytes(*self));
        r
    }

    /// Parses a version from the first four bytes of a slice.
    pub fn try_from_slice(bytes: &[u8]) -> (r: Result<AdsDeviceVersion, AdsDeviceVersionError>)
        ensures
            bytes@.len() < 4 ==> r == Err::<AdsDeviceVersion, AdsDeviceVersionError>(
                AdsDeviceVersionError::UnexpectedLength { expected: 4, got: bytes@.len() as usize },
            ),
            bytes@.len() >= 4 ==> r == Ok::<AdsDeviceVersion, AdsDeviceVersionError>(spec_device_version(bytes@)),
    {
        if bytes.len() < 4 {
            return Err(AdsDeviceVersionError::UnexpectedLength { expected: 4, got: bytes.len() });
        }
        Ok(AdsDeviceVersion::from_bytes([bytes[0], bytes[1], bytes[2], bytes[3]]))
    }

    /// The major version number.
    pub fn major(&self) -> (r: u8)
        ensures
            r == self.major,
    {
        self.major
    }

    /// The minor version number.
    pub fn minor(&self) -> (r: u8)
        ensures
            r == self.minor,
    {
        self.minor
    }

    /// The build number.
    pub fn build(&self) -> (r: u16)
        ensures
            r == self.build,
    {
        self.build
    }
}

/// Decoding the encoding of a version gives it back.
pub proof fn lemma_device_version_roundtrip(v: AdsDeviceVersion)
    ensures
        spec_device_version(spec_device_version_bytes(v)) == v,
{
    lemma_u16_roundtrip(v.build);
}

} // verus!
