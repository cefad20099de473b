//! Status records of files on a target's file system.

use vstd::prelude::*;
use crate::bytes::{le_u32, seq_u64};
use crate::error::AdsFileStatusError;
use crate::file_attributes::AdsFileAttributes;
use crate::filetime::WindowsFileTime;

verus! {

/// A file's status as answered to a status query of the System Service.
///
/// Wire format: size (8 bytes), creation time (8), modified time (8),
/// access time (8), attributes (4), all little-endian.
#[derive(Debug, Clone, Copy, PartialEq, Eq, Structural, Hash)]
pub struct AdsFileStatus {
    size: u64,
    creation_time: WindowsFileTime,
    modified_time: WindowsFileTime,
    access_time: WindowsFileTime,
    attributes: AdsFileAttributes,
}

/// The status that 36 wire bytes encode, as (size, creation, modified,
/// access ticks, attribute bits).
pub open spec fn spec_file_status_fields(b: Seq<u8>) -> (u64, u64, u64, u64, u32) {
    (seq_u64(b, 0), seq_u64(b, 8), seq_u64(b, 16), seq_u64(b, 24), le_u32(b[32], b[33], b[34], b[35]))
}

impl AdsFileStatus {
    /// Wire size in bytes.
    pub const LENGTH: usize = 36;

    /// The fields as plain values: (size, creation, modified, access ticks,
    /// attribute bits).
    pub closed spec fn spec_fields(self) -> (u64, u64, u64, u64, u32) {
        (
            self.size,
            self.creation_time.spec_ticks(),
            self.modified_time.spec_ticks(),
            self.access_time.spec_ticks(),
            self.attributes.spec_bits(),
        )
    }

    /// The file's size in bytes.
    pub fn size(&self) -> (r: u64)
        ensures
            r == self.spec_fields().0,
    {
        self.size
    }

    /// The file's creation time.
    pub fn creation_time(&self) -> (r: WindowsFileTime)
        ensures
            r.spec_ticks() == self.spec_fields().1,
    {
        self.creation_time
    }

    /// The file's last modification time.
    pub fn modified_time(&self) -> (r: WindowsFileTime)
        ensures
            r.spec_ticks() == self.spec_fields().2,
    {
        self.modified_time
    }

    /// The file's last access time.
    pub fn access_time(&self) -> (r: WindowsFileTime)
        ensures
            r.spec_ticks() == self.spec_fields().3,
    {
        self.access_time
    }

    /// The file's attributes.
    pub fn attributes(&self) -> (r: AdsFileAttributes)
        ensures
            r.spec_bits() == self.spec_fields().4,
    {
        self.attributes
    }

    /// True when the entry is a directory.
    pub fn is_directory(&self) -> (r: bool)
        ensures
            r == (self.spec_fields().4 & 0x10 == 0x10),
    {
        self.attributes.is_directory()
    }

    /// Parses a status from a slice of exactly 36 bytes.
    pub fn try_from_slice(data: &[u8]) -> (r: Result<AdsFileStatus, AdsFileStatusError>)
        ensures
            data@.len() != 36 ==> r == Err::<AdsFileStatus, AdsFileStatusError>(
                AdsFileStatusError::UnexpectedLength { expected: 36, got: data@.len() as usize },
            ),
            data@.len() == 36 ==> (r matches Ok(s) && s.spec_fields() == spec_file_status_fields(data@)),
    {
        if data.len() != Self::LENGTH {
            return Err(AdsFileStatusError::UnexpectedLength { expected: Self::LENGTH, got: data.len() });
        }
        let size = crate::bytes::u64_from_le(
            [data[0], data[1], data[2], data[3], data[4], data[5], data[6], data[7]],
        );
        let creation_time = WindowsFileTime::from_bytes(
            [data[8], data[9], data[10], data[11], data[12], data[13], data[14], data[15]],
        );
        let modified_time = WindowsFileTime::from_bytes(
            [data[16], data[17], data[18], data[19], data[20], data[21], data[22], data[23]],
        );
        let access_time = WindowsFileTime::from_bytes(
            [data[24], data[25], data[26], data[27], data[28], data[29], data[30], data[31]],
        );
        let attributes = AdsFileAttributes::from_bytes([data[32], data[33], data[34], data[35]]);
        Ok(AdsFileStatus { size, creation_time, modified_time, access_time, attributes })
    }
}

} // verus!
