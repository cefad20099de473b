//! Product (TwinCAT) version numbers reported by the System Service.

use vstd::prelude::*;
use crate::text::{dec_text, push_dec, push_text};
use crate::bytes::{le_u16, u16_from_le};
use crate::error::AdsProductVersionError;

verus! {

/// A four-part product version `v1.v2.v3.v4`.
#[derive(Debug, Clone, Copy, PartialEq, Eq, Structural, PartialOrd, Ord, Hash)]
pub struct AdsProductVersion {
    pub v1: u16,
    pub v2: u16,
    pub v3: u16,
    pub v4: u16,
}

/// The version that the first eight wire bytes encode; the wire order is `v2, v1, v4, v3`.
pub open spec fn spec_product_version(b: Seq<u8>) -> AdsProductVersion {
    AdsProductVersion {
        v1: le_u16(b[2], b[3]),
        v2: le_u16(b[0], b[1]),
        v3: le_u16(b[6], b[7]),
        v4: le_u16(b[4], b[5]),
    }
}

impl AdsProductVersion {
    /// Minimum wire size in bytes.
    pub const MIN_LENGTH: usize = 8;

    /// The text form `v1.v2.v3.v4` in decimal.
    pub fn to_text(&self) -> (r: String)
        ensures
            r@ == dec_text(self.v1 as nat) + "."@ + dec_text(self.v2 as nat) + "."@ + dec_text(self.v3 as nat) + "."@
                + dec_text(self.v4 as nat),
    {
        let mut s = String::new();
        push_dec(&mut s, self.v1 as u64);
        push_text(&mut s, ".");
        push_dec(&mut s, self.v2 as u64);
        push_text(&mut s, ".");
        push_dec(&mut s, self.v3 as u64);
        push_text(&mut s, ".");
        push_dec(&mut s, self.v4 as u64);
        s
    }

    /// Creates a version.
    pub fn new(v1: u16, v2: u16, v3: u16, v4: u16) -> (r: AdsProductVersion)
        ensures
            r == (AdsProductVersion { v1, v2, v3, v4 }),
    {
        AdsProductVersion { v1, v2, v3, v4 }
    }

    /// The first part.
    pub fn v1(&self) -> (r: u16)
        ensures
            r == self.v1,
    {
        self.v1
    }

    /// The second part.
    pub fn v2(&self) -> (r: u16)
        ensures
            r == self.v2,
    {
        self.v2
    }

    /// The third part.
    pub fn v3(&self) -> (r: u16)
        ensures
            r == self.v3,
    {
        self.v3
    }

    /// The fourth part.
    pub fn v4(&self) -> (r: u16)
        ensures
            r == self.v4,
    {
        self.v4
    }

    /// Parses a version from the first eight bytes of a slice; later bytes are ignored.
    pub fn try_from_slice(data: &[u8]) -> (r: Result<AdsProductVersion, AdsProductVersionError>)
        ensures
            data@.len() < 8 ==> r == Err::<AdsProductVersion, AdsProductVersionError>(
                AdsProductVersionError::TooShort { expected: 8, got: data@.len() as usize },
            ),
            data@.len() >= 8 ==> r == Ok::<AdsProductVersion, AdsProductVersionError>(spec_product_version(data@)),
    {
        if data.len() < 8 {
            return Err(AdsProductVersionError::TooShort { expected: 8, got: data.len() });
        }
        let v2 = u16_from_le([data[0], data[1]]);
        let v1 = u16_from_le([data[2], data[3]]);
        let v4 = u16_from_le([data[4], data[5]]);
        let v3 = u16_from_le([data[6], data[7]]);
        Ok(AdsProductVersion { v1, v2, v3, v4 })
    }
}

} // verus!
