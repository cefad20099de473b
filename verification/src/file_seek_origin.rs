//! Origins of file seek operations of the System Service.

use vstd::prelude::*;
use crate::bytes::{u32_bytes, u32_to_le};

verus! {

/// The origin of a file seek.
#[derive(Debug, Clone, Copy, PartialEq, Eq, Structural, PartialOrd, Ord, Hash)]
pub enum AdsFileSeekOrigin {
    /// From the start of the file.
    Begin,
    /// From the current position.
    Current,
    /// From the end of the file.
    End,
}

/// The wire code of a seek origin.
pub open spec fn ads_file_seek_origin_code(o: AdsFileSeekOrigin) -> u32 {
    match o {
        AdsFileSeekOrigin::Begin => 0,
        AdsFileSeekOrigin::Current => 1,
        AdsFileSeekOrigin::End => 2,
    }
}

impl AdsFileSeekOrigin {
    /// The wire code.
    pub fn as_u32(self) -> (r: u32)
        ensures
            r == ads_file_seek_origin_code(self),
    {
        match self {
            AdsFileSeekOrigin::Begin => 0,
            AdsFileSeekOrigin::Current => 1,
            AdsFileSeekOrigin::End => 2,
        }
    }

    /// The 4-byte little-endian encoding of the wire code.
    pub fn to_bytes(self) -> (r: [u8; 4])
        ensures
            r@ == u32_bytes(ads_file_seek_origin_code(self)),
    {
        u32_to_le(self.as_u32())
    }
}

impl core::default::Default for AdsFileSeekOrigin {
    fn default() -> (r: AdsFileSeekOrigin)
        ensures
            r == AdsFileSeekOrigin::Begin,
    {
        AdsFileSeekOrigin::Begin
    }
}

impl core::convert::From<AdsFileSeekOrigin> for u32 {
    fn from(v: AdsFileSeekOrigin) -> (r: u32) {
        v.as_u32()
    }
}

impl vstd::std_specs::convert::FromSpecImpl<AdsFileSeekOrigin> for u32 {
    open spec fn obeys_from_spec() -> bool {
        true
    }

    open spec fn from_spec(v: AdsFileSeekOrigin) -> u32 {
        ads_file_seek_origin_code(v)
    }
}

/// The seek origins of the protocol and their wire codes: from the start of
/// the file = 0, from the current position = 1, from the end = 2.
pub open spec fn ads_file_seek_origin_protocol_table() -> Seq<(u32, AdsFileSeekOrigin)> {
    seq![
        (0u32, AdsFileSeekOrigin::Begin),
        (1u32, AdsFileSeekOrigin::Current),
        (2u32, AdsFileSeekOrigin::End),
    ]
}

/// Every seek origin of the protocol table is encoded as its code.
pub proof fn lemma_ads_file_seek_origin_protocol_table(i: int)
    requires
        0 <= i < ads_file_seek_origin_protocol_table().len(),
    ensures
        ads_file_seek_origin_code(ads_file_seek_origin_protocol_table()[i].1) == ads_file_seek_origin_protocol_table()[i].0,
{
}

} // verus!
