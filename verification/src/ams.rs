//! AMS addressing: network identifiers and port addresses.

use vstd::prelude::*;
use crate::bytes::{le_u16, lemma_u16_roundtrip, u16_bytes, u16_from_le, u16_to_le};

verus! {

/// The AMS network identifier of a station, six bytes such as `192.168.0.1.1.1`.
#[derive(Debug, Clone, Copy, PartialEq, Eq, Hash)]
pub struct AmsNetId(pub [u8; 6]);

impl AmsNetId {
    /// Wire size in bytes.
    pub const LENGTH: usize = 6;

    /// Creates a network identifier from its six parts.
    pub fn new(a: u8, b: u8, c: u8, d: u8, e: u8, f: u8) -> (r: AmsNetId)
        ensures
            r.0@ == seq![a, b, c, d, e, f],
    {
        let r = AmsNetId([a, b, c, d, e, f]);
        assert(r.0@ =~= seq![a, b, c, d, e, f]);
        r
    }

    /// The network identifier of the local router, `127.0.0.1.1.1`.
    pub fn local() -> (r: AmsNetId)
        ensures
            r.0@ == seq![127u8, 0u8, 0u8, 1u8, 1u8, 1u8],
    {
        AmsNetId::new(127, 0, 0, 1, 1, 1)
    }

    /// Creates a network identifier from its wire bytes.
    pub fn from_bytes(bytes: [u8; 6]) -> (r: AmsNetId)
        ensures
            r.0@ == bytes@,
    {
        AmsNetId(bytes)
    }

    /// The six wire bytes.
    pub fn to_bytes(&self) -> (r: [u8; 6])
        ensures
            r@ == self.0@,
    {
        self.0
    }
}

/// An AMS address: a network identifier and a port.
#[derive(Debug, Clone, Copy, PartialEq, Eq, Hash)]
pub struct AmsAddr {
    pub net_id: AmsNetId,
    pub port: u16,
}

/// The eight wire bytes of an address: the network identifier, then the port little-endian.
pub open spec fn spec_ams_addr_bytes(a: AmsAddr) -> Seq<u8> {
    a.net_id.0@ + u16_bytes(a.port)
}

/// The address (network identifier bytes, port) that eight wire bytes encode.
pub open spec fn spec_ams_addr_of(b: Seq<u8>) -> (Seq<u8>, u16) {
    (b.subrange(0, 6), le_u16(b[6], b[7]))
}

impl AmsAddr {
    /// Wire size in bytes.
    pub const LENGTH: usize = 8;

    /// Creates an address.
    pub fn new(net_id: AmsNetId, port: u16) -> (r: AmsAddr)
        ensures
            r == (AmsAddr { net_id, port }),
    {
        AmsAddr { net_id, port }
    }

    /// An address on the local router.
    pub fn from_local(port: u16) -> (r: AmsAddr)
        ensures
            r.net_id.0@ == seq![127u8, 0u8, 0u8, 1u8, 1u8, 1u8],
            r.port == port,
    {
        AmsAddr { net_id: AmsNetId::local(), port }
    }

    /// Decodes an address from its eight wire bytes.
    pub fn from_bytes(bytes: [u8; 8]) -> (r: AmsAddr)
        ensures
            (r.net_id.0@, r.port) == spec_ams_addr_of(bytes@),
    {
        let net_id = AmsNetId([bytes[0], bytes[1], bytes[2], bytes[3], bytes[4], bytes[5]]);
        assert(net_id.0@ =~= bytes@.subrange(0, 6));
        AmsAddr { net_id, port: u16_from_le([bytes[6], bytes[7]]) }
    }

    /// The eight wire bytes.
    pub fn to_bytes(&self) -> (r: [u8; 8])
        ensures
            r@ == spec_ams_addr_bytes(*self),
    {
        let n = self.net_id.0;
        let p = u16_to_le(self.port);
        let r = [n[0], n[1], n[2], n[3], n[4], n[5], p[0], p[1]];
        assert(r@ =~= spec_ams_addr_bytes(*self));
        r
    }
}

/// Encoding an address and decoding the bytes gives the network identifier
/// bytes and the port back.
pub proof fn lemma_ams_addr_roundtrip(a: AmsAddr)
    ensures
        spec_ams_addr_of(spec_ams_addr_bytes(a)) == (a.net_id.0@, a.port),
{
    lemma_u16_roundtrip(a.port);
    assert(spec_ams_addr_bytes(a).subrange(0, 6) =~= a.net_id.0@);
}

} // verus!
