//! The 32-byte ADS header that precedes every ADS payload.

use vstd::prelude::*;
use crate::ams::{spec_ams_addr_bytes, AmsAddr};
use crate::bytes::{le_u16, seq_u32, u16_bytes, u32_bytes, u32_from_le, u32_to_le, lemma_u16_bytes_roundtrip,
    lemma_u16_roundtrip, lemma_u32_bytes_roundtrip, lemma_u32_roundtrip};
use crate::command::{ads_command_canonical, ads_command_code, ads_command_of, AdsCommand};
use crate::error::AdsHeaderError;
use crate::return_codes::{ads_return_code_canonical, ads_return_code_code, ads_return_code_of, AdsReturnCode};
use crate::state_flag::StateFlag;

verus! {

/// Length of the ADS header in bytes.
pub const ADS_HEADER_LEN: usize = 32;

/// The plain fields of a header: (target, source, command, state flag bits,
/// data length, error code, invoke id).
pub type AdsHeaderFields = (AmsAddr, AmsAddr, AdsCommand, u16, u32, AdsReturnCode, u32);

/// The ADS header (32 bytes): routing, command, flags and error code of a frame.
#[derive(Debug, Clone, PartialEq, Eq, Hash)]
pub struct AdsHeader {
    target: AmsAddr,
    source: AmsAddr,
    command_id: AdsCommand,
    state_flags: StateFlag,
    length: u32,
    error_code: AdsReturnCode,
    invoke_id: u32,
}

/// The 32 wire bytes of a header with the given fields.
pub open spec fn spec_ads_header_bytes(f: AdsHeaderFields) -> Seq<u8> {
    spec_ams_addr_bytes(f.0) + spec_ams_addr_bytes(f.1) + u16_bytes(ads_command_code(f.2)) + u16_bytes(f.3)
        + u32_bytes(f.4) + u32_bytes(ads_return_code_code(f.5)) + u32_bytes(f.6)
}

/// True when the fields `f` are what the 32 wire bytes `b` encode.
pub open spec fn ads_header_decodes(f: AdsHeaderFields, b: Seq<u8>) -> bool {
    &&& f.0.net_id.0@ == b.subrange(0, 6)
    &&& f.0.port == le_u16(b[6], b[7])
    &&& f.1.net_id.0@ == b.subrange(8, 14)
    &&& f.1.port == le_u16(b[14], b[15])
    &&& f.2 == ads_command_of(le_u16(b[16], b[17]))
    &&& f.3 == le_u16(b[18], b[19])
    &&& f.4 == seq_u32(b, 20)
    &&& f.5 == ads_return_code_of(seq_u32(b, 24))
    &&& f.6 == seq_u32(b, 28)
}

impl AdsHeader {
    /// The fields as plain values.
    pub closed spec fn spec_fields(self) -> AdsHeaderFields {
        (self.target, self.source, self.command_id, self.state_flags.spec_bits(), self.length, self.error_code,
            self.invoke_id)
    }

    /// Creates a header.
    pub fn new(
        target: AmsAddr,
        source: AmsAddr,
        command_id: AdsCommand,
        state_flags: StateFlag,
        length: u32,
        error_code: AdsReturnCode,
        invoke_id: u32,
    ) -> (r: AdsHeader)
        ensures
            r.spec_fields() == (target, source, command_id, state_flags.spec_bits(), length, error_code, invoke_id),
    {
        AdsHeader { target, source, command_id, state_flags, length, error_code, invoke_id }
    }

    /// The address of the station the frame is meant for.
    pub fn target(&self) -> (r: &AmsAddr)
        ensures
            *r == self.spec_fields().0,
    {
        &self.target
    }

    /// The address of the station that sent the frame.
    pub fn source(&self) -> (r: &AmsAddr)
        ensures
            *r == self.spec_fields().1,
    {
        &self.source
    }

    /// The command of the frame.
    pub fn command_id(&self) -> (r: AdsCommand)
        ensures
            r == self.spec_fields().2,
    {
        self.command_id
    }

    /// The state flags (request or response, TCP or UDP).
    pub fn state_flags(&self) -> (r: StateFlag)
        ensures
            r.spec_bits() == self.spec_fields().3,
    {
        self.state_flags
    }

    /// The length of the data that follows, in bytes.
    pub fn length(&self) -> (r: u32)
        ensures
            r == self.spec_fields().4,
    {
        self.length
    }

    /// The error code of the frame.
    pub fn error_code(&self) -> (r: AdsReturnCode)
        ensures
            r == self.spec_fields().5,
    {
        self.error_code
    }

    /// The invoke id that pairs a response with its request.
    pub fn invoke_id(&self) -> (r: u32)
        ensures
            r == self.spec_fields().6,
    {
        self.invoke_id
    }

    /// The 32-byte wire encoding.
    pub fn to_bytes(&self) -> (r: [u8; 32])
        ensures
            r@ == spec_ads_header_bytes(self.spec_fields()),
    {
        let t = self.target.to_bytes();
        let s = self.source.to_bytes();
        let c = self.command_id.to_bytes();
        let f = self.state_flags.to_bytes();
        let l = u32_to_le(self.length);
        let e = self.error_code.to_bytes();
        let i = u32_to_le(self.invoke_id);
        let r = [
            t[0], t[1], t[2], t[3], t[4], t[5], t[6], t[7],
            s[0], s[1], s[2], s[3], s[4], s[5], s[6], s[7],
            c[0], c[1], f[0], f[1], l[0], l[1], l[2], l[3],
            e[0], e[1], e[2], e[3], i[0], i[1], i[2], i[3],
        ];
        assert(r@ =~= spec_ads_header_bytes(self.spec_fields()));
        r
    }

    /// Decodes a header from its 32 wire bytes.
    pub fn from_bytes(bytes: [u8; 32]) -> (r: AdsHeader)
        ensures
            ads_header_decodes(r.spec_fields(), bytes@),
    {
        let target = AmsAddr::from_bytes([bytes[0], bytes[1], bytes[2], bytes[3], bytes[4], bytes[5], bytes[6], bytes[7]]);
        let source = AmsAddr::from_bytes(
            [bytes[8], bytes[9], bytes[10], bytes[11], bytes[12], bytes[13], bytes[14], bytes[15]],
        );
        let command_id = AdsCommand::from_bytes([bytes[16], bytes[17]]);
        let state_flags = StateFlag::from_bytes([bytes[18], bytes[19]]);
        let length = u32_from_le([bytes[20], bytes[21], bytes[22], bytes[23]]);
        let error_code = AdsReturnCode::from_bytes([bytes[24], bytes[25], bytes[26], bytes[27]]);
        let invoke_id = u32_from_le([bytes[28], bytes[29], bytes[30], bytes[31]]);
        assert(target.net_id.0@ =~= bytes@.subrange(0, 6));
        assert(source.net_id.0@ =~= bytes@.subrange(8, 14));
        AdsHeader { target, source, command_id, state_flags, length, error_code, invoke_id }
    }

    /// Parses a header from a slice of exactly 32 bytes.
    pub fn try_from_slice(bytes: &[u8]) -> (r: Result<AdsHeader, AdsHeaderError>)
        ensures
            bytes@.len() != 32 ==> r == Err::<AdsHeader, AdsHeaderError>(
                AdsHeaderError::UnexpectedLength { expected: 32, got: bytes@.len() as usize },
            ),
            bytes@.len() == 32 ==> (r matches Ok(h) && ads_header_decodes(h.spec_fields(), bytes@)),
    {
        if bytes.len() != ADS_HEADER_LEN {
            return Err(AdsHeaderError::UnexpectedLength { expected: ADS_HEADER_LEN, got: bytes.len() });
        }
        let mut arr = [0u8; 32];
        let mut i: usize = 0;
        while i < 32
            invariant
                bytes@.len() == 32,
                0 <= i <= 32,
                forall|j: int| 0 <= j < i ==> arr[j] == bytes@[j],
            decreases 32 - i,
        {
            arr[i] = bytes[i];
            i = i + 1;
        }
        assert(arr@ =~= bytes@);
        Ok(AdsHeader::from_bytes(arr))
    }
}

/// Two decodings of the same bytes agree.
pub proof fn lemma_ads_header_decodes_unique(f: AdsHeaderFields, g: AdsHeaderFields, b: Seq<u8>)
    requires
        ads_header_decodes(f, b),
        ads_header_decodes(g, b),
    ensures
        f == g,
{
    assert(f.0.net_id.0 =~= g.0.net_id.0);
    assert(f.1.net_id.0 =~= g.1.net_id.0);
}

/// Encoding a header whose command and error code are canonical and decoding
/// the bytes gives the same fields back.
pub proof fn lemma_ads_header_roundtrip(f: AdsHeaderFields)
    requires
        ads_command_canonical(f.2),
        ads_return_code_canonical(f.5),
    ensures
        ads_header_decodes(f, spec_ads_header_bytes(f)),
{
    let b = spec_ads_header_bytes(f);
    lemma_u16_roundtrip(f.0.port);
    lemma_u16_roundtrip(f.1.port);
    lemma_u16_roundtrip(ads_command_code(f.2));
    lemma_u16_roundtrip(f.3);
    lemma_u32_roundtrip(f.4);
    lemma_u32_roundtrip(ads_return_code_code(f.5));
    lemma_u32_roundtrip(f.6);
    assert(b.subrange(0, 6) =~= f.0.net_id.0@);
    assert(b.subrange(8, 14) =~= f.1.net_id.0@);
}

/// Decoding 32 bytes and encoding the fields again gives the same bytes.
pub proof fn lemma_ads_header_bytes_roundtrip(f: AdsHeaderFields, b: Seq<u8>)
    requires
        b.len() == 32,
        ads_header_decodes(f, b),
    ensures
        spec_ads_header_bytes(f) == b,
{
    lemma_u16_bytes_roundtrip(b[6], b[7]);
    lemma_u16_bytes_roundtrip(b[14], b[15]);
    lemma_u16_bytes_roundtrip(b[16], b[17]);
    lemma_u16_bytes_roundtrip(b[18], b[19]);
    lemma_u32_bytes_roundtrip(b[20], b[21], b[22], b[23]);
    lemma_u32_bytes_roundtrip(b[24], b[25], b[26], b[27]);
    lemma_u32_bytes_roundtrip(b[28], b[29], b[30], b[31]);
    assert(ads_command_code(ads_command_of(le_u16(b[16], b[17]))) == le_u16(b[16], b[17]));
    assert(ads_return_code_code(ads_return_code_of(seq_u32(b, 24))) == seq_u32(b, 24));
    assert(spec_ads_header_bytes(f) =~= b);
}

} // verus!
