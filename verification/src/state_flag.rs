//! AMS state flags and a builder for them.

use vstd::prelude::*;
use crate::text::{flag_table_view, flags_text, flags_text_of};
use crate::bytes::{le_u16, u16_bytes, u16_from_le, u16_to_le, lemma_u16_roundtrip};
use crate::error::StateFlagError;

verus! {

/// AMS state flags (16-bit bit field).
///
/// Contains information about the exchange (request/response) and the transport (TCP/UDP).
#[derive(Debug, Clone, Copy, PartialEq, Eq, Structural, PartialOrd, Ord, Hash)]
pub struct StateFlag(u16);

/// The flag names of [`StateFlag`], in declaration order.
pub open spec fn state_flag_names() -> Seq<(u32, Seq<char>)> {
    seq![
        (0x0001u32, "RESPONSE"@),
        (0x0002u32, "NO_RETURN"@),
        (0x0004u32, "ADS_COMMAND"@),
        (0x0008u32, "SYS_COMMAND"@),
        (0x0010u32, "HIGH_PRIORITY"@),
        (0x0020u32, "TIMESTAMP"@),
        (0x0040u32, "UDP"@),
        (0x0080u32, "INIT_CMD"@),
        (0x8000u32, "BROADCAST"@),
    ]
}

/// The flag names of [`StateFlag`], in declaration order.
fn state_flag_name_table() -> (r: Vec<(u32, &'static str)>)
    ensures
        flag_table_view(r@) == state_flag_names(),
{
    let r = vec![
        (0x0001u32, "RESPONSE"),
        (0x0002u32, "NO_RETURN"),
        (0x0004u32, "ADS_COMMAND"),
        (0x0008u32, "SYS_COMMAND"),
        (0x0010u32, "HIGH_PRIORITY"),
        (0x0020u32, "TIMESTAMP"),
        (0x0040u32, "UDP"),
        (0x0080u32, "INIT_CMD"),
        (0x8000u32, "BROADCAST"),
    ];
    assert(flag_table_view(r@) =~= state_flag_names());
    r
}

impl StateFlag {
    /// This message is a response (client <- server). (raw bit value)
    pub const RESPONSE: u16 = 0x0001;
    /// Fire-and-forget; do not send a response. (raw bit value)
    pub const NO_RETURN: u16 = 0x0002;
    /// Marks this AMS frame as carrying an ADS command. (raw bit value)
    pub const ADS_COMMAND: u16 = 0x0004;
    /// Marks this frame as a system/router-level command. (raw bit value)
    pub const SYS_COMMAND: u16 = 0x0008;
    /// Requests priority handling by the router/runtime. (raw bit value)
    pub const HIGH_PRIORITY: u16 = 0x0010;
    /// An additional 8-byte timestamp is appended to the payload. (raw bit value)
    pub const TIMESTAMP: u16 = 0x0020;
    /// Transport is UDP. (raw bit value)
    pub const UDP: u16 = 0x0040;
    /// A command sent during TwinCAT/AMS initialization. (raw bit value)
    pub const INIT_CMD: u16 = 0x0080;
    /// Sends the command to all reachable nodes. (raw bit value)
    pub const BROADCAST: u16 = 0x8000;

    /// Wire size in bytes.
    pub const LENGTH: usize = 2;

    /// The raw bits of this flag set.
    pub closed spec fn spec_bits(self) -> u16 {
        self.0
    }

    /// The text form: `None` when no flag is set, else the names of the set
    /// flags joined with ` | `, with the bits that no name covers as `0x` and lower-case hexadecimal digits.
    pub fn to_text(&self) -> (r: String)
        ensures
            r@ == flags_text_of((self.spec_bits() as u32), state_flag_names(), true),
    {
        flags_text((self.0 as u32), &state_flag_name_table(), true)
    }

    /// True when every bit of `mask` is set.
    pub open spec fn spec_has(self, mask: u16) -> bool {
        self.spec_bits() & mask == mask
    }

    /// Creates a flag set from a raw value, keeping unrecognised bits.
    pub fn new(raw: u16) -> (r: StateFlag)
        ensures
            r.spec_bits() == raw,
    {
        StateFlag(raw)
    }

    /// Creates a flag set from a raw value, keeping unrecognised bits.
    pub fn from_bits_retain(raw: u16) -> (r: StateFlag)
        ensures
            r.spec_bits() == raw,
    {
        StateFlag(raw)
    }

    /// The empty flag set.
    pub fn empty() -> (r: StateFlag)
        ensures
            r.spec_bits() == 0,
    {
        StateFlag(0)
    }

    /// Creates a flag set from its 2-byte little-endian encoding.
    pub fn from_bytes(b: [u8; 2]) -> (r: StateFlag)
        ensures
            r.spec_bits() == le_u16(b[0], b[1]),
    {
        StateFlag(u16_from_le(b))
    }

    /// The 2-byte little-endian encoding of this flag set.
    pub fn to_bytes(self) -> (r: [u8; 2])
        ensures
            r@ == u16_bytes(self.spec_bits()),
    {
        u16_to_le(self.0)
    }

    /// Returns the raw value.
    pub fn as_raw(self) -> (r: u16)
        ensures
            r == self.spec_bits(),
    {
        self.0
    }

    /// Returns the raw value.
    pub fn bits(self) -> (r: u16)
        ensures
            r == self.spec_bits(),
    {
        self.0
    }

    /// True when no bit is set.
    pub fn is_empty(self) -> (r: bool)
        ensures
            r == (self.spec_bits() == 0),
    {
        self.0 == 0
    }

    /// True when every bit of `other` is also set in `self`.
    pub fn contains(self, other: StateFlag) -> (r: bool)
        ensures
            r == self.spec_has(other.spec_bits()),
    {
        self.0 & other.0 == other.0
    }

    /// The union of two flag sets.
    pub fn union(self, other: StateFlag) -> (r: StateFlag)
        ensures
            r.spec_bits() == self.spec_bits() | other.spec_bits(),
    {
        StateFlag(self.0 | other.0)
    }

    /// The bits of `self` that are not in `other`.
    pub fn difference(self, other: StateFlag) -> (r: StateFlag)
        ensures
            r.spec_bits() == self.spec_bits() & !other.spec_bits(),
    {
        StateFlag(self.0 & !other.0)
    }

    /// Sets every bit of `other`.
    pub fn insert(&mut self, other: StateFlag)
        ensures
            final(self).spec_bits() == old(self).spec_bits() | other.spec_bits(),
    {
        self.0 = self.0 | other.0;
    }

    /// Clears every bit of `other`.
    pub fn remove(&mut self, other: StateFlag)
        ensures
            final(self).spec_bits() == old(self).spec_bits() & !other.spec_bits(),
    {
        self.0 = self.0 & !other.0;
    }

    /// True if the RESPONSE bit is set (server -> client).
    pub fn is_response(self) -> (r: bool)
        ensures
            r == self.spec_has(0x0001),
    {
        self.0 & 0x0001 == 0x0001
    }

    /// True if the UDP bit is set.
    pub fn is_udp(self) -> (r: bool)
        ensures
            r == self.spec_has(0x0040),
    {
        self.0 & 0x0040 == 0x0040
    }

    /// True if this is an ADS command message.
    pub fn is_ads_command(self) -> (r: bool)
        ensures
            r == self.spec_has(0x0004),
    {
        self.0 & 0x0004 == 0x0004
    }

    /// True if the system command bit is set.
    pub fn is_system_command(self) -> (r: bool)
        ensures
            r == self.spec_has(0x0008),
    {
        self.0 & 0x0008 == 0x0008
    }

    /// True if the high priority bit is set.
    pub fn is_high_priority(self) -> (r: bool)
        ensures
            r == self.spec_has(0x0010),
    {
        self.0 & 0x0010 == 0x0010
    }

    /// True if the timestamp bit is set.
    pub fn has_timestamp_added(self) -> (r: bool)
        ensures
            r == self.spec_has(0x0020),
    {
        self.0 & 0x0020 == 0x0020
    }

    /// True if the no-return bit is set.
    pub fn is_no_return(self) -> (r: bool)
        ensures
            r == self.spec_has(0x0002),
    {
        self.0 & 0x0002 == 0x0002
    }

    /// True if the init command bit is set.
    pub fn is_init_command(self) -> (r: bool)
        ensures
            r == self.spec_has(0x0080),
    {
        self.0 & 0x0080 == 0x0080
    }

    /// True if the broadcast bit is set.
    pub fn is_broadcast(self) -> (r: bool)
        ensures
            r == self.spec_has(0x8000),
    {
        self.0 & 0x8000 == 0x8000
    }

    /// True if the RESPONSE bit is not set (client -> server).
    pub fn is_request(self) -> (r: bool)
        ensures
            r == !self.spec_has(0x0001),
    {
        !self.is_response()
    }

    /// True if the UDP bit is not set (TCP transport).
    pub fn is_tcp(self) -> (r: bool)
        ensures
            r == !self.spec_has(0x0040),
    {
        !self.is_udp()
    }

    /// Standard ADS request over TCP.
    pub fn tcp_ads_request() -> (r: StateFlag)
        ensures
            r.spec_bits() == 0x0004,
    {
        StateFlag(0x0004)
    }

    /// Standard ADS response over TCP.
    pub fn tcp_ads_response() -> (r: StateFlag)
        ensures
            r.spec_bits() == 0x0005,
    {
        StateFlag(0x0005)
    }

    /// Standard ADS request over UDP.
    pub fn udp_ads_request() -> (r: StateFlag)
        ensures
            r.spec_bits() == 0x0044,
    {
        StateFlag(0x0044)
    }

    /// Standard ADS response over UDP.
    pub fn udp_ads_response() -> (r: StateFlag)
        ensures
            r.spec_bits() == 0x0045,
    {
        StateFlag(0x0045)
    }

    /// Parses a flag set from the first two bytes of a slice.
    pub fn try_from_slice(value: &[u8]) -> (r: Result<StateFlag, StateFlagError>)
        ensures
            value@.len() < 2 ==> r == Err::<StateFlag, StateFlagError>(
                StateFlagError::UnexpectedLength { expected: 2, got: value@.len() as usize },
            ),
            value@.len() >= 2 ==> (r matches Ok(f) && f.spec_bits() == le_u16(value@[0], value@[1])),
    {
        if value.len() < 2 {
            return Err(StateFlagError::UnexpectedLength { expected: 2, got: value.len() });
        }
        Ok(StateFlag::from_bytes([value[0], value[1]]))
    }

}

impl core::ops::BitOr for StateFlag {
    type Output = StateFlag;

    fn bitor(self, rhs: StateFlag) -> (r: StateFlag) {
        StateFlag(self.0 | rhs.0)
    }
}

impl vstd::std_specs::ops::BitOrSpecImpl for StateFlag {
    open spec fn obeys_bitor_spec() -> bool {
        true
    }

    open spec fn bitor_req(self, rhs: StateFlag) -> bool {
        true
    }

    closed spec fn bitor_spec(self, rhs: StateFlag) -> StateFlag {
        StateFlag(self.0 | rhs.0)
    }
}

impl core::default::Default for StateFlag {
    fn default() -> (r: StateFlag)
        ensures
            r.spec_bits() == 0,
    {
        StateFlag(0)
    }
}

/// Decoding the bytes that a flag set encodes to gives the same flag set.
pub proof fn lemma_state_flag_bytes_roundtrip(f: StateFlag)
    ensures
        le_u16(u16_bytes(f.spec_bits())[0], u16_bytes(f.spec_bits())[1]) == f.spec_bits(),
{
    lemma_u16_roundtrip(f.spec_bits());
}

/// A bit mutator for [`StateFlag`].
#[derive(Debug, Clone, Copy, PartialEq, Eq, Structural, Hash)]
pub struct StateFlagBuilder(StateFlag);

impl StateFlagBuilder {
    /// The flags built so far.
    pub closed spec fn spec_bits(self) -> u16 {
        self.0.spec_bits()
    }

    /// Starts from a raw value.
    pub fn new(raw: u16) -> (r: StateFlagBuilder)
        ensures
            r.spec_bits() == raw,
    {
        StateFlagBuilder(StateFlag::new(raw))
    }

    /// Starts from an existing flag set.
    pub fn from_flag(flag: StateFlag) -> (r: StateFlagBuilder)
        ensures
            r.spec_bits() == flag.spec_bits(),
    {
        StateFlagBuilder(flag)
    }

    /// Sets every bit of `mask`.
    pub fn with_mask(self, mask: StateFlag) -> (r: StateFlagBuilder)
        ensures
            r.spec_bits() == self.spec_bits() | mask.spec_bits(),
    {
        StateFlagBuilder(StateFlag(self.0.0 | mask.0))
    }

    /// Clears every bit of `mask`.
    pub fn without_mask(self, mask: StateFlag) -> (r: StateFlagBuilder)
        ensures
            r.spec_bits() == self.spec_bits() & !mask.spec_bits(),
    {
        StateFlagBuilder(StateFlag(self.0.0 & !mask.0))
    }

    /// The finished flag set.
    pub fn build(self) -> (r: StateFlag)
        ensures
            r.spec_bits() == self.spec_bits(),
    {
        self.0
    }

    /// Sets the bit `0x0001`.
    pub fn response(self) -> (r: StateFlagBuilder)
        ensures
            r.spec_bits() == self.spec_bits() | 0x0001u16,
    {
        self.with_mask(StateFlag(0x0001))
    }

    /// Clears the bit `0x0001`.
    pub fn request(self) -> (r: StateFlagBuilder)
        ensures
            r.spec_bits() == self.spec_bits() & ! 0x0001u16,
    {
        self.without_mask(StateFlag(0x0001))
    }

    /// Sets the bit `0x0040`.
    pub fn udp(self) -> (r: StateFlagBuilder)
        ensures
            r.spec_bits() == self.spec_bits() | 0x0040u16,
    {
        self.with_mask(StateFlag(0x0040))
    }

    /// Clears the bit `0x0040`.
    pub fn tcp(self) -> (r: StateFlagBuilder)
        ensures
            r.spec_bits() == self.spec_bits() & ! 0x0040u16,
    {
        self.without_mask(StateFlag(0x0040))
    }

    /// Sets the bit `0x0004`.
    pub fn ads_command(self) -> (r: StateFlagBuilder)
        ensures
            r.spec_bits() == self.spec_bits() | 0x0004u16,
    {
        self.with_mask(StateFlag(0x0004))
    }

    /// Sets the bit `0x0008`.
    pub fn system_command(self) -> (r: StateFlagBuilder)
        ensures
            r.spec_bits() == self.spec_bits() | 0x0008u16,
    {
        self.with_mask(StateFlag(0x0008))
    }

    /// Sets the bit `0x0010`.
    pub fn high_priority(self) -> (r: StateFlagBuilder)
        ensures
            r.spec_bits() == self.spec_bits() | 0x0010u16,
    {
        self.with_mask(StateFlag(0x0010))
    }

    /// Sets the bit `0x0020`.
    pub fn timestamp_added(self) -> (r: StateFlagBuilder)
        ensures
            r.spec_bits() == self.spec_bits() | 0x0020u16,
    {
        self.with_mask(StateFlag(0x0020))
    }

    /// Sets the bit `0x0002`.
    pub fn no_return(self) -> (r: StateFlagBuilder)
        ensures
            r.spec_bits() == self.spec_bits() | 0x0002u16,
    {
        self.with_mask(StateFlag(0x0002))
    }

    /// Sets the bit `0x0080`.
    pub fn init_command(self) -> (r: StateFlagBuilder)
        ensures
            r.spec_bits() == self.spec_bits() | 0x0080u16,
    {
        self.with_mask(StateFlag(0x0080))
    }

    /// Sets the bit `0x8000`.
    pub fn broadcast(self) -> (r: StateFlagBuilder)
        ensures
            r.spec_bits() == self.spec_bits() | 0x8000u16,
    {
        self.with_mask(StateFlag(0x8000))
    }

}

} // verus!
