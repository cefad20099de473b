//! Message type of a TwinCAT logger entry.

use vstd::prelude::*;
use crate::text::{flag_table_view, flags_text, flags_text_of};
use crate::bytes::{le_u32, u32_bytes, u32_from_le, u32_to_le, lemma_u32_roundtrip};
use crate::error::LogMessageTypeError;

verus! {

/// Message type bits of a TwinCAT logger entry.
#[derive(Debug, Clone, Copy, PartialEq, Eq, Structural, PartialOrd, Ord, Hash)]
pub struct LogMessageType(u32);

/// The flag names of [`LogMessageType`], in declaration order.
pub open spec fn log_message_type_names() -> Seq<(u32, Seq<char>)> {
    seq![
        (0x01u32, "HINT"@),
        (0x02u32, "WARNING"@),
        (0x04u32, "ERROR"@),
        (0x10u32, "LOG"@),
        (0x20u32, "MSGBOX"@),
        (0x40u32, "RESOURCE"@),
        (0x80u32, "STRING"@),
        (0x1000u32, "UTF8"@),
    ]
}

/// The flag names of [`LogMessageType`], in declaration order.
fn log_message_type_name_table() -> (r: Vec<(u32, &'static str)>)
    ensures
        flag_table_view(r@) == log_message_type_names(),
{
    let r = vec![
        (0x01u32, "HINT"),
        (0x02u32, "WARNING"),
        (0x04u32, "ERROR"),
        (0x10u32, "LOG"),
        (0x20u32, "MSGBOX"),
        (0x40u32, "RESOURCE"),
        (0x80u32, "STRING"),
        (0x1000u32, "UTF8"),
    ];
    assert(flag_table_view(r@) =~= log_message_type_names());
    r
}

impl LogMessageType {
    /// Informational hint messages. (raw bit value)
    pub const HINT: u32 = 0x1;
    /// Warning messages. (raw bit value)
    pub const WARNING: u32 = 0x2;
    /// Error messages. (raw bit value)
    pub const ERROR: u32 = 0x4;
    /// Log messages (write to a log file). (raw bit value)
    pub const LOG: u32 = 0x10;
    /// Message box pop-up. (raw bit value)
    pub const MSGBOX: u32 = 0x20;
    /// Resource string message. (raw bit value)
    pub const RESOURCE: u32 = 0x40;
    /// Plain string message. (raw bit value)
    pub const STRING: u32 = 0x80;
    /// UTF-8 encoded string message. (raw bit value)
    pub const UTF8: u32 = 0x1000;

    /// Wire size in bytes.
    pub const LENGTH: usize = 4;

    /// The raw bits of this flag set.
    pub closed spec fn spec_bits(self) -> u32 {
        self.0
    }

    /// The text form: `None` when no flag is set, else the names of the set
    /// flags joined with ` | `, with the bits that no name covers as `0x` and lower-case hexadecimal digits.
    pub fn to_text(&self) -> (r: String)
        ensures
            r@ == flags_text_of(self.spec_bits(), log_message_type_names(), true),
    {
        flags_text(self.0, &log_message_type_name_table(), true)
    }

    /// True when every bit of `mask` is set.
    pub open spec fn spec_has(self, mask: u32) -> bool {
        self.spec_bits() & mask == mask
    }

    /// Creates a flag set from a raw value, keeping unrecognised bits.
    pub fn new(raw: u32) -> (r: LogMessageType)
        ensures
            r.spec_bits() == raw,
    {
        LogMessageType(raw)
    }

    /// Creates a flag set from a raw value, keeping unrecognised bits.
    pub fn from_bits_retain(raw: u32) -> (r: LogMessageType)
        ensures
            r.spec_bits() == raw,
    {
        LogMessageType(raw)
    }

    /// The empty flag set.
    pub fn empty() -> (r: LogMessageType)
        ensures
            r.spec_bits() == 0,
    {
        LogMessageType(0)
    }

    /// Creates a flag set from its 4-byte little-endian encoding.
    pub fn from_bytes(b: [u8; 4]) -> (r: LogMessageType)
        ensures
            r.spec_bits() == le_u32(b[0], b[1], b[2], b[3]),
    {
        LogMessageType(u32_from_le(b))
    }

    /// The 4-byte little-endian encoding of this flag set.
    pub fn to_bytes(self) -> (r: [u8; 4])
        ensures
            r@ == u32_bytes(self.spec_bits()),
    {
        u32_to_le(self.0)
    }

    /// Returns the raw value.
    pub fn as_raw(self) -> (r: u32)
        ensures
            r == self.spec_bits(),
    {
        self.0
    }

    /// Returns the raw value.
    pub fn bits(self) -> (r: u32)
        ensures
            r == self.spec_bits(),
    {
        self.0
    }

    /// True when no bit is set.
    pub fn is_empty(self) -> (r: bool)
        ensures
            r == (self.spec_bits() == 0),
    {
        self.0 == 0
    }

    /// True when every bit of `other` is also set in `self`.
    pub fn contains(self, other: LogMessageType) -> (r: bool)
        ensures
            r == self.spec_has(other.spec_bits()),
    {
        self.0 & other.0 == other.0
    }

    /// The union of two flag sets.
    pub fn union(self, other: LogMessageType) -> (r: LogMessageType)
        ensures
            r.spec_bits() == self.spec_bits() | other.spec_bits(),
    {
        LogMessageType(self.0 | other.0)
    }

    /// The bits of `self` that are not in `other`.
    pub fn difference(self, other: LogMessageType) -> (r: LogMessageType)
        ensures
            r.spec_bits() == self.spec_bits() & !other.spec_bits(),
    {
        LogMessageType(self.0 & !other.0)
    }

    /// Sets every bit of `other`.
    pub fn insert(&mut self, other: LogMessageType)
        ensures
            final(self).spec_bits() == old(self).spec_bits() | other.spec_bits(),
    {
        self.0 = self.0 | other.0;
    }

    /// Clears every bit of `other`.
    pub fn remove(&mut self, other: LogMessageType)
        ensures
            final(self).spec_bits() == old(self).spec_bits() & !other.spec_bits(),
    {
        self.0 = self.0 & !other.0;
    }

    /// Returns `true` if the [`HINT`](Self::HINT) flag is set.
    pub fn is_hint(self) -> (r: bool)
        ensures
            r == self.spec_has(0x1),
    {
        self.0 & 0x1 == 0x1
    }

    /// Returns `true` if the [`WARNING`](Self::WARNING) flag is set.
    pub fn is_warning(self) -> (r: bool)
        ensures
            r == self.spec_has(0x2),
    {
        self.0 & 0x2 == 0x2
    }

    /// Returns `true` if the [`ERROR`](Self::ERROR) flag is set.
    pub fn is_error(self) -> (r: bool)
        ensures
            r == self.spec_has(0x4),
    {
        self.0 & 0x4 == 0x4
    }

    /// Returns `true` if the [`LOG`](Self::LOG) flag is set.
    pub fn is_log(self) -> (r: bool)
        ensures
            r == self.spec_has(0x10),
    {
        self.0 & 0x10 == 0x10
    }

    /// Returns `true` if the [`MSGBOX`](Self::MSGBOX) flag is set.
    pub fn is_msgbox(self) -> (r: bool)
        ensures
            r == self.spec_has(0x20),
    {
        self.0 & 0x20 == 0x20
    }

    /// Returns `true` if the [`RESOURCE`](Self::RESOURCE) flag is set.
    pub fn is_resource(self) -> (r: bool)
        ensures
            r == self.spec_has(0x40),
    {
        self.0 & 0x40 == 0x40
    }

    /// Returns `true` if the [`STRING`](Self::STRING) flag is set.
    pub fn is_string(self) -> (r: bool)
        ensures
            r == self.spec_has(0x80),
    {
        self.0 & 0x80 == 0x80
    }

    /// Returns `true` if the [`UTF8`](Self::UTF8) flag is set.
    pub fn is_utf8(self) -> (r: bool)
        ensures
            r == self.spec_has(0x1000),
    {
        self.0 & 0x1000 == 0x1000
    }


    /// Parses a message type from the first four bytes of a slice.
    pub fn try_from_slice(value: &[u8]) -> (r: Result<LogMessageType, LogMessageTypeError>)
        ensures
            value@.len() < 4 ==> r == Err::<LogMessageType, LogMessageTypeError>(
                LogMessageTypeError::UnexpectedLength { expected: 4, got: value@.len() as usize },
            ),
            value@.len() >= 4 ==> (r matches Ok(f) && f.spec_bits() == le_u32(value@[0], value@[1], value@[2], value@[3])),
    {
        if value.len() < 4 {
            return Err(LogMessageTypeError::UnexpectedLength { expected: 4, got: value.len() });
        }
        Ok(LogMessageType::from_bytes([value[0], value[1], value[2], value[3]]))
    }

}

impl core::ops::BitOr for LogMessageType {
    type Output = LogMessageType;

    fn bitor(self, rhs: LogMessageType) -> (r: LogMessageType) {
        LogMessageType(self.0 | rhs.0)
    }
}

impl vstd::std_specs::ops::BitOrSpecImpl for LogMessageType {
    open spec fn obeys_bitor_spec() -> bool {
        true
    }

    open spec fn bitor_req(self, rhs: LogMessageType) -> bool {
        true
    }

    closed spec fn bitor_spec(self, rhs: LogMessageType) -> LogMessageType {
        LogMessageType(self.0 | rhs.0)
    }
}

impl core::default::Default for LogMessageType {
    fn default() -> (r: LogMessageType)
        ensures
            r.spec_bits() == 0,
    {
        LogMessageType(0)
    }
}

/// Decoding the bytes that a flag set encodes to gives the same flag set.
pub proof fn lemma_log_message_type_bytes_roundtrip(f: LogMessageType)
    ensures
        le_u32(u32_bytes(f.spec_bits())[0], u32_bytes(f.spec_bits())[1], u32_bytes(f.spec_bits())[2], u32_bytes(f.spec_bits())[3]) == f.spec_bits(),
{
    lemma_u32_roundtrip(f.spec_bits());
}

} // verus!
