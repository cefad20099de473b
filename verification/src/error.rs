//! Error values of the wire codecs.

use vstd::prelude::*;
use crate::state_flag::StateFlag;

verus! {

/// Any error of the protocol layer.
#[derive(Debug, Clone, PartialEq, Eq)]
pub enum AdsError {
    /// Invalid ADS header format or content.
    InvalidAdsHeader(AdsHeaderError),
    /// Invalid ADS return code format or content.
    InvalidAdsReturnCode(AdsReturnCodeError),
    /// Invalid AMS state flag format or content.
    InvalidStateFlag(StateFlagError),
    /// Invalid ADS state format or content.
    InvalidAdsState(AdsStateError),
    /// Invalid ADS notification transmission mode.
    InvalidAdsTransMode(AdsTransModeError),
    /// Invalid ADS notification attribute.
    InvalidAdsNotificationAttrib(AdsNotificationAttribError),
    /// Invalid command format or content.
    InvalidCommand(AdsCommandError),
    /// Invalid ADS device version format or content.
    InvalidAdsDeviceVersion(AdsDeviceVersionError),
    /// Invalid ADS string format or content.
    InvalidAdsString(AdsStringError),
    /// Invalid ADS notification handle.
    InvalidAdsNotificationHandle(AdsNotificationHandleError),
    /// Invalid Windows file time.
    InvalidWindowsFileTime(WindowsFileTimeError),
    /// Invalid ADS log message type.
    InvalidLogMessageType(LogMessageTypeError),
    /// Invalid ADS log entry.
    InvalidLogEntry(LogEntryError),
    /// Invalid ADS symbol upload info.
    InvalidAdsSymbolUploadInfo(AdsSymbolUploadInfoError),
    /// Invalid ADS type info.
    InvalidAdsTypeInfo(AdsTypeInfoError),
    /// Invalid GUID.
    InvalidGuid(GuidParseError),
    /// Invalid SumUp command.
    InvalidSumUpCommand(SumUpError),
    /// Unexpected data length (not header or return code).
    UnexpectedDataLength { expected: usize, got: usize },
}

/// Error returned when parsing an [`AdsHeader`](crate::AdsHeader) fails.
#[derive(Debug, Clone, PartialEq, Eq, Structural)]
pub enum AdsHeaderError {
    UnexpectedLength { expected: usize, got: usize },
}

/// Error returned when parsing an [`AdsReturnCode`](crate::AdsReturnCode) fails.
#[derive(Debug, Clone, PartialEq, Eq, Structural)]
pub enum AdsReturnCodeError {
    UnexpectedLength { expected: usize, got: usize },
}

/// Error returned when parsing a [`StateFlag`] fails.
#[allow(inconsistent_fields)]
#[derive(Debug, Clone, PartialEq, Eq)]
pub enum StateFlagError {
    UnexpectedLength { expected: usize, got: usize },
    UnexpectedStateFlag { expected: Vec<StateFlag>, got: StateFlag },
}

/// Error returned when parsing an [`AdsState`](crate::AdsState) fails.
#[derive(Debug, Clone, PartialEq, Eq, Structural)]
pub enum AdsStateError {
    UnexpectedLength { expected: usize, got: usize },
}

/// Error returned when parsing an [`AdsDeviceVersion`](crate::AdsDeviceVersion) fails.
#[derive(Debug, Clone, PartialEq, Eq, Structural)]
pub enum AdsDeviceVersionError {
    UnexpectedLength { expected: usize, got: usize },
}

/// Error returned when parsing an [`AdsTransMode`](crate::AdsTransMode) fails.
#[derive(Debug, Clone, PartialEq, Eq, Structural)]
pub enum AdsTransModeError {
    UnexpectedLength { expected: usize, got: usize },
}

/// Error returned when parsing an [`AdsNotificationAttrib`](crate::AdsNotificationAttrib) fails.
#[derive(Debug, Clone, PartialEq, Eq, Structural)]
pub enum AdsNotificationAttribError {
    UnexpectedLength { expected: usize, got: usize },
}

/// Error returned when parsing an ADS command fails.
#[derive(Debug, Clone, PartialEq, Eq, Structural)]
pub enum AdsCommandError {
    UnexpectedLength { expected: usize, got: usize },
}

/// Error returned when building an [`AdsString`](crate::AdsString) fails.
#[derive(Debug, Clone, PartialEq, Eq)]
pub enum AdsStringError {
    TooLong { expected: usize, got: usize },
    EncodingError,
    Other(String),
}

/// Error returned when parsing a [`NotificationHandle`](crate::NotificationHandle) fails.
#[derive(Debug, Clone, PartialEq, Eq, Structural)]
pub enum AdsNotificationHandleError {
    UnexpectedLength { expected: usize, got: usize },
}

/// Error returned when parsing a [`WindowsFileTime`](crate::WindowsFileTime) fails.
#[derive(Debug, Clone, PartialEq, Eq, Structural)]
pub enum WindowsFileTimeError {
    UnexpectedLength { expected: usize, got: usize },
}

/// Error returned when parsing a [`LogMessageType`](crate::LogMessageType) fails.
#[derive(Debug, Clone, PartialEq, Eq, Structural)]
pub enum LogMessageTypeError {
    UnexpectedLength { expected: usize, got: usize },
}

/// Error returned when parsing a log entry fails.
#[derive(Debug, Clone, PartialEq, Eq, Structural)]
pub enum LogEntryError {
    PayloadTooShort { expected: usize, got: usize },
    UnexpectedLength { expected: usize, got: usize },
}

/// Error returned when parsing [`AdsSymbolUploadInfo`](crate::AdsSymbolUploadInfo) fails.
#[derive(Debug, Clone, PartialEq, Eq, Structural)]
pub enum AdsSymbolUploadInfoError {
    TooShort { expected: usize, got: usize },
    UnexpectedLength { expected: usize, got: usize },
}

/// Error returned when parsing a GUID fails.
#[derive(Debug, Clone, PartialEq, Eq, Structural)]
pub enum GuidParseError {
    InvalidLength(usize),
    InvalidHex,
}

/// Error returned when parsing a type, field, method, enum or attribute entry fails.
#[derive(Debug, Clone, PartialEq, Eq)]
pub enum AdsTypeInfoError {
    UnexpectedLength { expected: usize, got: usize },
    TooShort { expected: usize, got: usize },
    EntryLengthMismatch { expected: usize, got: usize },
    InvalidUtf8 { field: &'static str },
    InvalidGuid(GuidParseError),
}

/// Error returned when parsing an [`AdsSymbolInfo`](crate::AdsSymbolInfo) entry fails.
#[derive(Debug, Clone, PartialEq, Eq, Structural)]
pub enum AdsSymbolInfoError {
    UnexpectedLength { expected: usize, got: usize },
    TooShort { expected: usize, got: usize },
    EntryLengthMismatch { expected: usize, got: usize },
}

/// Error returned when parsing a SumUp command fails.
#[derive(Debug, Clone, PartialEq, Eq, Structural)]
pub enum SumUpError {
    TooShort { expected: usize, got: usize },
    HeaderTooShort { expected: usize, got: usize },
    PayloadTooShort { expected: usize, got: usize },
    UnexpectedLength { expected: usize, got: usize },
}

/// Error returned when parsing a Sum command request or response fails.
#[derive(Debug, Clone, PartialEq, Eq, Structural)]
pub enum SumError {
    TooShort { expected: usize, got: usize },
    HeaderTooShort { expected: usize, got: usize },
    PayloadTooShort { expected: usize, got: usize },
    UnexpectedLength { expected: usize, got: usize },
}

/// Error returned when parsing an [`AdsFileStatus`](crate::AdsFileStatus) fails.
#[derive(Debug, Clone, PartialEq, Eq, Structural)]
pub enum AdsFileStatusError {
    UnexpectedLength { expected: usize, got: usize },
}

/// Error returned when parsing an [`AdsProductVersion`](crate::AdsProductVersion) fails.
#[derive(Debug, Clone, PartialEq, Eq, Structural)]
pub enum AdsProductVersionError {
    TooShort { expected: usize, got: usize },
}

/// Error returned when parsing an [`AdsSystemState`](crate::AdsSystemState) fails.
#[derive(Debug, Clone, PartialEq, Eq, Structural)]
pub enum AdsSystemStateError {
    TooShort { expected: usize, got: usize },
}

} // verus!
