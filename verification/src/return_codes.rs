//! Return codes of ADS operations.

use vstd::prelude::*;
use crate::bytes::{le_u32, spec_u32_array, u32_bytes, u32_from_le, u32_to_le, lemma_u32_roundtrip};
use crate::error::AdsReturnCodeError;
use crate::text::{hex_upper, push_hex_upper};

verus! {

/// ADS return codes representing the result of an ADS operation.
#[derive(Debug, Clone, Copy, PartialEq, Eq, Structural, Hash)]
pub enum AdsReturnCode {
    /// No Error (0x00)
    NoError,
    /// Internal error (0x1)
    ErrInternal,
    /// No real time (0x2)
    ErrNoRtime,
    /// Allocation locked – memory error (0x3)
    ErrAllocLockedMem,
    /// Mailbox full – the ADS message could not be sent. Reducing the number of ADS messages per cycle will help (0x4)
    ErrInsertMailbox,
    /// Wrong HMSG (0x5)
    ErrWrongReceiveHMsg,
    /// Target port not found – ADS server is not started, not reachable or not installed (0x6)
    ErrTargetPortNotFound,
    /// Target computer not found – AMS route was not found (0x7)
    ErrTargetMachineNotFound,
    /// Unknown command ID (0x8)
    ErrUnknownCmdId,
    /// Invalid task ID (0x9)
    ErrBadTaskId,
    /// No IO (0x0A)
    ErrNoIo,
    /// Unknown AMS command (0xB)
    ErrUnknownAmsCmd,
    /// Win32 error (0xC)
    ErrWin32Error,
    /// Port not connected (0xD)
    ErrPortNotConnected,
    /// Invalid AMS length (0xE)
    ErrInvalidAmsLength,
    /// Invalid AMS Net ID (0xF)
    ErrInvalidAmsNetId,
    /// Installation level is too low –TwinCAT 2 license error (0x10)
    ErrLowInstLevel,
    /// No debugging available (0x11)
    ErrNoDebug,
    /// Port disabled – TwinCAT system service not started (0x12)
    ErrPortDisabled,
    /// Port already connected (0x13)
    ErrPortAlreadyConnected,
    /// AMS Sync Win32 error (0x14)
    ErrAmsSyncW32Error,
    /// AMS Sync Timeout (0x15)
    ErrAmsSyncTimeout,
    /// AMS Sync error (0x16)
    ErrAmsSyncError,
    /// No index map for AMS Sync available (0x17)
    ErrAmsSyncNoIndexInMap,
    /// Invalid AMS port (0x18)
    ErrInvalidAmsPort,
    /// No memory (0x19)
    ErrNoMemory,
    /// TCP send error (0x1A)
    ErrTcpSend,
    /// Host unreachable (0x1B)
    ErrHostUnreachable,
    /// Invalid AMS fragment (0x1C)
    ErrInvalidAmsFragment,
    /// TLS send error – secure ADS connection failed (0x1D)
    ErrTlsSend,
    /// Access denied – secure ADS access denied (0x1E)
    ErrAccessDenied,
    /// Router: Locked memory cannot be allocated (0x500)
    RouterErrNoLockedMemory,
    /// Router: The router memory size could not be changed (0x501)
    RouterErrResizeMemory,
    /// Router: The mailbox has reached the maximum number of possible messages (0x502)
    RouterErrMailboxFull,
    /// Router: The Debug mailbox has reached the maximum number of possible messages (0x503)
    RouterErrDebugBoxFull,
    /// Router: The port type is unknown (0x504)
    RouterErrUnknownPortType,
    /// Router: The router is not initialized (0x505)
    RouterErrNotInitialized,
    /// Router: The port number is already assigned (0x506)
    RouterErrPortAlreadyInUse,
    /// Router: The port is not registered (0x507)
    RouterErrNotRegistered,
    /// Router: The maximum number of ports has been reached (0x508)
    RouterErrNoMoreQueues,
    /// Router: The port is invalid (0x509)
    RouterErrInvalidPort,
    /// Router: The router is not active (0x50A)
    RouterErrNotActivated,
    /// Router: The mailbox has reached the maximum number for fragmented messages (0x50B)
    RouterErrFragmentBoxFull,
    /// Router: A fragment timeout has occurred (0x50C)
    RouterErrFragmentTimeout,
    /// Router: The port is removed (0x50D)
    RouterErrToBeRemoved,
    /// ADS: General device error (0x700)
    AdsErrDeviceError,
    /// ADS: Service is not supported by the server (0x701)
    AdsErrDeviceSrvNotSupp,
    /// ADS: Invalid index group (0x702)
    AdsErrDeviceInvalidGrp,
    /// ADS: Invalid index offset (0x703)
    AdsErrDeviceInvalidOffset,
    /// ADS: Reading or writing not permitted. Several causes are possible. For example, an incorrect password was entered when creating routes (0x704)
    AdsErrDeviceInvalidAccess,
    /// ADS: Parameter size not correct (0x705)
    AdsErrDeviceInvalidSize,
    /// ADS: Invalid data values (0x706)
    AdsErrDeviceInvalidData,
    /// ADS: Device is not ready to operate (0x707)
    AdsErrDeviceNotReady,
    /// ADS: Device is busy (0x708)
    AdsErrDeviceBusy,
    /// ADS: Invalid operating system context. This can result from use of ADS blocks in different tasks. It may be possible to resolve this through multitasking synchronization in the PLC (0x709)
    AdsErrDeviceInvalidContext,
    /// ADS: Insufficient memory (0x70A)
    AdsErrDeviceNoMemory,
    /// ADS: Invalid parameter values (0x70B)
    AdsErrDeviceInvalidParm,
    /// ADS: Not found (files, ...) (0x70C)
    AdsErrDeviceNotFound,
    /// ADS: Syntax error in file or command (0x70D)
    AdsErrDeviceSyntax,
    /// ADS: Objects do not match (0x70E)
    AdsErrDeviceIncompatible,
    /// ADS: Object already exists (0x70F)
    AdsErrDeviceExists,
    /// ADS: Symbol not found (0x710)
    AdsErrDeviceSymbolNotFound,
    /// ADS: Invalid symbol version. This can occur due to an online change. Create a new handle (0x711)
    AdsErrDeviceSymbolVersionInvalid,
    /// ADS: Device (server) is in invalid state (0x712)
    AdsErrDeviceInvalidState,
    /// ADS: AdsTransMode not supported (0x713)
    AdsErrDeviceTransModeNotSupp,
    /// ADS: Notification handle is invalid (0x714)
    AdsErrDeviceNotifyHndInvalid,
    /// ADS: Notification client not registered (0x715)
    AdsErrDeviceClientUnknown,
    /// ADS: No further handle available (0x716)
    AdsErrDeviceNoMoreHdls,
    /// ADS: Notification size too large (0x717)
    AdsErrDeviceInvalidWatchSize,
    /// ADS: Device not initialized (0x718)
    AdsErrDeviceNotInit,
    /// ADS: Device has a timeout (0x719)
    AdsErrDeviceTimeout,
    /// ADS: Interface query failed (0x71A)
    AdsErrDeviceNoInterface,
    /// ADS: Wrong interface requested (0x71B)
    AdsErrDeviceInvalidInterface,
    /// ADS: Class ID is invalid (0x71C)
    AdsErrDeviceInvalidClsId,
    /// ADS: IObject ID is invalid (0x71D)
    AdsErrDeviceInvalidObjId,
    /// ADS: Request pending (0x71E)
    AdsErrDevicePending,
    /// ADS: Request is aborted (0x71F)
    AdsErrDeviceAborted,
    /// ADS: Signal warning (0x720)
    AdsErrDeviceWarning,
    /// ADS: Invalid array index (0x721)
    AdsErrDeviceInvalidArrayIdx,
    /// ADS: Symbol not active (0x722)
    AdsErrDeviceSymbolNotActive,
    /// ADS: Access denied.\nSeveral causes are possible. For example, a unidirectional ADS route is used in the opposite direction. (0x723)
    AdsErrDeviceAccessDenied,
    /// ADS: Missing license (0x724)
    AdsErrDeviceLicenseNotFound,
    /// ADS: License expired (0x725)
    AdsErrDeviceLicenseExpired,
    /// ADS: License exceeded (0x726)
    AdsErrDeviceLicenseExceeded,
    /// ADS: Invalid license (0x727)
    AdsErrDeviceLicenseInvalid,
    /// ADS: License problem: System ID is invalid (0x728)
    AdsErrDeviceLicenseSystemId,
    /// ADS: License not limited in time (0x729)
    AdsErrDeviceLicenseNoTimeLimit,
    /// ADS: Licensing problem: time in the future (0x72A)
    AdsErrDeviceLicenseFutureIssue,
    /// ADS: License period too long (0x72B)
    AdsErrDeviceLicenseTimeTooLong,
    /// ADS: Exception at system startup (0x72C)
    AdsErrDeviceException,
    /// ADS: License file read twice (0x72D)
    AdsErrDeviceLicenseDuplicated,
    /// ADS: Invalid signature (0x72E)
    AdsErrDeviceSignatureInvalid,
    /// ADS: Invalid certificate (0x72F)
    AdsErrDeviceCertificateInvalid,
    /// ADS: Public key not known from OEM (0x730)
    AdsErrDeviceLicenseOemNotFound,
    /// ADS: License not valid for this system ID (0x731)
    AdsErrDeviceLicenseRestricted,
    /// ADS: Demo license prohibited (0x732)
    AdsErrDeviceLicenseDemoDenied,
    /// ADS: Invalid function ID (0x733)
    AdsErrDeviceInvalidFncId,
    /// ADS: Outside the valid range (0x734)
    AdsErrDeviceOutOfRange,
    /// ADS: Invalid alignment (0x735)
    AdsErrDeviceInvalidAlignment,
    /// ADS: Invalid platform level (0x736)
    AdsErrDeviceLicensePlatform,
    /// ADS: Context – forward to passive level (0x737)
    AdsErrDeviceForwardPl,
    /// ADS: Context – forward to dispatch level (0x738)
    AdsErrDeviceForwardDl,
    /// ADS: Context – forward to real-time (0x739)
    AdsErrDeviceForwardRt,
    /// Client: Client error (0x740)
    AdsErrClientError,
    /// Client: Service contains an invalid parameter (0x741)
    AdsErrClientInvalidParm,
    /// Client: Polling list is empty (0x742)
    AdsErrClientListEmpty,
    /// Client: Var connection already in use (0x743)
    AdsErrClientVarUsed,
    /// Client: The called ID is already in use (0x744)
    AdsErrClientDuplInvokeId,
    /// Client: Timeout has occurred – the remote terminal is not responding in the specified ADS timeout. The route setting of the remote terminal may be configured incorrectly (0x745)
    AdsErrClientSyncTimeout,
    /// Client: Error in Win32 subsystem (0x746)
    AdsErrClientW32Error,
    /// Client: Invalid client timeout value (0x747)
    AdsErrClientTimeoutInvalid,
    /// Client: Port not open (0x748)
    AdsErrClientPortNotOpen,
    /// Client: No AMS address (0x749)
    AdsErrClientNoAmsAddr,
    /// Client: Internal error in Ads sync (0x750)
    AdsErrClientSyncInternal,
    /// Client: Hash table overflow (0x751)
    AdsErrClientAddHash,
    /// Client: Key not found in the table (0x752)
    AdsErrClientRemoveHash,
    /// Client: No symbols in the cache (0x753)
    AdsErrClientNoMoreSym,
    /// Client: Invalid response received (0x754)
    AdsErrClientSyncResInvalid,
    /// Client: Sync port is locked (0x755)
    AdsErrClientSyncPortLocked,
    /// Client: The request was canceled (0x756)
    AdsErrClientRequestCancelled,
    /// RTime: Internal error in the real-time system (0x1000)
    RtErrInternal,
    /// RTime: Timer value is not valid (0x1001)
    RtErrBadTimerPeriods,
    /// RTime: Task pointer has the invalid value 0 (zero) (0x1002)
    RtErrInvalidTaskPtr,
    /// RTime: Stack pointer has the invalid value 0 (zero) (0x1003)
    RtErrInvalidStackPtr,
    /// RTime: The request task priority is already assigned (0x1004)
    RtErrPrioExists,
    /// RTime: No free TCB (Task Control Block) available. The maximum number of TCBs is 64 (0x1005)
    RtErrNoMoreTcb,
    /// RTime: No free semaphores available. The maximum number of semaphores is 64 (0x1006)
    RtErrNoMoreSemas,
    /// RTime: No free space available in the queue. The maximum number of positions in the queue is 64 (0x1007)
    RtErrNoMoreQueues,
    /// RTime: An external synchronization interrupt is already applied (0x100D)
    RtErrExtIrqAlreadyDef,
    /// RTime: No external sync interrupt applied (0x100E)
    RtErrExtIrqNotDef,
    /// RTime: Application of the external synchronization interrupt has failed. (0x100F)
    RtErrExtIrqInstallFailed,
    /// RTime: Call of a service function in the wrong context (0x1010)
    RtErrIrqlNotLessOrEqual,
    /// RTime: Intel VT-x extension is not supported (0x1017)
    RtErrVmxNotSupported,
    /// RTime: Intel VT-x extension is not enabled in the BIOS (0x1018)
    RtErrVmxDisabled,
    /// RTime: Missing function in Intel VT-x extension (0x1019)
    RtErrVmxControlsMissing,
    /// RTime: Activation of Intel VT-x fails (0x101A)
    RtErrVmxEnableFails,
    /// Winsock: A connection timeout has occurred - error while establishing the connection, because the remote terminal did not respond properly after a certain period of time, or the established connection could not be maintained because the connected host did not respond (0x274C)
    WsaETimedOut,
    /// Winsock: Connection refused - no connection could be established because the target computer has explicitly rejected it. This error usually results from an attempt to connect to a service that is inactive on the external host, that is, a service for which no server application is running (0x274D)
    WsaEConnRefused,
    /// Winsock: No route to host - a socket operation referred to an unavailable host (0x2751)
    WsaEHostUnreach,
    /// A code not defined in the library.
    Unknown(u32),
}

/// The wire code of a [`AdsReturnCode`].
pub open spec fn ads_return_code_code(x: AdsReturnCode) -> u32 {
    match x {
        AdsReturnCode::NoError => 0x0,
        AdsReturnCode::ErrInternal => 0x01,
        AdsReturnCode::ErrNoRtime => 0x02,
        AdsReturnCode::ErrAllocLockedMem => 0x03,
        AdsReturnCode::ErrInsertMailbox => 0x04,
        AdsReturnCode::ErrWrongReceiveHMsg => 0x05,
        AdsReturnCode::ErrTargetPortNotFound => 0x06,
        AdsReturnCode::ErrTargetMachineNotFound => 0x07,
        AdsReturnCode::ErrUnknownCmdId => 0x08,
        AdsReturnCode::ErrBadTaskId => 0x09,
        AdsReturnCode::ErrNoIo => 0x0A,
        AdsReturnCode::ErrUnknownAmsCmd => 0x0B,
        AdsReturnCode::ErrWin32Error => 0x0C,
        AdsReturnCode::ErrPortNotConnected => 0x0D,
        AdsReturnCode::ErrInvalidAmsLength => 0x0E,
        AdsReturnCode::ErrInvalidAmsNetId => 0x0F,
        AdsReturnCode::ErrLowInstLevel => 0x10,
        AdsReturnCode::ErrNoDebug => 0x11,
        AdsReturnCode::ErrPortDisabled => 0x12,
        AdsReturnCode::ErrPortAlreadyConnected => 0x13,
        AdsReturnCode::ErrAmsSyncW32Error => 0x14,
        AdsReturnCode::ErrAmsSyncTimeout => 0x15,
        AdsReturnCode::ErrAmsSyncError => 0x16,
        AdsReturnCode::ErrAmsSyncNoIndexInMap => 0x17,
        AdsReturnCode::ErrInvalidAmsPort => 0x18,
        AdsReturnCode::ErrNoMemory => 0x19,
        AdsReturnCode::ErrTcpSend => 0x1A,
        AdsReturnCode::ErrHostUnreachable => 0x1B,
        AdsReturnCode::ErrInvalidAmsFragment => 0x1C,
        AdsReturnCode::ErrTlsSend => 0x1D,
        AdsReturnCode::ErrAccessDenied => 0x1E,
        AdsReturnCode::RouterErrNoLockedMemory => 0x500,
        AdsReturnCode::RouterErrResizeMemory => 0x501,
        AdsReturnCode::RouterErrMailboxFull => 0x502,
        AdsReturnCode::RouterErrDebugBoxFull => 0x503,
        AdsReturnCode::RouterErrUnknownPortType => 0x504,
        AdsReturnCode::RouterErrNotInitialized => 0x505,
        AdsReturnCode::RouterErrPortAlreadyInUse => 0x506,
        AdsReturnCode::RouterErrNotRegistered => 0x507,
        AdsReturnCode::RouterErrNoMoreQueues => 0x508,
        AdsReturnCode::RouterErrInvalidPort => 0x509,
        AdsReturnCode::RouterErrNotActivated => 0x50A,
        AdsReturnCode::RouterErrFragmentBoxFull => 0x50B,
        AdsReturnCode::RouterErrFragmentTimeout => 0x50C,
        AdsReturnCode::RouterErrToBeRemoved => 0x50D,
        AdsReturnCode::AdsErrDeviceError => 0x700,
        AdsReturnCode::AdsErrDeviceSrvNotSupp => 0x701,
        AdsReturnCode::AdsErrDeviceInvalidGrp => 0x702,
        AdsReturnCode::AdsErrDeviceInvalidOffset => 0x703,
        AdsReturnCode::AdsErrDeviceInvalidAccess => 0x704,
        AdsReturnCode::AdsErrDeviceInvalidSize => 0x705,
        AdsReturnCode::AdsErrDeviceInvalidData => 0x706,
        AdsReturnCode::AdsErrDeviceNotReady => 0x707,
        AdsReturnCode::AdsErrDeviceBusy => 0x708,
        AdsReturnCode::AdsErrDeviceInvalidContext => 0x709,
        AdsReturnCode::AdsErrDeviceNoMemory => 0x70A,
        AdsReturnCode::AdsErrDeviceInvalidParm => 0x70B,
        AdsReturnCode::AdsErrDeviceNotFound => 0x70C,
        AdsReturnCode::AdsErrDeviceSyntax => 0x70D,
        AdsReturnCode::AdsErrDeviceIncompatible => 0x70E,
        AdsReturnCode::AdsErrDeviceExists => 0x70F,
        AdsReturnCode::AdsErrDeviceSymbolNotFound => 0x710,
        AdsReturnCode::AdsErrDeviceSymbolVersionInvalid => 0x711,
        AdsReturnCode::AdsErrDeviceInvalidState => 0x712,
        AdsReturnCode::AdsErrDeviceTransModeNotSupp => 0x713,
        AdsReturnCode::AdsErrDeviceNotifyHndInvalid => 0x714,
        AdsReturnCode::AdsErrDeviceClientUnknown => 0x715,
        AdsReturnCode::AdsErrDeviceNoMoreHdls => 0x716,
        AdsReturnCode::AdsErrDeviceInvalidWatchSize => 0x717,
        AdsReturnCode::AdsErrDeviceNotInit => 0x718,
        AdsReturnCode::AdsErrDeviceTimeout => 0x719,
        AdsReturnCode::AdsErrDeviceNoInterface => 0x71A,
        AdsReturnCode::AdsErrDeviceInvalidInterface => 0x71B,
        AdsReturnCode::AdsErrDeviceInvalidClsId => 0x71C,
        AdsReturnCode::AdsErrDeviceInvalidObjId => 0x71D,
        AdsReturnCode::AdsErrDevicePending => 0x71E,
        AdsReturnCode::AdsErrDeviceAborted => 0x71F,
        AdsReturnCode::AdsErrDeviceWarning => 0x720,
        AdsReturnCode::AdsErrDeviceInvalidArrayIdx => 0x721,
        AdsReturnCode::AdsErrDeviceSymbolNotActive => 0x722,
        AdsReturnCode::AdsErrDeviceAccessDenied => 0x723,
        AdsReturnCode::AdsErrDeviceLicenseNotFound => 0x724,
        AdsReturnCode::AdsErrDeviceLicenseExpired => 0x725,
        AdsReturnCode::AdsErrDeviceLicenseExceeded => 0x726,
        AdsReturnCode::AdsErrDeviceLicenseInvalid => 0x727,
        AdsReturnCode::AdsErrDeviceLicenseSystemId => 0x728,
        AdsReturnCode::AdsErrDeviceLicenseNoTimeLimit => 0x729,
        AdsReturnCode::AdsErrDeviceLicenseFutureIssue => 0x72A,
        AdsReturnCode::AdsErrDeviceLicenseTimeTooLong => 0x72B,
        AdsReturnCode::AdsErrDeviceException => 0x72C,
        AdsReturnCode::AdsErrDeviceLicenseDuplicated => 0x72D,
        AdsReturnCode::AdsErrDeviceSignatureInvalid => 0x72E,
        AdsReturnCode::AdsErrDeviceCertificateInvalid => 0x72F,
        AdsReturnCode::AdsErrDeviceLicenseOemNotFound => 0x730,
        AdsReturnCode::AdsErrDeviceLicenseRestricted => 0x731,
        AdsReturnCode::AdsErrDeviceLicenseDemoDenied => 0x732,
        AdsReturnCode::AdsErrDeviceInvalidFncId => 0x733,
        AdsReturnCode::AdsErrDeviceOutOfRange => 0x734,
        AdsReturnCode::AdsErrDeviceInvalidAlignment => 0x735,
        AdsReturnCode::AdsErrDeviceLicensePlatform => 0x736,
        AdsReturnCode::AdsErrDeviceForwardPl => 0x737,
        AdsReturnCode::AdsErrDeviceForwardDl => 0x738,
        AdsReturnCode::AdsErrDeviceForwardRt => 0x739,
        AdsReturnCode::AdsErrClientError => 0x740,
        AdsReturnCode::AdsErrClientInvalidParm => 0x741,
        AdsReturnCode::AdsErrClientListEmpty => 0x742,
        AdsReturnCode::AdsErrClientVarUsed => 0x743,
        AdsReturnCode::AdsErrClientDuplInvokeId => 0x744,
        AdsReturnCode::AdsErrClientSyncTimeout => 0x745,
        AdsReturnCode::AdsErrClientW32Error => 0x746,
        AdsReturnCode::AdsErrClientTimeoutInvalid => 0x747,
        AdsReturnCode::AdsErrClientPortNotOpen => 0x748,
        AdsReturnCode::AdsErrClientNoAmsAddr => 0x749,
        AdsReturnCode::AdsErrClientSyncInternal => 0x750,
        AdsReturnCode::AdsErrClientAddHash => 0x751,
        AdsReturnCode::AdsErrClientRemoveHash => 0x752,
        AdsReturnCode::AdsErrClientNoMoreSym => 0x753,
        AdsReturnCode::AdsErrClientSyncResInvalid => 0x754,
        AdsReturnCode::AdsErrClientSyncPortLocked => 0x755,
        AdsReturnCode::AdsErrClientRequestCancelled => 0x756,
        AdsReturnCode::RtErrInternal => 0x1000,
        AdsReturnCode::RtErrBadTimerPeriods => 0x1001,
        AdsReturnCode::RtErrInvalidTaskPtr => 0x1002,
        AdsReturnCode::RtErrInvalidStackPtr => 0x1003,
        AdsReturnCode::RtErrPrioExists => 0x1004,
        AdsReturnCode::RtErrNoMoreTcb => 0x1005,
        AdsReturnCode::RtErrNoMoreSemas => 0x1006,
        AdsReturnCode::RtErrNoMoreQueues => 0x1007,
        AdsReturnCode::RtErrExtIrqAlreadyDef => 0x100D,
        AdsReturnCode::RtErrExtIrqNotDef => 0x100E,
        AdsReturnCode::RtErrExtIrqInstallFailed => 0x100F,
        AdsReturnCode::RtErrIrqlNotLessOrEqual => 0x1010,
        AdsReturnCode::RtErrVmxNotSupported => 0x1017,
        AdsReturnCode::RtErrVmxDisabled => 0x1018,
        AdsReturnCode::RtErrVmxControlsMissing => 0x1019,
        AdsReturnCode::RtErrVmxEnableFails => 0x101A,
        AdsReturnCode::WsaETimedOut => 10060,
        AdsReturnCode::WsaEConnRefused => 10061,
        AdsReturnCode::WsaEHostUnreach => 10065,
        AdsReturnCode::Unknown(n) => n,
    }
}

/// The [`AdsReturnCode`] that a wire code denotes.
pub open spec fn ads_return_code_of(v: u32) -> AdsReturnCode {
    match v {
        0x0 => AdsReturnCode::NoError,
        0x01 => AdsReturnCode::ErrInternal,
        0x02 => AdsReturnCode::ErrNoRtime,
        0x03 => AdsReturnCode::ErrAllocLockedMem,
        0x04 => AdsReturnCode::ErrInsertMailbox,
        0x05 => AdsReturnCode::ErrWrongReceiveHMsg,
        0x06 => AdsReturnCode::ErrTargetPortNotFound,
        0x07 => AdsReturnCode::ErrTargetMachineNotFound,
        0x08 => AdsReturnCode::ErrUnknownCmdId,
        0x09 => AdsReturnCode::ErrBadTaskId,
        0x0A => AdsReturnCode::ErrNoIo,
        0x0B => AdsReturnCode::ErrUnknownAmsCmd,
        0x0C => AdsReturnCode::ErrWin32Error,
        0x0D => AdsReturnCode::ErrPortNotConnected,
        0x0E => AdsReturnCode::ErrInvalidAmsLength,
        0x0F => AdsReturnCode::ErrInvalidAmsNetId,
        0x10 => AdsReturnCode::ErrLowInstLevel,
        0x11 => AdsReturnCode::ErrNoDebug,
        0x12 => AdsReturnCode::ErrPortDisabled,
        0x13 => AdsReturnCode::ErrPortAlreadyConnected,
        0x14 => AdsReturnCode::ErrAmsSyncW32Error,
        0x15 => AdsReturnCode::ErrAmsSyncTimeout,
        0x16 => AdsReturnCode::ErrAmsSyncError,
        0x17 => AdsReturnCode::ErrAmsSyncNoIndexInMap,
        0x18 => AdsReturnCode::ErrInvalidAmsPort,
        0x19 => AdsReturnCode::ErrNoMemory,
        0x1A => AdsReturnCode::ErrTcpSend,
        0x1B => AdsReturnCode::ErrHostUnreachable,
        0x1C => AdsReturnCode::ErrInvalidAmsFragment,
        0x1D => AdsReturnCode::ErrTlsSend,
        0x1E => AdsReturnCode::ErrAccessDenied,
        0x500 => AdsReturnCode::RouterErrNoLockedMemory,
        0x501 => AdsReturnCode::RouterErrResizeMemory,
        0x502 => AdsReturnCode::RouterErrMailboxFull,
        0x503 => AdsReturnCode::RouterErrDebugBoxFull,
        0x504 => AdsReturnCode::RouterErrUnknownPortType,
        0x505 => AdsReturnCode::RouterErrNotInitialized,
        0x506 => AdsReturnCode::RouterErrPortAlreadyInUse,
        0x507 => AdsReturnCode::RouterErrNotRegistered,
        0x508 => AdsReturnCode::RouterErrNoMoreQueues,
        0x509 => AdsReturnCode::RouterErrInvalidPort,
        0x50A => AdsReturnCode::RouterErrNotActivated,
        0x50B => AdsReturnCode::RouterErrFragmentBoxFull,
        0x50C => AdsReturnCode::RouterErrFragmentTimeout,
        0x50D => AdsReturnCode::RouterErrToBeRemoved,
        0x700 => AdsReturnCode::AdsErrDeviceError,
        0x701 => AdsReturnCode::AdsErrDeviceSrvNotSupp,
        0x702 => AdsReturnCode::AdsErrDeviceInvalidGrp,
        0x703 => AdsReturnCode::AdsErrDeviceInvalidOffset,
        0x704 => AdsReturnCode::AdsErrDeviceInvalidAccess,
        0x705 => AdsReturnCode::AdsErrDeviceInvalidSize,
        0x706 => AdsReturnCode::AdsErrDeviceInvalidData,
        0x707 => AdsReturnCode::AdsErrDeviceNotReady,
        0x708 => AdsReturnCode::AdsErrDeviceBusy,
        0x709 => AdsReturnCode::AdsErrDeviceInvalidContext,
        0x70A => AdsReturnCode::AdsErrDeviceNoMemory,
        0x70B => AdsReturnCode::AdsErrDeviceInvalidParm,
        0x70C => AdsReturnCode::AdsErrDeviceNotFound,
        0x70D => AdsReturnCode::AdsErrDeviceSyntax,
        0x70E => AdsReturnCode::AdsErrDeviceIncompatible,
        0x70F => AdsReturnCode::AdsErrDeviceExists,
        0x710 => AdsReturnCode::AdsErrDeviceSymbolNotFound,
        0x711 => AdsReturnCode::AdsErrDeviceSymbolVersionInvalid,
        0x712 => AdsReturnCode::AdsErrDeviceInvalidState,
        0x713 => AdsReturnCode::AdsErrDeviceTransModeNotSupp,
        0x714 => AdsReturnCode::AdsErrDeviceNotifyHndInvalid,
        0x715 => AdsReturnCode::AdsErrDeviceClientUnknown,
        0x716 => AdsReturnCode::AdsErrDeviceNoMoreHdls,
        0x717 => AdsReturnCode::AdsErrDeviceInvalidWatchSize,
        0x718 => AdsReturnCode::AdsErrDeviceNotInit,
        0x719 => AdsReturnCode::AdsErrDeviceTimeout,
        0x71A => AdsReturnCode::AdsErrDeviceNoInterface,
        0x71B => AdsReturnCode::AdsErrDeviceInvalidInterface,
        0x71C => AdsReturnCode::AdsErrDeviceInvalidClsId,
        0x71D => AdsReturnCode::AdsErrDeviceInvalidObjId,
        0x71E => AdsReturnCode::AdsErrDevicePending,
        0x71F => AdsReturnCode::AdsErrDeviceAborted,
        0x720 => AdsReturnCode::AdsErrDeviceWarning,
        0x721 => AdsReturnCode::AdsErrDeviceInvalidArrayIdx,
        0x722 => AdsReturnCode::AdsErrDeviceSymbolNotActive,
        0x723 => AdsReturnCode::AdsErrDeviceAccessDenied,
        0x724 => AdsReturnCode::AdsErrDeviceLicenseNotFound,
        0x725 => AdsReturnCode::AdsErrDeviceLicenseExpired,
        0x726 => AdsReturnCode::AdsErrDeviceLicenseExceeded,
        0x727 => AdsReturnCode::AdsErrDeviceLicenseInvalid,
        0x728 => AdsReturnCode::AdsErrDeviceLicenseSystemId,
        0x729 => AdsReturnCode::AdsErrDeviceLicenseNoTimeLimit,
        0x72A => AdsReturnCode::AdsErrDeviceLicenseFutureIssue,
        0x72B => AdsReturnCode::AdsErrDeviceLicenseTimeTooLong,
        0x72C => AdsReturnCode::AdsErrDeviceException,
        0x72D => AdsReturnCode::AdsErrDeviceLicenseDuplicated,
        0x72E => AdsReturnCode::AdsErrDeviceSignatureInvalid,
        0x72F => AdsReturnCode::AdsErrDeviceCertificateInvalid,
        0x730 => AdsReturnCode::AdsErrDeviceLicenseOemNotFound,
        0x731 => AdsReturnCode::AdsErrDeviceLicenseRestricted,
        0x732 => AdsReturnCode::AdsErrDeviceLicenseDemoDenied,
        0x733 => AdsReturnCode::AdsErrDeviceInvalidFncId,
        0x734 => AdsReturnCode::AdsErrDeviceOutOfRange,
        0x735 => AdsReturnCode::AdsErrDeviceInvalidAlignment,
        0x736 => AdsReturnCode::AdsErrDeviceLicensePlatform,
        0x737 => AdsReturnCode::AdsErrDeviceForwardPl,
        0x738 => AdsReturnCode::AdsErrDeviceForwardDl,
        0x739 => AdsReturnCode::AdsErrDeviceForwardRt,
        0x740 => AdsReturnCode::AdsErrClientError,
        0x741 => AdsReturnCode::AdsErrClientInvalidParm,
        0x742 => AdsReturnCode::AdsErrClientListEmpty,
        0x743 => AdsReturnCode::AdsErrClientVarUsed,
        0x744 => AdsReturnCode::AdsErrClientDuplInvokeId,
        0x745 => AdsReturnCode::AdsErrClientSyncTimeout,
        0x746 => AdsReturnCode::AdsErrClientW32Error,
        0x747 => AdsReturnCode::AdsErrClientTimeoutInvalid,
        0x748 => AdsReturnCode::AdsErrClientPortNotOpen,
        0x749 => AdsReturnCode::AdsErrClientNoAmsAddr,
        0x750 => AdsReturnCode::AdsErrClientSyncInternal,
        0x751 => AdsReturnCode::AdsErrClientAddHash,
        0x752 => AdsReturnCode::AdsErrClientRemoveHash,
        0x753 => AdsReturnCode::AdsErrClientNoMoreSym,
        0x754 => AdsReturnCode::AdsErrClientSyncResInvalid,
        0x755 => AdsReturnCode::AdsErrClientSyncPortLocked,
        0x756 => AdsReturnCode::AdsErrClientRequestCancelled,
        0x1000 => AdsReturnCode::RtErrInternal,
        0x1001 => AdsReturnCode::RtErrBadTimerPeriods,
        0x1002 => AdsReturnCode::RtErrInvalidTaskPtr,
        0x1003 => AdsReturnCode::RtErrInvalidStackPtr,
        0x1004 => AdsReturnCode::RtErrPrioExists,
        0x1005 => AdsReturnCode::RtErrNoMoreTcb,
        0x1006 => AdsReturnCode::RtErrNoMoreSemas,
        0x1007 => AdsReturnCode::RtErrNoMoreQueues,
        0x100D => AdsReturnCode::RtErrExtIrqAlreadyDef,
        0x100E => AdsReturnCode::RtErrExtIrqNotDef,
        0x100F => AdsReturnCode::RtErrExtIrqInstallFailed,
        0x1010 => AdsReturnCode::RtErrIrqlNotLessOrEqual,
        0x1017 => AdsReturnCode::RtErrVmxNotSupported,
        0x1018 => AdsReturnCode::RtErrVmxDisabled,
        0x1019 => AdsReturnCode::RtErrVmxControlsMissing,
        0x101A => AdsReturnCode::RtErrVmxEnableFails,
        10060 => AdsReturnCode::WsaETimedOut,
        10061 => AdsReturnCode::WsaEConnRefused,
        10065 => AdsReturnCode::WsaEHostUnreach,
        _ => AdsReturnCode::Unknown(v),
    }
}

/// A value is canonical when an `Unknown` payload is none of the named codes.
pub open spec fn ads_return_code_canonical(x: AdsReturnCode) -> bool {
    match x {
        AdsReturnCode::Unknown(n) => n != 0x0 && n != 0x01 && n != 0x02 && n != 0x03 && n != 0x04 && n != 0x05 && n != 0x06 && n != 0x07 && n != 0x08 && n != 0x09 && n != 0x0A && n != 0x0B && n != 0x0C && n != 0x0D && n != 0x0E && n != 0x0F && n != 0x10 && n != 0x11 && n != 0x12 && n != 0x13 && n != 0x14 && n != 0x15 && n != 0x16 && n != 0x17 && n != 0x18 && n != 0x19 && n != 0x1A && n != 0x1B && n != 0x1C && n != 0x1D && n != 0x1E && n != 0x500 && n != 0x501 && n != 0x502 && n != 0x503 && n != 0x504 && n != 0x505 && n != 0x506 && n != 0x507 && n != 0x508 && n != 0x509 && n != 0x50A && n != 0x50B && n != 0x50C && n != 0x50D && n != 0x700 && n != 0x701 && n != 0x702 && n != 0x703 && n != 0x704 && n != 0x705 && n != 0x706 && n != 0x707 && n != 0x708 && n != 0x709 && n != 0x70A && n != 0x70B && n != 0x70C && n != 0x70D && n != 0x70E && n != 0x70F && n != 0x710 && n != 0x711 && n != 0x712 && n != 0x713 && n != 0x714 && n != 0x715 && n != 0x716 && n != 0x717 && n != 0x718 && n != 0x719 && n != 0x71A && n != 0x71B && n != 0x71C && n != 0x71D && n != 0x71E && n != 0x71F && n != 0x720 && n != 0x721 && n != 0x722 && n != 0x723 && n != 0x724 && n != 0x725 && n != 0x726 && n != 0x727 && n != 0x728 && n != 0x729 && n != 0x72A && n != 0x72B && n != 0x72C && n != 0x72D && n != 0x72E && n != 0x72F && n != 0x730 && n != 0x731 && n != 0x732 && n != 0x733 && n != 0x734 && n != 0x735 && n != 0x736 && n != 0x737 && n != 0x738 && n != 0x739 && n != 0x740 && n != 0x741 && n != 0x742 && n != 0x743 && n != 0x744 && n != 0x745 && n != 0x746 && n != 0x747 && n != 0x748 && n != 0x749 && n != 0x750 && n != 0x751 && n != 0x752 && n != 0x753 && n != 0x754 && n != 0x755 && n != 0x756 && n != 0x1000 && n != 0x1001 && n != 0x1002 && n != 0x1003 && n != 0x1004 && n != 0x1005 && n != 0x1006 && n != 0x1007 && n != 0x100D && n != 0x100E && n != 0x100F && n != 0x1010 && n != 0x1017 && n != 0x1018 && n != 0x1019 && n != 0x101A && n != 10060 && n != 10061 && n != 10065,
        _ => true,
    }
}

/// The text of a return code: its description with its code in hexadecimal.
pub open spec fn ads_return_code_text(x: AdsReturnCode) -> Seq<char> {
    match x {
        AdsReturnCode::NoError => "No Error (0x00)"@,
        AdsReturnCode::ErrInternal => "Internal error (0x1)"@,
        AdsReturnCode::ErrNoRtime => "No real time (0x2)"@,
        AdsReturnCode::ErrAllocLockedMem => "Allocation locked – memory error (0x3)"@,
        AdsReturnCode::ErrInsertMailbox => "Mailbox full – the ADS message could not be sent. Reducing the number of ADS messages per cycle will help (0x4)"@,
        AdsReturnCode::ErrWrongReceiveHMsg => "Wrong HMSG (0x5)"@,
        AdsReturnCode::ErrTargetPortNotFound => "Target port not found – ADS server is not started, not reachable or not installed (0x6)"@,
        AdsReturnCode::ErrTargetMachineNotFound => "Target computer not found – AMS route was not found (0x7)"@,
        AdsReturnCode::ErrUnknownCmdId => "Unknown command ID (0x8)"@,
        AdsReturnCode::ErrBadTaskId => "Invalid task ID (0x9)"@,
        AdsReturnCode::ErrNoIo => "No IO (0x0A)"@,
        AdsReturnCode::ErrUnknownAmsCmd => "Unknown AMS command (0xB)"@,
        AdsReturnCode::ErrWin32Error => "Win32 error (0xC)"@,
        AdsReturnCode::ErrPortNotConnected => "Port not connected (0xD)"@,
        AdsReturnCode::ErrInvalidAmsLength => "Invalid AMS length (0xE)"@,
        AdsReturnCode::ErrInvalidAmsNetId => "Invalid AMS Net ID (0xF)"@,
        AdsReturnCode::ErrLowInstLevel => "Installation level is too low –TwinCAT 2 license error (0x10)"@,
        AdsReturnCode::ErrNoDebug => "No debugging available (0x11)"@,
        AdsReturnCode::ErrPortDisabled => "Port disabled – TwinCAT system service not started (0x12)"@,
        AdsReturnCode::ErrPortAlreadyConnected => "Port already connected (0x13)"@,
        AdsReturnCode::ErrAmsSyncW32Error => "AMS Sync Win32 error (0x14)"@,
        AdsReturnCode::ErrAmsSyncTimeout => "AMS Sync Timeout (0x15)"@,
        AdsReturnCode::ErrAmsSyncError => "AMS Sync error (0x16)"@,
        AdsReturnCode::ErrAmsSyncNoIndexInMap => "No index map for AMS Sync available (0x17)"@,
        AdsReturnCode::ErrInvalidAmsPort => "Invalid AMS port (0x18)"@,
        AdsReturnCode::ErrNoMemory => "No memory (0x19)"@,
        AdsReturnCode::ErrTcpSend => "TCP send error (0x1A)"@,
        AdsReturnCode::ErrHostUnreachable => "Host unreachable (0x1B)"@,
        AdsReturnCode::ErrInvalidAmsFragment => "Invalid AMS fragment (0x1C)"@,
        AdsReturnCode::ErrTlsSend => "TLS send error – secure ADS connection failed (0x1D)"@,
        AdsReturnCode::ErrAccessDenied => "Access denied – secure ADS access denied (0x1E)"@,
        AdsReturnCode::RouterErrNoLockedMemory => "Router: Locked memory cannot be allocated (0x500)"@,
        AdsReturnCode::RouterErrResizeMemory => "Router: The router memory size could not be changed (0x501)"@,
        AdsReturnCode::RouterErrMailboxFull => "Router: The mailbox has reached the maximum number of possible messages (0x502)"@,
        AdsReturnCode::RouterErrDebugBoxFull => "Router: The Debug mailbox has reached the maximum number of possible messages (0x503)"@,
        AdsReturnCode::RouterErrUnknownPortType => "Router: The port type is unknown (0x504)"@,
        AdsReturnCode::RouterErrNotInitialized => "Router: The router is not initialized (0x505)"@,
        AdsReturnCode::RouterErrPortAlreadyInUse => "Router: The port number is already assigned (0x506)"@,
        AdsReturnCode::RouterErrNotRegistered => "Router: The port is not registered (0x507)"@,
        AdsReturnCode::RouterErrNoMoreQueues => "Router: The maximum number of ports has been reached (0x508)"@,
        AdsReturnCode::RouterErrInvalidPort => "Router: The port is invalid (0x509)"@,
        AdsReturnCode::RouterErrNotActivated => "Router: The router is not active (0x50A)"@,
        AdsReturnCode::RouterErrFragmentBoxFull => "Router: The mailbox has reached the maximum number for fragmented messages (0x50B)"@,
        AdsReturnCode::RouterErrFragmentTimeout => "Router: A fragment timeout has occurred (0x50C)"@,
        AdsReturnCode::RouterErrToBeRemoved => "Router: The port is removed (0x50D)"@,
        AdsReturnCode::AdsErrDeviceError => "ADS: General device error (0x700)"@,
        AdsReturnCode::AdsErrDeviceSrvNotSupp => "ADS: Service is not supported by the server (0x701)"@,
        AdsReturnCode::AdsErrDeviceInvalidGrp => "ADS: Invalid index group (0x702)"@,
        AdsReturnCode::AdsErrDeviceInvalidOffset => "ADS: Invalid index offset (0x703)"@,
        AdsReturnCode::AdsErrDeviceInvalidAccess => "ADS: Reading or writing not permitted. Several causes are possible. For example, an incorrect password was entered when creating routes (0x704)"@,
        AdsReturnCode::AdsErrDeviceInvalidSize => "ADS: Parameter size not correct (0x705)"@,
        AdsReturnCode::AdsErrDeviceInvalidData => "ADS: Invalid data values (0x706)"@,
        AdsReturnCode::AdsErrDeviceNotReady => "ADS: Device is not ready to operate (0x707)"@,
        AdsReturnCode::AdsErrDeviceBusy => "ADS: Device is busy (0x708)"@,
        AdsReturnCode::AdsErrDeviceInvalidContext => "ADS: Invalid operating system context. This can result from use of ADS blocks in different tasks. It may be possible to resolve this through multitasking synchronization in the PLC (0x709)"@,
        AdsReturnCode::AdsErrDeviceNoMemory => "ADS: Insufficient memory (0x70A)"@,
        AdsReturnCode::AdsErrDeviceInvalidParm => "ADS: Invalid parameter values (0x70B)"@,
        AdsReturnCode::AdsErrDeviceNotFound => "ADS: Not found (files, ...) (0x70C)"@,
        AdsReturnCode::AdsErrDeviceSyntax => "ADS: Syntax error in file or command (0x70D)"@,
        AdsReturnCode::AdsErrDeviceIncompatible => "ADS: Objects do not match (0x70E)"@,
        AdsReturnCode::AdsErrDeviceExists => "ADS: Object already exists (0x70F)"@,
        AdsReturnCode::AdsErrDeviceSymbolNotFound => "ADS: Symbol not found (0x710)"@,
        AdsReturnCode::AdsErrDeviceSymbolVersionInvalid => "ADS: Invalid symbol version. This can occur due to an online change. Create a new handle (0x711)"@,
        AdsReturnCode::AdsErrDeviceInvalidState => "ADS: Device (server) is in invalid state (0x712)"@,
        AdsReturnCode::AdsErrDeviceTransModeNotSupp => "ADS: AdsTransMode not supported (0x713)"@,
        AdsReturnCode::AdsErrDeviceNotifyHndInvalid => "ADS: Notification handle is invalid (0x714)"@,
        AdsReturnCode::AdsErrDeviceClientUnknown => "ADS: Notification client not registered (0x715)"@,
        AdsReturnCode::AdsErrDeviceNoMoreHdls => "ADS: No further handle available (0x716)"@,
        AdsReturnCode::AdsErrDeviceInvalidWatchSize => "ADS: Notification size too large (0x717)"@,
        AdsReturnCode::AdsErrDeviceNotInit => "ADS: Device not initialized (0x718)"@,
        AdsReturnCode::AdsErrDeviceTimeout => "ADS: Device has a timeout (0x719)"@,
        AdsReturnCode::AdsErrDeviceNoInterface => "ADS: Interface query failed (0x71A)"@,
        AdsReturnCode::AdsErrDeviceInvalidInterface => "ADS: Wrong interface requested (0x71B)"@,
        AdsReturnCode::AdsErrDeviceInvalidClsId => "ADS: Class ID is invalid (0x71C)"@,
        AdsReturnCode::AdsErrDeviceInvalidObjId => "ADS: IObject ID is invalid (0x71D)"@,
        AdsReturnCode::AdsErrDevicePending => "ADS: Request pending (0x71E)"@,
        AdsReturnCode::AdsErrDeviceAborted => "ADS: Request is aborted (0x71F)"@,
        AdsReturnCode::AdsErrDeviceWarning => "ADS: Signal warning (0x720)"@,
        AdsReturnCode::AdsErrDeviceInvalidArrayIdx => "ADS: Invalid array index (0x721)"@,
        AdsReturnCode::AdsErrDeviceSymbolNotActive => "ADS: Symbol not active (0x722)"@,
        AdsReturnCode::AdsErrDeviceAccessDenied => "ADS: Access denied.\nSeveral causes are possible. For example, a unidirectional ADS route is used in the opposite direction. (0x723)"@,
        AdsReturnCode::AdsErrDeviceLicenseNotFound => "ADS: Missing license (0x724)"@,
        AdsReturnCode::AdsErrDeviceLicenseExpired => "ADS: License expired (0x725)"@,
        AdsReturnCode::AdsErrDeviceLicenseExceeded => "ADS: License exceeded (0x726)"@,
        AdsReturnCode::AdsErrDeviceLicenseInvalid => "ADS: Invalid license (0x727)"@,
        AdsReturnCode::AdsErrDeviceLicenseSystemId => "ADS: License problem: System ID is invalid (0x728)"@,
        AdsReturnCode::AdsErrDeviceLicenseNoTimeLimit => "ADS: License not limited in time (0x729)"@,
        AdsReturnCode::AdsErrDeviceLicenseFutureIssue => "ADS: Licensing problem: time in the future (0x72A)"@,
        AdsReturnCode::AdsErrDeviceLicenseTimeTooLong => "ADS: License period too long (0x72B)"@,
        AdsReturnCode::AdsErrDeviceException => "ADS: Exception at system startup (0x72C)"@,
        AdsReturnCode::AdsErrDeviceLicenseDuplicated => "ADS: License file read twice (0x72D)"@,
        AdsReturnCode::AdsErrDeviceSignatureInvalid => "ADS: Invalid signature (0x72E)"@,
        AdsReturnCode::AdsErrDeviceCertificateInvalid => "ADS: Invalid certificate (0x72F)"@,
        AdsReturnCode::AdsErrDeviceLicenseOemNotFound => "ADS: Public key not known from OEM (0x730)"@,
        AdsReturnCode::AdsErrDeviceLicenseRestricted => "ADS: License not valid for this system ID (0x731)"@,
        AdsReturnCode::AdsErrDeviceLicenseDemoDenied => "ADS: Demo license prohibited (0x732)"@,
        AdsReturnCode::AdsErrDeviceInvalidFncId => "ADS: Invalid function ID (0x733)"@,
        AdsReturnCode::AdsErrDeviceOutOfRange => "ADS: Outside the valid range (0x734)"@,
        AdsReturnCode::AdsErrDeviceInvalidAlignment => "ADS: Invalid alignment (0x735)"@,
        AdsReturnCode::AdsErrDeviceLicensePlatform => "ADS: Invalid platform level (0x736)"@,
        AdsReturnCode::AdsErrDeviceForwardPl => "ADS: Context – forward to passive level (0x737)"@,
        AdsReturnCode::AdsErrDeviceForwardDl => "ADS: Context – forward to dispatch level (0x738)"@,
        AdsReturnCode::AdsErrDeviceForwardRt => "ADS: Context – forward to real-time (0x739)"@,
        AdsReturnCode::AdsErrClientError => "Client: Client error (0x740)"@,
        AdsReturnCode::AdsErrClientInvalidParm => "Client: Service contains an invalid parameter (0x741)"@,
        AdsReturnCode::AdsErrClientListEmpty => "Client: Polling list is empty (0x742)"@,
        AdsReturnCode::AdsErrClientVarUsed => "Client: Var connection already in use (0x743)"@,
        AdsReturnCode::AdsErrClientDuplInvokeId => "Client: The called ID is already in use (0x744)"@,
        AdsReturnCode::AdsErrClientSyncTimeout => "Client: Timeout has occurred – the remote terminal is not responding in the specified ADS timeout. The route setting of the remote terminal may be configured incorrectly (0x745)"@,
        AdsReturnCode::AdsErrClientW32Error => "Client: Error in Win32 subsystem (0x746)"@,
        AdsReturnCode::AdsErrClientTimeoutInvalid => "Client: Invalid client timeout value (0x747)"@,
        AdsReturnCode::AdsErrClientPortNotOpen => "Client: Port not open (0x748)"@,
        AdsReturnCode::AdsErrClientNoAmsAddr => "Client: No AMS address (0x749)"@,
        AdsReturnCode::AdsErrClientSyncInternal => "Client: Internal error in Ads sync (0x750)"@,
        AdsReturnCode::AdsErrClientAddHash => "Client: Hash table overflow (0x751)"@,
        AdsReturnCode::AdsErrClientRemoveHash => "Client: Key not found in the table (0x752)"@,
        AdsReturnCode::AdsErrClientNoMoreSym => "Client: No symbols in the cache (0x753)"@,
        AdsReturnCode::AdsErrClientSyncResInvalid => "Client: Invalid response received (0x754)"@,
        AdsReturnCode::AdsErrClientSyncPortLocked => "Client: Sync port is locked (0x755)"@,
        AdsReturnCode::AdsErrClientRequestCancelled => "Client: The request was canceled (0x756)"@,
        AdsReturnCode::RtErrInternal => "RTime: Internal error in the real-time system (0x1000)"@,
        AdsReturnCode::RtErrBadTimerPeriods => "RTime: Timer value is not valid (0x1001)"@,
        AdsReturnCode::RtErrInvalidTaskPtr => "RTime: Task pointer has the invalid value 0 (zero) (0x1002)"@,
        AdsReturnCode::RtErrInvalidStackPtr => "RTime: Stack pointer has the invalid value 0 (zero) (0x1003)"@,
        AdsReturnCode::RtErrPrioExists => "RTime: The request task priority is already assigned (0x1004)"@,
        AdsReturnCode::RtErrNoMoreTcb => "RTime: No free TCB (Task Control Block) available. The maximum number of TCBs is 64 (0x1005)"@,
        AdsReturnCode::RtErrNoMoreSemas => "RTime: No free semaphores available. The maximum number of semaphores is 64 (0x1006)"@,
        AdsReturnCode::RtErrNoMoreQueues => "RTime: No free space available in the queue. The maximum number of positions in the queue is 64 (0x1007)"@,
        AdsReturnCode::RtErrExtIrqAlreadyDef => "RTime: An external synchronization interrupt is already applied (0x100D)"@,
        AdsReturnCode::RtErrExtIrqNotDef => "RTime: No external sync interrupt applied (0x100E)"@,
        AdsReturnCode::RtErrExtIrqInstallFailed => "RTime: Application of the external synchronization interrupt has failed. (0x100F)"@,
        AdsReturnCode::RtErrIrqlNotLessOrEqual => "RTime: Call of a service function in the wrong context (0x1010)"@,
        AdsReturnCode::RtErrVmxNotSupported => "RTime: Intel VT-x extension is not supported (0x1017)"@,
        AdsReturnCode::RtErrVmxDisabled => "RTime: Intel VT-x extension is not enabled in the BIOS (0x1018)"@,
        AdsReturnCode::RtErrVmxControlsMissing => "RTime: Missing function in Intel VT-x extension (0x1019)"@,
        AdsReturnCode::RtErrVmxEnableFails => "RTime: Activation of Intel VT-x fails (0x101A)"@,
        AdsReturnCode::WsaETimedOut => "Winsock: A connection timeout has occurred - error while establishing the connection, because the remote terminal did not respond properly after a certain period of time, or the established connection could not be maintained because the connected host did not respond (0x274C)"@,
        AdsReturnCode::WsaEConnRefused => "Winsock: Connection refused - no connection could be established because the target computer has explicitly rejected it. This error usually results from an attempt to connect to a service that is inactive on the external host, that is, a service for which no server application is running (0x274D)"@,
        AdsReturnCode::WsaEHostUnreach => "Winsock: No route to host - a socket operation referred to an unavailable host (0x2751)"@,
        AdsReturnCode::Unknown(n) => "Unknown ADS Return Code: 0x"@ + hex_upper(n as nat),
    }
}

impl AdsReturnCode {
    /// Wire size in bytes.
    pub const LENGTH: usize = 4;

    /// The value that a wire code denotes.
    pub fn from_u32(v: u32) -> (r: AdsReturnCode)
        ensures
            r == ads_return_code_of(v),
    {
        match v {
            0x0 => AdsReturnCode::NoError,
            0x01 => AdsReturnCode::ErrInternal,
            0x02 => AdsReturnCode::ErrNoRtime,
            0x03 => AdsReturnCode::ErrAllocLockedMem,
            0x04 => AdsReturnCode::ErrInsertMailbox,
            0x05 => AdsReturnCode::ErrWrongReceiveHMsg,
            0x06 => AdsReturnCode::ErrTargetPortNotFound,
            0x07 => AdsReturnCode::ErrTargetMachineNotFound,
            0x08 => AdsReturnCode::ErrUnknownCmdId,
            0x09 => AdsReturnCode::ErrBadTaskId,
            0x0A => AdsReturnCode::ErrNoIo,
            0x0B => AdsReturnCode::ErrUnknownAmsCmd,
            0x0C => AdsReturnCode::ErrWin32Error,
            0x0D => AdsReturnCode::ErrPortNotConnected,
            0x0E => AdsReturnCode::ErrInvalidAmsLength,
            0x0F => AdsReturnCode::ErrInvalidAmsNetId,
            0x10 => AdsReturnCode::ErrLowInstLevel,
            0x11 => AdsReturnCode::ErrNoDebug,
            0x12 => AdsReturnCode::ErrPortDisabled,
            0x13 => AdsReturnCode::ErrPortAlreadyConnected,
            0x14 => AdsReturnCode::ErrAmsSyncW32Error,
            0x15 => AdsReturnCode::ErrAmsSyncTimeout,
            0x16 => AdsReturnCode::ErrAmsSyncError,
            0x17 => AdsReturnCode::ErrAmsSyncNoIndexInMap,
            0x18 => AdsReturnCode::ErrInvalidAmsPort,
            0x19 => AdsReturnCode::ErrNoMemory,
            0x1A => AdsReturnCode::ErrTcpSend,
            0x1B => AdsReturnCode::ErrHostUnreachable,
            0x1C => AdsReturnCode::ErrInvalidAmsFragment,
            0x1D => AdsReturnCode::ErrTlsSend,
            0x1E => AdsReturnCode::ErrAccessDenied,
            0x500 => AdsReturnCode::RouterErrNoLockedMemory,
            0x501 => AdsReturnCode::RouterErrResizeMemory,
            0x502 => AdsReturnCode::RouterErrMailboxFull,
            0x503 => AdsReturnCode::RouterErrDebugBoxFull,
            0x504 => AdsReturnCode::RouterErrUnknownPortType,
            0x505 => AdsReturnCode::RouterErrNotInitialized,
            0x506 => AdsReturnCode::RouterErrPortAlreadyInUse,
            0x507 => AdsReturnCode::RouterErrNotRegistered,
            0x508 => AdsReturnCode::RouterErrNoMoreQueues,
            0x509 => AdsReturnCode::RouterErrInvalidPort,
            0x50A => AdsReturnCode::RouterErrNotActivated,
            0x50B => AdsReturnCode::RouterErrFragmentBoxFull,
            0x50C => AdsReturnCode::RouterErrFragmentTimeout,
            0x50D => AdsReturnCode::RouterErrToBeRemoved,
            0x700 => AdsReturnCode::AdsErrDeviceError,
            0x701 => AdsReturnCode::AdsErrDeviceSrvNotSupp,
            0x702 => AdsReturnCode::AdsErrDeviceInvalidGrp,
            0x703 => AdsReturnCode::AdsErrDeviceInvalidOffset,
            0x704 => AdsReturnCode::AdsErrDeviceInvalidAccess,
            0x705 => AdsReturnCode::AdsErrDeviceInvalidSize,
            0x706 => AdsReturnCode::AdsErrDeviceInvalidData,
            0x707 => AdsReturnCode::AdsErrDeviceNotReady,
            0x708 => AdsReturnCode::AdsErrDeviceBusy,
            0x709 => AdsReturnCode::AdsErrDeviceInvalidContext,
            0x70A => AdsReturnCode::AdsErrDeviceNoMemory,
            0x70B => AdsReturnCode::AdsErrDeviceInvalidParm,
            0x70C => AdsReturnCode::AdsErrDeviceNotFound,
            0x70D => AdsReturnCode::AdsErrDeviceSyntax,
            0x70E => AdsReturnCode::AdsErrDeviceIncompatible,
            0x70F => AdsReturnCode::AdsErrDeviceExists,
            0x710 => AdsReturnCode::AdsErrDeviceSymbolNotFound,
            0x711 => AdsReturnCode::AdsErrDeviceSymbolVersionInvalid,
            0x712 => AdsReturnCode::AdsErrDeviceInvalidState,
            0x713 => AdsReturnCode::AdsErrDeviceTransModeNotSupp,
            0x714 => AdsReturnCode::AdsErrDeviceNotifyHndInvalid,
            0x715 => AdsReturnCode::AdsErrDeviceClientUnknown,
            0x716 => AdsReturnCode::AdsErrDeviceNoMoreHdls,
            0x717 => AdsReturnCode::AdsErrDeviceInvalidWatchSize,
            0x718 => AdsReturnCode::AdsErrDeviceNotInit,
            0x719 => AdsReturnCode::AdsErrDeviceTimeout,
            0x71A => AdsReturnCode::AdsErrDeviceNoInterface,
            0x71B => AdsReturnCode::AdsErrDeviceInvalidInterface,
            0x71C => AdsReturnCode::AdsErrDeviceInvalidClsId,
            0x71D => AdsReturnCode::AdsErrDeviceInvalidObjId,
            0x71E => AdsReturnCode::AdsErrDevicePending,
            0x71F => AdsReturnCode::AdsErrDeviceAborted,
            0x720 => AdsReturnCode::AdsErrDeviceWarning,
            0x721 => AdsReturnCode::AdsErrDeviceInvalidArrayIdx,
            0x722 => AdsReturnCode::AdsErrDeviceSymbolNotActive,
            0x723 => AdsReturnCode::AdsErrDeviceAccessDenied,
            0x724 => AdsReturnCode::AdsErrDeviceLicenseNotFound,
            0x725 => AdsReturnCode::AdsErrDeviceLicenseExpired,
            0x726 => AdsReturnCode::AdsErrDeviceLicenseExceeded,
            0x727 => AdsReturnCode::AdsErrDeviceLicenseInvalid,
            0x728 => AdsReturnCode::AdsErrDeviceLicenseSystemId,
            0x729 => AdsReturnCode::AdsErrDeviceLicenseNoTimeLimit,
            0x72A => AdsReturnCode::AdsErrDeviceLicenseFutureIssue,
            0x72B => AdsReturnCode::AdsErrDeviceLicenseTimeTooLong,
            0x72C => AdsReturnCode::AdsErrDeviceException,
            0x72D => AdsReturnCode::AdsErrDeviceLicenseDuplicated,
            0x72E => AdsReturnCode::AdsErrDeviceSignatureInvalid,
            0x72F => AdsReturnCode::AdsErrDeviceCertificateInvalid,
            0x730 => AdsReturnCode::AdsErrDeviceLicenseOemNotFound,
            0x731 => AdsReturnCode::AdsErrDeviceLicenseRestricted,
            0x732 => AdsReturnCode::AdsErrDeviceLicenseDemoDenied,
            0x733 => AdsReturnCode::AdsErrDeviceInvalidFncId,
            0x734 => AdsReturnCode::AdsErrDeviceOutOfRange,
            0x735 => AdsReturnCode::AdsErrDeviceInvalidAlignment,
            0x736 => AdsReturnCode::AdsErrDeviceLicensePlatform,
            0x737 => AdsReturnCode::AdsErrDeviceForwardPl,
            0x738 => AdsReturnCode::AdsErrDeviceForwardDl,
            0x739 => AdsReturnCode::AdsErrDeviceForwardRt,
            0x740 => AdsReturnCode::AdsErrClientError,
            0x741 => AdsReturnCode::AdsErrClientInvalidParm,
            0x742 => AdsReturnCode::AdsErrClientListEmpty,
            0x743 => AdsReturnCode::AdsErrClientVarUsed,
            0x744 => AdsReturnCode::AdsErrClientDuplInvokeId,
            0x745 => AdsReturnCode::AdsErrClientSyncTimeout,
            0x746 => AdsReturnCode::AdsErrClientW32Error,
            0x747 => AdsReturnCode::AdsErrClientTimeoutInvalid,
            0x748 => AdsReturnCode::AdsErrClientPortNotOpen,
            0x749 => AdsReturnCode::AdsErrClientNoAmsAddr,
            0x750 => AdsReturnCode::AdsErrClientSyncInternal,
            0x751 => AdsReturnCode::AdsErrClientAddHash,
            0x752 => AdsReturnCode::AdsErrClientRemoveHash,
            0x753 => AdsReturnCode::AdsErrClientNoMoreSym,
            0x754 => AdsReturnCode::AdsErrClientSyncResInvalid,
            0x755 => AdsReturnCode::AdsErrClientSyncPortLocked,
            0x756 => AdsReturnCode::AdsErrClientRequestCancelled,
            0x1000 => AdsReturnCode::RtErrInternal,
            0x1001 => AdsReturnCode::RtErrBadTimerPeriods,
            0x1002 => AdsReturnCode::RtErrInvalidTaskPtr,
            0x1003 => AdsReturnCode::RtErrInvalidStackPtr,
            0x1004 => AdsReturnCode::RtErrPrioExists,
            0x1005 => AdsReturnCode::RtErrNoMoreTcb,
            0x1006 => AdsReturnCode::RtErrNoMoreSemas,
            0x1007 => AdsReturnCode::RtErrNoMoreQueues,
            0x100D => AdsReturnCode::RtErrExtIrqAlreadyDef,
            0x100E => AdsReturnCode::RtErrExtIrqNotDef,
            0x100F => AdsReturnCode::RtErrExtIrqInstallFailed,
            0x1010 => AdsReturnCode::RtErrIrqlNotLessOrEqual,
            0x1017 => AdsReturnCode::RtErrVmxNotSupported,
            0x1018 => AdsReturnCode::RtErrVmxDisabled,
            0x1019 => AdsReturnCode::RtErrVmxControlsMissing,
            0x101A => AdsReturnCode::RtErrVmxEnableFails,
            10060 => AdsReturnCode::WsaETimedOut,
            10061 => AdsReturnCode::WsaEConnRefused,
            10065 => AdsReturnCode::WsaEHostUnreach,
            n => AdsReturnCode::Unknown(n),
        }
    }

    /// The wire code of this value.
    pub fn as_u32(self) -> (r: u32)
        ensures
            r == ads_return_code_code(self),
    {
        match self {
            AdsReturnCode::NoError => 0x0,
            AdsReturnCode::ErrInternal => 0x01,
            AdsReturnCode::ErrNoRtime => 0x02,
            AdsReturnCode::ErrAllocLockedMem => 0x03,
            AdsReturnCode::ErrInsertMailbox => 0x04,
            AdsReturnCode::ErrWrongReceiveHMsg => 0x05,
            AdsReturnCode::ErrTargetPortNotFound => 0x06,
            AdsReturnCode::ErrTargetMachineNotFound => 0x07,
            AdsReturnCode::ErrUnknownCmdId => 0x08,
            AdsReturnCode::ErrBadTaskId => 0x09,
            AdsReturnCode::ErrNoIo => 0x0A,
            AdsReturnCode::ErrUnknownAmsCmd => 0x0B,
            AdsReturnCode::ErrWin32Error => 0x0C,
            AdsReturnCode::ErrPortNotConnected => 0x0D,
            AdsReturnCode::ErrInvalidAmsLength => 0x0E,
            AdsReturnCode::ErrInvalidAmsNetId => 0x0F,
            AdsReturnCode::ErrLowInstLevel => 0x10,
            AdsReturnCode::ErrNoDebug => 0x11,
            AdsReturnCode::ErrPortDisabled => 0x12,
            AdsReturnCode::ErrPortAlreadyConnected => 0x13,
            AdsReturnCode::ErrAmsSyncW32Error => 0x14,
            AdsReturnCode::ErrAmsSyncTimeout => 0x15,
            AdsReturnCode::ErrAmsSyncError => 0x16,
            AdsReturnCode::ErrAmsSyncNoIndexInMap => 0x17,
            AdsReturnCode::ErrInvalidAmsPort => 0x18,
            AdsReturnCode::ErrNoMemory => 0x19,
            AdsReturnCode::ErrTcpSend => 0x1A,
            AdsReturnCode::ErrHostUnreachable => 0x1B,
            AdsReturnCode::ErrInvalidAmsFragment => 0x1C,
            AdsReturnCode::ErrTlsSend => 0x1D,
            AdsReturnCode::ErrAccessDenied => 0x1E,
            AdsReturnCode::RouterErrNoLockedMemory => 0x500,
            AdsReturnCode::RouterErrResizeMemory => 0x501,
            AdsReturnCode::RouterErrMailboxFull => 0x502,
            AdsReturnCode::RouterErrDebugBoxFull => 0x503,
            AdsReturnCode::RouterErrUnknownPortType => 0x504,
            AdsReturnCode::RouterErrNotInitialized => 0x505,
            AdsReturnCode::RouterErrPortAlreadyInUse => 0x506,
            AdsReturnCode::RouterErrNotRegistered => 0x507,
            AdsReturnCode::RouterErrNoMoreQueues => 0x508,
            AdsReturnCode::RouterErrInvalidPort => 0x509,
            AdsReturnCode::RouterErrNotActivated => 0x50A,
            AdsReturnCode::RouterErrFragmentBoxFull => 0x50B,
            AdsReturnCode::RouterErrFragmentTimeout => 0x50C,
            AdsReturnCode::RouterErrToBeRemoved => 0x50D,
            AdsReturnCode::AdsErrDeviceError => 0x700,
            AdsReturnCode::AdsErrDeviceSrvNotSupp => 0x701,
            AdsReturnCode::AdsErrDeviceInvalidGrp => 0x702,
            AdsReturnCode::AdsErrDeviceInvalidOffset => 0x703,
            AdsReturnCode::AdsErrDeviceInvalidAccess => 0x704,
            AdsReturnCode::AdsErrDeviceInvalidSize => 0x705,
            AdsReturnCode::AdsErrDeviceInvalidData => 0x706,
            AdsReturnCode::AdsErrDeviceNotReady => 0x707,
            AdsReturnCode::AdsErrDeviceBusy => 0x708,
            AdsReturnCode::AdsErrDeviceInvalidContext => 0x709,
            AdsReturnCode::AdsErrDeviceNoMemory => 0x70A,
            AdsReturnCode::AdsErrDeviceInvalidParm => 0x70B,
            AdsReturnCode::AdsErrDeviceNotFound => 0x70C,
            AdsReturnCode::AdsErrDeviceSyntax => 0x70D,
            AdsReturnCode::AdsErrDeviceIncompatible => 0x70E,
            AdsReturnCode::AdsErrDeviceExists => 0x70F,
            AdsReturnCode::AdsErrDeviceSymbolNotFound => 0x710,
            AdsReturnCode::AdsErrDeviceSymbolVersionInvalid => 0x711,
            AdsReturnCode::AdsErrDeviceInvalidState => 0x712,
            AdsReturnCode::AdsErrDeviceTransModeNotSupp => 0x713,
            AdsReturnCode::AdsErrDeviceNotifyHndInvalid => 0x714,
            AdsReturnCode::AdsErrDeviceClientUnknown => 0x715,
            AdsReturnCode::AdsErrDeviceNoMoreHdls => 0x716,
            AdsReturnCode::AdsErrDeviceInvalidWatchSize => 0x717,
            AdsReturnCode::AdsErrDeviceNotInit => 0x718,
            AdsReturnCode::AdsErrDeviceTimeout => 0x719,
            AdsReturnCode::AdsErrDeviceNoInterface => 0x71A,
            AdsReturnCode::AdsErrDeviceInvalidInterface => 0x71B,
            AdsReturnCode::AdsErrDeviceInvalidClsId => 0x71C,
            AdsReturnCode::AdsErrDeviceInvalidObjId => 0x71D,
            AdsReturnCode::AdsErrDevicePending => 0x71E,
            AdsReturnCode::AdsErrDeviceAborted => 0x71F,
            AdsReturnCode::AdsErrDeviceWarning => 0x720,
            AdsReturnCode::AdsErrDeviceInvalidArrayIdx => 0x721,
            AdsReturnCode::AdsErrDeviceSymbolNotActive => 0x722,
            AdsReturnCode::AdsErrDeviceAccessDenied => 0x723,
            AdsReturnCode::AdsErrDeviceLicenseNotFound => 0x724,
            AdsReturnCode::AdsErrDeviceLicenseExpired => 0x725,
            AdsReturnCode::AdsErrDeviceLicenseExceeded => 0x726,
            AdsReturnCode::AdsErrDeviceLicenseInvalid => 0x727,
            AdsReturnCode::AdsErrDeviceLicenseSystemId => 0x728,
            AdsReturnCode::AdsErrDeviceLicenseNoTimeLimit => 0x729,
            AdsReturnCode::AdsErrDeviceLicenseFutureIssue => 0x72A,
            AdsReturnCode::AdsErrDeviceLicenseTimeTooLong => 0x72B,
            AdsReturnCode::AdsErrDeviceException => 0x72C,
            AdsReturnCode::AdsErrDeviceLicenseDuplicated => 0x72D,
            AdsReturnCode::AdsErrDeviceSignatureInvalid => 0x72E,
            AdsReturnCode::AdsErrDeviceCertificateInvalid => 0x72F,
            AdsReturnCode::AdsErrDeviceLicenseOemNotFound => 0x730,
            AdsReturnCode::AdsErrDeviceLicenseRestricted => 0x731,
            AdsReturnCode::AdsErrDeviceLicenseDemoDenied => 0x732,
            AdsReturnCode::AdsErrDeviceInvalidFncId => 0x733,
            AdsReturnCode::AdsErrDeviceOutOfRange => 0x734,
            AdsReturnCode::AdsErrDeviceInvalidAlignment => 0x735,
            AdsReturnCode::AdsErrDeviceLicensePlatform => 0x736,
            AdsReturnCode::AdsErrDeviceForwardPl => 0x737,
            AdsReturnCode::AdsErrDeviceForwardDl => 0x738,
            AdsReturnCode::AdsErrDeviceForwardRt => 0x739,
            AdsReturnCode::AdsErrClientError => 0x740,
            AdsReturnCode::AdsErrClientInvalidParm => 0x741,
            AdsReturnCode::AdsErrClientListEmpty => 0x742,
            AdsReturnCode::AdsErrClientVarUsed => 0x743,
            AdsReturnCode::AdsErrClientDuplInvokeId => 0x744,
            AdsReturnCode::AdsErrClientSyncTimeout => 0x745,
            AdsReturnCode::AdsErrClientW32Error => 0x746,
            AdsReturnCode::AdsErrClientTimeoutInvalid => 0x747,
            AdsReturnCode::AdsErrClientPortNotOpen => 0x748,
            AdsReturnCode::AdsErrClientNoAmsAddr => 0x749,
            AdsReturnCode::AdsErrClientSyncInternal => 0x750,
            AdsReturnCode::AdsErrClientAddHash => 0x751,
            AdsReturnCode::AdsErrClientRemoveHash => 0x752,
            AdsReturnCode::AdsErrClientNoMoreSym => 0x753,
            AdsReturnCode::AdsErrClientSyncResInvalid => 0x754,
            AdsReturnCode::AdsErrClientSyncPortLocked => 0x755,
            AdsReturnCode::AdsErrClientRequestCancelled => 0x756,
            AdsReturnCode::RtErrInternal => 0x1000,
            AdsReturnCode::RtErrBadTimerPeriods => 0x1001,
            AdsReturnCode::RtErrInvalidTaskPtr => 0x1002,
            AdsReturnCode::RtErrInvalidStackPtr => 0x1003,
            AdsReturnCode::RtErrPrioExists => 0x1004,
            AdsReturnCode::RtErrNoMoreTcb => 0x1005,
            AdsReturnCode::RtErrNoMoreSemas => 0x1006,
            AdsReturnCode::RtErrNoMoreQueues => 0x1007,
            AdsReturnCode::RtErrExtIrqAlreadyDef => 0x100D,
            AdsReturnCode::RtErrExtIrqNotDef => 0x100E,
            AdsReturnCode::RtErrExtIrqInstallFailed => 0x100F,
            AdsReturnCode::RtErrIrqlNotLessOrEqual => 0x1010,
            AdsReturnCode::RtErrVmxNotSupported => 0x1017,
            AdsReturnCode::RtErrVmxDisabled => 0x1018,
            AdsReturnCode::RtErrVmxControlsMissing => 0x1019,
            AdsReturnCode::RtErrVmxEnableFails => 0x101A,
            AdsReturnCode::WsaETimedOut => 10060,
            AdsReturnCode::WsaEConnRefused => 10061,
            AdsReturnCode::WsaEHostUnreach => 10065,
            AdsReturnCode::Unknown(n) => n,
        }
    }

    /// Creates a value from its 4-byte little-endian encoding.
    pub fn from_bytes(bytes: [u8; 4]) -> (r: AdsReturnCode)
        ensures
            r == ads_return_code_of(le_u32(bytes[0], bytes[1], bytes[2], bytes[3])),
    {
        AdsReturnCode::from_u32(u32_from_le(bytes))
    }

    /// The 4-byte little-endian encoding of this value.
    pub fn to_bytes(self) -> (r: [u8; 4])
        ensures
            r@ == u32_bytes(ads_return_code_code(self)),
    {
        u32_to_le(self.as_u32())
    }

    /// Parses a value from the first 4 bytes of a slice.
    pub fn try_from_slice(bytes: &[u8]) -> (r: Result<AdsReturnCode, AdsReturnCodeError>)
        ensures
            bytes@.len() < 4 ==> r == Err::<AdsReturnCode, AdsReturnCodeError>(AdsReturnCodeError::UnexpectedLength { expected: 4, got: bytes@.len() as usize }),
            bytes@.len() >= 4 ==> r == Ok::<AdsReturnCode, AdsReturnCodeError>(ads_return_code_of(le_u32(bytes@[0], bytes@[1], bytes@[2], bytes@[3]))),
    {
        if bytes.len() < 4 {
            return Err(AdsReturnCodeError::UnexpectedLength { expected: 4, got: bytes.len() });
        }
        Ok(AdsReturnCode::from_bytes([bytes[0], bytes[1], bytes[2], bytes[3]]))
    }

    /// True when the code is `NoError` (0).
    pub fn is_success(&self) -> (r: bool)
        ensures
            r == (*self == AdsReturnCode::NoError),
    {
        match self {
            AdsReturnCode::NoError => true,
            _ => false,
        }
    }

}

impl core::convert::From<u32> for AdsReturnCode {
    fn from(v: u32) -> (r: AdsReturnCode) {
        AdsReturnCode::from_u32(v)
    }
}

impl vstd::std_specs::convert::FromSpecImpl<u32> for AdsReturnCode {
    open spec fn obeys_from_spec() -> bool {
        true
    }

    open spec fn from_spec(v: u32) -> AdsReturnCode {
        ads_return_code_of(v)
    }
}

impl core::convert::From<AdsReturnCode> for u32 {
    fn from(v: AdsReturnCode) -> (r: u32) {
        v.as_u32()
    }
}

impl vstd::std_specs::convert::FromSpecImpl<AdsReturnCode> for u32 {
    open spec fn obeys_from_spec() -> bool {
        true
    }

    open spec fn from_spec(v: AdsReturnCode) -> u32 {
        ads_return_code_code(v)
    }
}

impl AdsReturnCode {
    /// The description of the return code with its code in hexadecimal, such
    /// as `Internal error (0x1)`.
    pub fn to_text(&self) -> (r: String)
        ensures
            r@ == ads_return_code_text(*self),
    {
        match self {
            AdsReturnCode::NoError => "No Error (0x00)".to_owned(),
            AdsReturnCode::ErrInternal => "Internal error (0x1)".to_owned(),
            AdsReturnCode::ErrNoRtime => "No real time (0x2)".to_owned(),
            AdsReturnCode::ErrAllocLockedMem => "Allocation locked – memory error (0x3)".to_owned(),
            AdsReturnCode::ErrInsertMailbox => "Mailbox full – the ADS message could not be sent. Reducing the number of ADS messages per cycle will help (0x4)".to_owned(),
            AdsReturnCode::ErrWrongReceiveHMsg => "Wrong HMSG (0x5)".to_owned(),
            AdsReturnCode::ErrTargetPortNotFound => "Target port not found – ADS server is not started, not reachable or not installed (0x6)".to_owned(),
            AdsReturnCode::ErrTargetMachineNotFound => "Target computer not found – AMS route was not found (0x7)".to_owned(),
            AdsReturnCode::ErrUnknownCmdId => "Unknown command ID (0x8)".to_owned(),
            AdsReturnCode::ErrBadTaskId => "Invalid task ID (0x9)".to_owned(),
            AdsReturnCode::ErrNoIo => "No IO (0x0A)".to_owned(),
            AdsReturnCode::ErrUnknownAmsCmd => "Unknown AMS command (0xB)".to_owned(),
            AdsReturnCode::ErrWin32Error => "Win32 error (0xC)".to_owned(),
            AdsReturnCode::ErrPortNotConnected => "Port not connected (0xD)".to_owned(),
            AdsReturnCode::ErrInvalidAmsLength => "Invalid AMS length (0xE)".to_owned(),
            AdsReturnCode::ErrInvalidAmsNetId => "Invalid AMS Net ID (0xF)".to_owned(),
            AdsReturnCode::ErrLowInstLevel => "Installation level is too low –TwinCAT 2 license error (0x10)".to_owned(),
            AdsReturnCode::ErrNoDebug => "No debugging available (0x11)".to_owned(),
            AdsReturnCode::ErrPortDisabled => "Port disabled – TwinCAT system service not started (0x12)".to_owned(),
            AdsReturnCode::ErrPortAlreadyConnected => "Port already connected (0x13)".to_owned(),
            AdsReturnCode::ErrAmsSyncW32Error => "AMS Sync Win32 error (0x14)".to_owned(),
            AdsReturnCode::ErrAmsSyncTimeout => "AMS Sync Timeout (0x15)".to_owned(),
            AdsReturnCode::ErrAmsSyncError => "AMS Sync error (0x16)".to_owned(),
            AdsReturnCode::ErrAmsSyncNoIndexInMap => "No index map for AMS Sync available (0x17)".to_owned(),
            AdsReturnCode::ErrInvalidAmsPort => "Invalid AMS port (0x18)".to_owned(),
            AdsReturnCode::ErrNoMemory => "No memory (0x19)".to_owned(),
            AdsReturnCode::ErrTcpSend => "TCP send error (0x1A)".to_owned(),
            AdsReturnCode::ErrHostUnreachable => "Host unreachable (0x1B)".to_owned(),
            AdsReturnCode::ErrInvalidAmsFragment => "Invalid AMS fragment (0x1C)".to_owned(),
            AdsReturnCode::ErrTlsSend => "TLS send error – secure ADS connection failed (0x1D)".to_owned(),
            AdsReturnCode::ErrAccessDenied => "Access denied – secure ADS access denied (0x1E)".to_owned(),
            AdsReturnCode::RouterErrNoLockedMemory => "Router: Locked memory cannot be allocated (0x500)".to_owned(),
            AdsReturnCode::RouterErrResizeMemory => "Router: The router memory size could not be changed (0x501)".to_owned(),
            AdsReturnCode::RouterErrMailboxFull => "Router: The mailbox has reached the maximum number of possible messages (0x502)".to_owned(),
            AdsReturnCode::RouterErrDebugBoxFull => "Router: The Debug mailbox has reached the maximum number of possible messages (0x503)".to_owned(),
            AdsReturnCode::RouterErrUnknownPortType => "Router: The port type is unknown (0x504)".to_owned(),
            AdsReturnCode::RouterErrNotInitialized => "Router: The router is not initialized (0x505)".to_owned(),
            AdsReturnCode::RouterErrPortAlreadyInUse => "Router: The port number is already assigned (0x506)".to_owned(),
            AdsReturnCode::RouterErrNotRegistered => "Router: The port is not registered (0x507)".to_owned(),
            AdsReturnCode::RouterErrNoMoreQueues => "Router: The maximum number of ports has been reached (0x508)".to_owned(),
            AdsReturnCode::RouterErrInvalidPort => "Router: The port is invalid (0x509)".to_owned(),
            AdsReturnCode::RouterErrNotActivated => "Router: The router is not active (0x50A)".to_owned(),
            AdsReturnCode::RouterErrFragmentBoxFull => "Router: The mailbox has reached the maximum number for fragmented messages (0x50B)".to_owned(),
            AdsReturnCode::RouterErrFragmentTimeout => "Router: A fragment timeout has occurred (0x50C)".to_owned(),
            AdsReturnCode::RouterErrToBeRemoved => "Router: The port is removed (0x50D)".to_owned(),
            AdsReturnCode::AdsErrDeviceError => "ADS: General device error (0x700)".to_owned(),
            AdsReturnCode::AdsErrDeviceSrvNotSupp => "ADS: Service is not supported by the server (0x701)".to_owned(),
            AdsReturnCode::AdsErrDeviceInvalidGrp => "ADS: Invalid index group (0x702)".to_owned(),
            AdsReturnCode::AdsErrDeviceInvalidOffset => "ADS: Invalid index offset (0x703)".to_owned(),
            AdsReturnCode::AdsErrDeviceInvalidAccess => "ADS: Reading or writing not permitted. Several causes are possible. For example, an incorrect password was entered when creating routes (0x704)".to_owned(),
            AdsReturnCode::AdsErrDeviceInvalidSize => "ADS: Parameter size not correct (0x705)".to_owned(),
            AdsReturnCode::AdsErrDeviceInvalidData => "ADS: Invalid data values (0x706)".to_owned(),
            AdsReturnCode::AdsErrDeviceNotReady => "ADS: Device is not ready to operate (0x707)".to_owned(),
            AdsReturnCode::AdsErrDeviceBusy => "ADS: Device is busy (0x708)".to_owned(),
            AdsReturnCode::AdsErrDeviceInvalidContext => "ADS: Invalid operating system context. This can result from use of ADS blocks in different tasks. It may be possible to resolve this through multitasking synchronization in the PLC (0x709)".to_owned(),
            AdsReturnCode::AdsErrDeviceNoMemory => "ADS: Insufficient memory (0x70A)".to_owned(),
            AdsReturnCode::AdsErrDeviceInvalidParm => "ADS: Invalid parameter values (0x70B)".to_owned(),
            AdsReturnCode::AdsErrDeviceNotFound => "ADS: Not found (files, ...) (0x70C)".to_owned(),
            AdsReturnCode::AdsErrDeviceSyntax => "ADS: Syntax error in file or command (0x70D)".to_owned(),
            AdsReturnCode::AdsErrDeviceIncompatible => "ADS: Objects do not match (0x70E)".to_owned(),
            AdsReturnCode::AdsErrDeviceExists => "ADS: Object already exists (0x70F)".to_owned(),
            AdsReturnCode::AdsErrDeviceSymbolNotFound => "ADS: Symbol not found (0x710)".to_owned(),
            AdsReturnCode::AdsErrDeviceSymbolVersionInvalid => "ADS: Invalid symbol version. This can occur due to an online change. Create a new handle (0x711)".to_owned(),
            AdsReturnCode::AdsErrDeviceInvalidState => "ADS: Device (server) is in invalid state (0x712)".to_owned(),
            AdsReturnCode::AdsErrDeviceTransModeNotSupp => "ADS: AdsTransMode not supported (0x713)".to_owned(),
            AdsReturnCode::AdsErrDeviceNotifyHndInvalid => "ADS: Notification handle is invalid (0x714)".to_owned(),
            AdsReturnCode::AdsErrDeviceClientUnknown => "ADS: Notification client not registered (0x715)".to_owned(),
            AdsReturnCode::AdsErrDeviceNoMoreHdls => "ADS: No further handle available (0x716)".to_owned(),
            AdsReturnCode::AdsErrDeviceInvalidWatchSize => "ADS: Notification size too large (0x717)".to_owned(),
            AdsReturnCode::AdsErrDeviceNotInit => "ADS: Device not initialized (0x718)".to_owned(),
            AdsReturnCode::AdsErrDeviceTimeout => "ADS: Device has a timeout (0x719)".to_owned(),
            AdsReturnCode::AdsErrDeviceNoInterface => "ADS: Interface query failed (0x71A)".to_owned(),
            AdsReturnCode::AdsErrDeviceInvalidInterface => "ADS: Wrong interface requested (0x71B)".to_owned(),
            AdsReturnCode::AdsErrDeviceInvalidClsId => "ADS: Class ID is invalid (0x71C)".to_owned(),
            AdsReturnCode::AdsErrDeviceInvalidObjId => "ADS: IObject ID is invalid (0x71D)".to_owned(),
            AdsReturnCode::AdsErrDevicePending => "ADS: Request pending (0x71E)".to_owned(),
            AdsReturnCode::AdsErrDeviceAborted => "ADS: Request is aborted (0x71F)".to_owned(),
            AdsReturnCode::AdsErrDeviceWarning => "ADS: Signal warning (0x720)".to_owned(),
            AdsReturnCode::AdsErrDeviceInvalidArrayIdx => "ADS: Invalid array index (0x721)".to_owned(),
            AdsReturnCode::AdsErrDeviceSymbolNotActive => "ADS: Symbol not active (0x722)".to_owned(),
            AdsReturnCode::AdsErrDeviceAccessDenied => "ADS: Access denied.\nSeveral causes are possible. For example, a unidirectional ADS route is used in the opposite direction. (0x723)".to_owned(),
            AdsReturnCode::AdsErrDeviceLicenseNotFound => "ADS: Missing license (0x724)".to_owned(),
            AdsReturnCode::AdsErrDeviceLicenseExpired => "ADS: License expired (0x725)".to_owned(),
            AdsReturnCode::AdsErrDeviceLicenseExceeded => "ADS: License exceeded (0x726)".to_owned(),
            AdsReturnCode::AdsErrDeviceLicenseInvalid => "ADS: Invalid license (0x727)".to_owned(),
            AdsReturnCode::AdsErrDeviceLicenseSystemId => "ADS: License problem: System ID is invalid (0x728)".to_owned(),
            AdsReturnCode::AdsErrDeviceLicenseNoTimeLimit => "ADS: License not limited in time (0x729)".to_owned(),
            AdsReturnCode::AdsErrDeviceLicenseFutureIssue => "ADS: Licensing problem: time in the future (0x72A)".to_owned(),
            AdsReturnCode::AdsErrDeviceLicenseTimeTooLong => "ADS: License period too long (0x72B)".to_owned(),
            AdsReturnCode::AdsErrDeviceException => "ADS: Exception at system startup (0x72C)".to_owned(),
            AdsReturnCode::AdsErrDeviceLicenseDuplicated => "ADS: License file read twice (0x72D)".to_owned(),
            AdsReturnCode::AdsErrDeviceSignatureInvalid => "ADS: Invalid signature (0x72E)".to_owned(),
            AdsReturnCode::AdsErrDeviceCertificateInvalid => "ADS: Invalid certificate (0x72F)".to_owned(),
            AdsReturnCode::AdsErrDeviceLicenseOemNotFound => "ADS: Public key not known from OEM (0x730)".to_owned(),
            AdsReturnCode::AdsErrDeviceLicenseRestricted => "ADS: License not valid for this system ID (0x731)".to_owned(),
            AdsReturnCode::AdsErrDeviceLicenseDemoDenied => "ADS: Demo license prohibited (0x732)".to_owned(),
            AdsReturnCode::AdsErrDeviceInvalidFncId => "ADS: Invalid function ID (0x733)".to_owned(),
            AdsReturnCode::AdsErrDeviceOutOfRange => "ADS: Outside the valid range (0x734)".to_owned(),
            AdsReturnCode::AdsErrDeviceInvalidAlignment => "ADS: Invalid alignment (0x735)".to_owned(),
            AdsReturnCode::AdsErrDeviceLicensePlatform => "ADS: Invalid platform level (0x736)".to_owned(),
            AdsReturnCode::AdsErrDeviceForwardPl => "ADS: Context – forward to passive level (0x737)".to_owned(),
            AdsReturnCode::AdsErrDeviceForwardDl => "ADS: Context – forward to dispatch level (0x738)".to_owned(),
            AdsReturnCode::AdsErrDeviceForwardRt => "ADS: Context – forward to real-time (0x739)".to_owned(),
            AdsReturnCode::AdsErrClientError => "Client: Client error (0x740)".to_owned(),
            AdsReturnCode::AdsErrClientInvalidParm => "Client: Service contains an invalid parameter (0x741)".to_owned(),
            AdsReturnCode::AdsErrClientListEmpty => "Client: Polling list is empty (0x742)".to_owned(),
            AdsReturnCode::AdsErrClientVarUsed => "Client: Var connection already in use (0x743)".to_owned(),
            AdsReturnCode::AdsErrClientDuplInvokeId => "Client: The called ID is already in use (0x744)".to_owned(),
            AdsReturnCode::AdsErrClientSyncTimeout => "Client: Timeout has occurred – the remote terminal is not responding in the specified ADS timeout. The route setting of the remote terminal may be configured incorrectly (0x745)".to_owned(),
            AdsReturnCode::AdsErrClientW32Error => "Client: Error in Win32 subsystem (0x746)".to_owned(),
            AdsReturnCode::AdsErrClientTimeoutInvalid => "Client: Invalid client timeout value (0x747)".to_owned(),
            AdsReturnCode::AdsErrClientPortNotOpen => "Client: Port not open (0x748)".to_owned(),
            AdsReturnCode::AdsErrClientNoAmsAddr => "Client: No AMS address (0x749)".to_owned(),
            AdsReturnCode::AdsErrClientSyncInternal => "Client: Internal error in Ads sync (0x750)".to_owned(),
            AdsReturnCode::AdsErrClientAddHash => "Client: Hash table overflow (0x751)".to_owned(),
            AdsReturnCode::AdsErrClientRemoveHash => "Client: Key not found in the table (0x752)".to_owned(),
            AdsReturnCode::AdsErrClientNoMoreSym => "Client: No symbols in the cache (0x753)".to_owned(),
            AdsReturnCode::AdsErrClientSyncResInvalid => "Client: Invalid response received (0x754)".to_owned(),
            AdsReturnCode::AdsErrClientSyncPortLocked => "Client: Sync port is locked (0x755)".to_owned(),
            AdsReturnCode::AdsErrClientRequestCancelled => "Client: The request was canceled (0x756)".to_owned(),
            AdsReturnCode::RtErrInternal => "RTime: Internal error in the real-time system (0x1000)".to_owned(),
            AdsReturnCode::RtErrBadTimerPeriods => "RTime: Timer value is not valid (0x1001)".to_owned(),
            AdsReturnCode::RtErrInvalidTaskPtr => "RTime: Task pointer has the invalid value 0 (zero) (0x1002)".to_owned(),
            AdsReturnCode::RtErrInvalidStackPtr => "RTime: Stack pointer has the invalid value 0 (zero) (0x1003)".to_owned(),
            AdsReturnCode::RtErrPrioExists => "RTime: The request task priority is already assigned (0x1004)".to_owned(),
            AdsReturnCode::RtErrNoMoreTcb => "RTime: No free TCB (Task Control Block) available. The maximum number of TCBs is 64 (0x1005)".to_owned(),
            AdsReturnCode::RtErrNoMoreSemas => "RTime: No free semaphores available. The maximum number of semaphores is 64 (0x1006)".to_owned(),
            AdsReturnCode::RtErrNoMoreQueues => "RTime: No free space available in the queue. The maximum number of positions in the queue is 64 (0x1007)".to_owned(),
            AdsReturnCode::RtErrExtIrqAlreadyDef => "RTime: An external synchronization interrupt is already applied (0x100D)".to_owned(),
            AdsReturnCode::RtErrExtIrqNotDef => "RTime: No external sync interrupt applied (0x100E)".to_owned(),
            AdsReturnCode::RtErrExtIrqInstallFailed => "RTime: Application of the external synchronization interrupt has failed. (0x100F)".to_owned(),
            AdsReturnCode::RtErrIrqlNotLessOrEqual => "RTime: Call of a service function in the wrong context (0x1010)".to_owned(),
            AdsReturnCode::RtErrVmxNotSupported => "RTime: Intel VT-x extension is not supported (0x1017)".to_owned(),
            AdsReturnCode::RtErrVmxDisabled => "RTime: Intel VT-x extension is not enabled in the BIOS (0x1018)".to_owned(),
            AdsReturnCode::RtErrVmxControlsMissing => "RTime: Missing function in Intel VT-x extension (0x1019)".to_owned(),
            AdsReturnCode::RtErrVmxEnableFails => "RTime: Activation of Intel VT-x fails (0x101A)".to_owned(),
            AdsReturnCode::WsaETimedOut => "Winsock: A connection timeout has occurred - error while establishing the connection, because the remote terminal did not respond properly after a certain period of time, or the established connection could not be maintained because the connected host did not respond (0x274C)".to_owned(),
            AdsReturnCode::WsaEConnRefused => "Winsock: Connection refused - no connection could be established because the target computer has explicitly rejected it. This error usually results from an attempt to connect to a service that is inactive on the external host, that is, a service for which no server application is running (0x274D)".to_owned(),
            AdsReturnCode::WsaEHostUnreach => "Winsock: No route to host - a socket operation referred to an unavailable host (0x2751)".to_owned(),
            AdsReturnCode::Unknown(n) => {
                let mut s = "Unknown ADS Return Code: 0x".to_owned();
                push_hex_upper(&mut s, *n);
                s
            },
        }
    }
}

/// Every wire code survives the trip through [`AdsReturnCode`].
pub proof fn lemma_ads_return_code_code_roundtrip(v: u32)
    ensures
        ads_return_code_code(ads_return_code_of(v)) == v,
        ads_return_code_canonical(ads_return_code_of(v)),
{
}

/// Every canonical [`AdsReturnCode`] survives the trip through its wire code.
pub proof fn lemma_ads_return_code_roundtrip(x: AdsReturnCode)
    requires
        ads_return_code_canonical(x),
    ensures
        ads_return_code_of(ads_return_code_code(x)) == x,
{
}

/// Encoding a canonical [`AdsReturnCode`] and decoding the bytes gives it back.
pub proof fn lemma_ads_return_code_bytes_roundtrip(x: AdsReturnCode)
    requires
        ads_return_code_canonical(x),
    ensures
        ads_return_code_of(le_u32(u32_bytes(ads_return_code_code(x))[0], u32_bytes(ads_return_code_code(x))[1], u32_bytes(ads_return_code_code(x))[2], u32_bytes(ads_return_code_code(x))[3])) == x,
{
    lemma_u32_roundtrip(ads_return_code_code(x));
}

impl core::convert::From<AdsReturnCode> for [u8; 4] {
    fn from(v: AdsReturnCode) -> (r: [u8; 4]) {
        let b = v.to_bytes();
        proof {
            let a = spec_u32_array(ads_return_code_code(v));
            assert(a@ == u32_bytes(ads_return_code_code(v)));
            assert(a =~= b);
        }
        b
    }
}

impl vstd::std_specs::convert::FromSpecImpl<AdsReturnCode> for [u8; 4] {
    open spec fn obeys_from_spec() -> bool {
        true
    }

    open spec fn from_spec(v: AdsReturnCode) -> [u8; 4] {
        spec_u32_array(ads_return_code_code(v))
    }
}

/// The return codes of the ADS protocol and their wire codes, as the
/// documentation of each code gives them (`0x705` is "Parameter size not
/// correct", `0x706` "Invalid data values", ...).
pub open spec fn ads_return_code_protocol_table() -> Seq<(u32, AdsReturnCode)> {
    seq![
        (0x0u32, AdsReturnCode::NoError),
        (0x1u32, AdsReturnCode::ErrInternal),
        (0x2u32, AdsReturnCode::ErrNoRtime),
        (0x3u32, AdsReturnCode::ErrAllocLockedMem),
        (0x4u32, AdsReturnCode::ErrInsertMailbox),
        (0x5u32, AdsReturnCode::ErrWrongReceiveHMsg),
        (0x6u32, AdsReturnCode::ErrTargetPortNotFound),
        (0x7u32, AdsReturnCode::ErrTargetMachineNotFound),
        (0x8u32, AdsReturnCode::ErrUnknownCmdId),
        (0x9u32, AdsReturnCode::ErrBadTaskId),
        (0xau32, AdsReturnCode::ErrNoIo),
        (0xbu32, AdsReturnCode::ErrUnknownAmsCmd),
        (0xcu32, AdsReturnCode::ErrWin32Error),
        (0xdu32, AdsReturnCode::ErrPortNotConnected),
        (0xeu32, AdsReturnCode::ErrInvalidAmsLength),
        (0xfu32, AdsReturnCode::ErrInvalidAmsNetId),
        (0x10u32, AdsReturnCode::ErrLowInstLevel),
        (0x11u32, AdsReturnCode::ErrNoDebug),
        (0x12u32, AdsReturnCode::ErrPortDisabled),
        (0x13u32, AdsReturnCode::ErrPortAlreadyConnected),
        (0x14u32, AdsReturnCode::ErrAmsSyncW32Error),
        (0x15u32, AdsReturnCode::ErrAmsSyncTimeout),
        (0x16u32, AdsReturnCode::ErrAmsSyncError),
        (0x17u32, AdsReturnCode::ErrAmsSyncNoIndexInMap),
        (0x18u32, AdsReturnCode::ErrInvalidAmsPort),
        (0x19u32, AdsReturnCode::ErrNoMemory),
        (0x1au32, AdsReturnCode::ErrTcpSend),
        (0x1bu32, AdsReturnCode::ErrHostUnreachable),
        (0x1cu32, AdsReturnCode::ErrInvalidAmsFragment),
        (0x1du32, AdsReturnCode::ErrTlsSend),
        (0x1eu32, AdsReturnCode::ErrAccessDenied),
        (0x500u32, AdsReturnCode::RouterErrNoLockedMemory),
        (0x501u32, AdsReturnCode::RouterErrResizeMemory),
        (0x502u32, AdsReturnCode::RouterErrMailboxFull),
        (0x503u32, AdsReturnCode::RouterErrDebugBoxFull),
        (0x504u32, AdsReturnCode::RouterErrUnknownPortType),
        (0x505u32, AdsReturnCode::RouterErrNotInitialized),
        (0x506u32, AdsReturnCode::RouterErrPortAlreadyInUse),
        (0x507u32, AdsReturnCode::RouterErrNotRegistered),
        (0x508u32, AdsReturnCode::RouterErrNoMoreQueues),
        (0x509u32, AdsReturnCode::RouterErrInvalidPort),
        (0x50au32, AdsReturnCode::RouterErrNotActivated),
        (0x50bu32, AdsReturnCode::RouterErrFragmentBoxFull),
        (0x50cu32, AdsReturnCode::RouterErrFragmentTimeout),
        (0x50du32, AdsReturnCode::RouterErrToBeRemoved),
        (0x700u32, AdsReturnCode::AdsErrDeviceError),
        (0x701u32, AdsReturnCode::AdsErrDeviceSrvNotSupp),
        (0x702u32, AdsReturnCode::AdsErrDeviceInvalidGrp),
        (0x703u32, AdsReturnCode::AdsErrDeviceInvalidOffset),
        (0x704u32, AdsReturnCode::AdsErrDeviceInvalidAccess),
        (0x705u32, AdsReturnCode::AdsErrDeviceInvalidSize),
        (0x706u32, AdsReturnCode::AdsErrDeviceInvalidData),
        (0x707u32, AdsReturnCode::AdsErrDeviceNotReady),
        (0x708u32, AdsReturnCode::AdsErrDeviceBusy),
        (0x709u32, AdsReturnCode::AdsErrDeviceInvalidContext),
        (0x70au32, AdsReturnCode::AdsErrDeviceNoMemory),
        (0x70bu32, AdsReturnCode::AdsErrDeviceInvalidParm),
        (0x70cu32, AdsReturnCode::AdsErrDeviceNotFound),
        (0x70du32, AdsReturnCode::AdsErrDeviceSyntax),
        (0x70eu32, AdsReturnCode::AdsErrDeviceIncompatible),
        (0x70fu32, AdsReturnCode::AdsErrDeviceExists),
        (0x710u32, AdsReturnCode::AdsErrDeviceSymbolNotFound),
        (0x711u32, AdsReturnCode::AdsErrDeviceSymbolVersionInvalid),
        (0x712u32, AdsReturnCode::AdsErrDeviceInvalidState),
        (0x713u32, AdsReturnCode::AdsErrDeviceTransModeNotSupp),
        (0x714u32, AdsReturnCode::AdsErrDeviceNotifyHndInvalid),
        (0x715u32, AdsReturnCode::AdsErrDeviceClientUnknown),
        (0x716u32, AdsReturnCode::AdsErrDeviceNoMoreHdls),
        (0x717u32, AdsReturnCode::AdsErrDeviceInvalidWatchSize),
        (0x718u32, AdsReturnCode::AdsErrDeviceNotInit),
        (0x719u32, AdsReturnCode::AdsErrDeviceTimeout),
        (0x71au32, AdsReturnCode::AdsErrDeviceNoInterface),
        (0x71bu32, AdsReturnCode::AdsErrDeviceInvalidInterface),
        (0x71cu32, AdsReturnCode::AdsErrDeviceInvalidClsId),
        (0x71du32, AdsReturnCode::AdsErrDeviceInvalidObjId),
        (0x71eu32, AdsReturnCode::AdsErrDevicePending),
        (0x71fu32, AdsReturnCode::AdsErrDeviceAborted),
        (0x720u32, AdsReturnCode::AdsErrDeviceWarning),
        (0x721u32, AdsReturnCode::AdsErrDeviceInvalidArrayIdx),
        (0x722u32, AdsReturnCode::AdsErrDeviceSymbolNotActive),
        (0x723u32, AdsReturnCode::AdsErrDeviceAccessDenied),
        (0x724u32, AdsReturnCode::AdsErrDeviceLicenseNotFound),
        (0x725u32, AdsReturnCode::AdsErrDeviceLicenseExpired),
        (0x726u32, AdsReturnCode::AdsErrDeviceLicenseExceeded),
        (0x727u32, AdsReturnCode::AdsErrDeviceLicenseInvalid),
        (0x728u32, AdsReturnCode::AdsErrDeviceLicenseSystemId),
        (0x729u32, AdsReturnCode::AdsErrDeviceLicenseNoTimeLimit),
        (0x72au32, AdsReturnCode::AdsErrDeviceLicenseFutureIssue),
        (0x72bu32, AdsReturnCode::AdsErrDeviceLicenseTimeTooLong),
        (0x72cu32, AdsReturnCode::AdsErrDeviceException),
        (0x72du32, AdsReturnCode::AdsErrDeviceLicenseDuplicated),
        (0x72eu32, AdsReturnCode::AdsErrDeviceSignatureInvalid),
        (0x72fu32, AdsReturnCode::AdsErrDeviceCertificateInvalid),
        (0x730u32, AdsReturnCode::AdsErrDeviceLicenseOemNotFound),
        (0x731u32, AdsReturnCode::AdsErrDeviceLicenseRestricted),
        (0x732u32, AdsReturnCode::AdsErrDeviceLicenseDemoDenied),
        (0x733u32, AdsReturnCode::AdsErrDeviceInvalidFncId),
        (0x734u32, AdsReturnCode::AdsErrDeviceOutOfRange),
        (0x735u32, AdsReturnCode::AdsErrDeviceInvalidAlignment),
        (0x736u32, AdsReturnCode::AdsErrDeviceLicensePlatform),
        (0x737u32, AdsReturnCode::AdsErrDeviceForwardPl),
        (0x738u32, AdsReturnCode::AdsErrDeviceForwardDl),
        (0x739u32, AdsReturnCode::AdsErrDeviceForwardRt),
        (0x740u32, AdsReturnCode::AdsErrClientError),
        (0x741u32, AdsReturnCode::AdsErrClientInvalidParm),
        (0x742u32, AdsReturnCode::AdsErrClientListEmpty),
        (0x743u32, AdsReturnCode::AdsErrClientVarUsed),
        (0x744u32, AdsReturnCode::AdsErrClientDuplInvokeId),
        (0x745u32, AdsReturnCode::AdsErrClientSyncTimeout),
        (0x746u32, AdsReturnCode::AdsErrClientW32Error),
        (0x747u32, AdsReturnCode::AdsErrClientTimeoutInvalid),
        (0x748u32, AdsReturnCode::AdsErrClientPortNotOpen),
        (0x749u32, AdsReturnCode::AdsErrClientNoAmsAddr),
        (0x750u32, AdsReturnCode::AdsErrClientSyncInternal),
        (0x751u32, AdsReturnCode::AdsErrClientAddHash),
        (0x752u32, AdsReturnCode::AdsErrClientRemoveHash),
        (0x753u32, AdsReturnCode::AdsErrClientNoMoreSym),
        (0x754u32, AdsReturnCode::AdsErrClientSyncResInvalid),
        (0x755u32, AdsReturnCode::AdsErrClientSyncPortLocked),
        (0x756u32, AdsReturnCode::AdsErrClientRequestCancelled),
        (0x1000u32, AdsReturnCode::RtErrInternal),
        (0x1001u32, AdsReturnCode::RtErrBadTimerPeriods),
        (0x1002u32, AdsReturnCode::RtErrInvalidTaskPtr),
        (0x1003u32, AdsReturnCode::RtErrInvalidStackPtr),
        (0x1004u32, AdsReturnCode::RtErrPrioExists),
        (0x1005u32, AdsReturnCode::RtErrNoMoreTcb),
        (0x1006u32, AdsReturnCode::RtErrNoMoreSemas),
        (0x1007u32, AdsReturnCode::RtErrNoMoreQueues),
        (0x100du32, AdsReturnCode::RtErrExtIrqAlreadyDef),
        (0x100eu32, AdsReturnCode::RtErrExtIrqNotDef),
        (0x100fu32, AdsReturnCode::RtErrExtIrqInstallFailed),
        (0x1010u32, AdsReturnCode::RtErrIrqlNotLessOrEqual),
        (0x1017u32, AdsReturnCode::RtErrVmxNotSupported),
        (0x1018u32, AdsReturnCode::RtErrVmxDisabled),
        (0x1019u32, AdsReturnCode::RtErrVmxControlsMissing),
        (0x101au32, AdsReturnCode::RtErrVmxEnableFails),
        (0x274cu32, AdsReturnCode::WsaETimedOut),
        (0x274du32, AdsReturnCode::WsaEConnRefused),
        (0x2751u32, AdsReturnCode::WsaEHostUnreach),
    ]
}

/// Every return code of the protocol table is decoded from its wire code and
/// encoded as it: 0x705 reads as `AdsErrDeviceInvalidSize` and 0x706 as
/// `AdsErrDeviceInvalidData`, and so on for each entry. Together with the round
/// trip of the codes, this fixes the conversion on every code.
pub proof fn lemma_ads_return_code_protocol_table(i: int)
    requires
        0 <= i < ads_return_code_protocol_table().len(),
    ensures
        ads_return_code_of(ads_return_code_protocol_table()[i].0) == ads_return_code_protocol_table()[i].1,
        ads_return_code_code(ads_return_code_protocol_table()[i].1) == ads_return_code_protocol_table()[i].0,
{
}

} // verus!
