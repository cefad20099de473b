//! Protocol primitives of TwinCAT ADS: fixed-size wire codecs, flag sets,
//! symbol and type descriptors, and batch (sum) command layouts.

pub mod bytes;
pub mod device_state;
pub mod error;
pub mod file_attributes;
pub mod file_flag;
pub mod logger_message_type;
pub mod state_flag;
pub mod symbol;
pub mod text;
pub mod system_state_flags;

pub use device_state::{AdsState, DeviceState};
pub use error::{
    AdsCommandError, AdsDeviceVersionError, AdsError, AdsFileStatusError, AdsHeaderError,
    AdsNotificationAttribError, AdsNotificationHandleError, AdsProductVersionError,
    AdsReturnCodeError, AdsStateError, AdsStringError, AdsSymbolInfoError,
    AdsSymbolUploadInfoError, AdsSystemStateError, AdsTransModeError, AdsTypeInfoError,
    GuidParseError, LogEntryError, LogMessageTypeError, StateFlagError, SumError, SumUpError,
    WindowsFileTimeError,
};
pub use file_attributes::AdsFileAttributes;
pub use file_flag::AdsFileFlags;
pub use logger_message_type::LogMessageType;
pub use state_flag::{StateFlag, StateFlagBuilder};
pub use symbol::{
    AdsDataTypeFlags, AdsMethodFlags, AdsMethodParamFlags, AdsSymbol2Flags, AdsSymbolFlags,
    AdsSymbolUploadFlags, AdsTypeFlags,
};
pub use system_state_flags::AdsSystemStateFlags;
pub mod file_path_type;
pub mod return_codes;
pub mod system_platform;
pub mod target_info;
pub mod trans_mode;
pub mod windows_registry;
pub use file_path_type::AdsFilePathType;
pub use return_codes::AdsReturnCode;
pub use system_platform::{AdsOsType, AdsPlatform};
pub use target_info::AdsTargetType;
pub use trans_mode::AdsTransMode;
pub use windows_registry::WinRegistryValueType;
pub mod index_group;
pub mod index_offset;
pub use index_group::IndexGroup;
pub use index_offset::IndexOffset;
pub mod file_handle;
pub mod notification_handle;
pub use file_handle::AdsFileHandle;
pub use notification_handle::NotificationHandle;
pub mod filetime;
pub use filetime::WindowsFileTime;
pub mod device_version;
pub mod file_seek_origin;
pub mod product_version;
pub use device_version::AdsDeviceVersion;
pub use file_seek_origin::AdsFileSeekOrigin;
pub use product_version::AdsProductVersion;
pub mod file_status;
pub mod system_state;
pub use file_status::AdsFileStatus;
pub use system_state::AdsSystemState;
pub mod duration;
pub mod notification_attrib;
pub use notification_attrib::AdsNotificationAttrib;
pub mod ams;
pub mod command;
pub mod header;
pub use ams::{AmsAddr, AmsNetId};
pub use command::AdsCommand;
pub use header::AdsHeader;
pub mod codepage;
pub mod string;
pub use string::AdsString;
pub mod sum;

pub mod sum_up;
