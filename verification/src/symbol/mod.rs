//! Symbol, data type, method and upload descriptors.

pub mod array_info;
pub mod attributes;
pub mod data_type_flags;
pub mod data_type_info;
pub mod enum_info;
pub mod field_info;
pub mod guid;
pub mod type_category;
pub mod type_id;
pub mod type_info;
pub mod method_info;
pub mod parse;
pub mod refactor_info;
pub mod symbol_flags;
pub mod symbol_handle;
pub mod symbol_info;
pub mod type_flags;
pub mod upload_flags;
pub mod upload_info;

pub use array_info::AdsDataTypeArrayInfo;
pub use attributes::AdsAttribute;
pub use data_type_flags::AdsDataTypeFlags;
pub use data_type_info::{AdsDataTypeCategory, AdsDataTypeInfo, AdsDataTypeIterator, AdsDataTypeIteratorOwned};
pub use enum_info::AdsEnumInfo;
pub use field_info::AdsFieldInfo;
pub use guid::Guid;
pub use type_category::AdsTypeCategory;
pub use type_id::{AdsDataTypeId, AdsTypeId};
pub use type_info::{AdsTypeInfo, AdsTypeInfoIterator, AdsTypeInfoIteratorOwned};
pub use method_info::{
    AdsMethodFlags, AdsMethodInfo, AdsMethodParamFlags, AdsMethodParamInfo, AdsMethodReturnTypeInfo,
};
pub use refactor_info::AdsRefactorInfo;
pub use symbol_flags::{AdsSymbol2Flags, AdsSymbolFlags};
pub use symbol_handle::SymbolHandle;
pub use symbol_info::{AdsSymbolInfo, AdsSymbolInfoIterator, AdsSymbolInfoIteratorOwned};
pub use type_flags::AdsTypeFlags;
pub use upload_flags::AdsSymbolUploadFlags;
pub use upload_info::{AdsSymbolUploadInfo, AdsSymbolUploadInfoV1, AdsSymbolUploadInfoV2, AdsSymbolUploadInfoV3};
