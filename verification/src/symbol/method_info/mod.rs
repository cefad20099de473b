//! Method descriptors of function blocks and interfaces.

pub mod flags;
pub mod method;
pub mod param_info;
pub mod return_type;

pub use flags::{AdsMethodFlags, AdsMethodParamFlags};
pub use method::AdsMethodInfo;
pub use param_info::AdsMethodParamInfo;
pub use return_type::AdsMethodReturnTypeInfo;
