//! SumUp commands: the request layouts of an alternate batch form.

pub mod read;
pub mod write;

pub use read::SumReadReq;
pub use write::SumWriteReq;
