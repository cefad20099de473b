//! Sum commands: many reads, writes or notification requests in one frame.

pub mod add_notif;
pub mod del_notif;
pub mod read;
pub mod read_write;
pub mod response;
pub mod write;

pub use add_notif::{SumAddNotificationIter, SumAddNotificationRequest, SumAddNotificationResponse};
pub use del_notif::{SumDeleteNotificationIter, SumDeleteNotificationResponse};
pub use read::{SumReadRequest, SumReadResponse, SumReadResponseIter, SumReadResponseOwned};
pub use read_write::{
    SumReadWriteRequest, SumReadWriteRequestOwned, SumReadWriteResponse, SumReadWriteResponseIter,
    SumReadWriteResponseOwned,
};
pub use response::parse_next_response;
pub use write::{SumWriteIter, SumWriteRequest, SumWriteResponse};
