//! A typed view over a replication change-log: decoding of raw change
//! records into operations, and the decisions of a stream that follows the
//! log.

pub mod document;
pub mod error;
pub mod operation;
pub mod stream;
pub mod timestamp;

pub use crate::error::OplogError;
pub use crate::operation::{Kind, Operation};
pub use crate::timestamp::Timestamp;
