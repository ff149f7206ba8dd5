//! The operations: what is submitted for each and what its completion means.

pub mod read;
pub mod read_write;
pub mod shared_fd;
pub mod write;

pub use shared_fd::SharedFd;
pub use write::{UnsubmittedWrite, WriteData, WriteTransform};
pub use read::{ReadData, ReadTransform, UnsubmittedRead};
pub use read_write::{Kind, ReadWriteData, ReadWriteTransform, Unsubmitted};
