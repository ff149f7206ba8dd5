//! Buffers whose ownership passes to the runtime for the length of an
//! operation.

pub mod buffer;
pub mod fixed;
pub mod io_buf;
pub mod region;
pub mod slice;

pub use buffer::{contents, Buffer};
pub use region::{dealt, filled, saturated, share, sum_cap, sum_len, Provenance, Region};
pub use fixed::{FixedBuf, Registered};
pub use io_buf::{min_int, IoBuf, IoBufMut};
pub use slice::{in_bounds, Slice};
