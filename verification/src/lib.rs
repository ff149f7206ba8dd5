//! Buffer ownership and one-shot operations for a completion-queue I/O runtime.
//!
//! A [`buf::Buffer`] lends one or several byte arrays to the kernel as a list
//! of `(address, length)` descriptors and hands them back afterwards. The
//! operations in [`io`] pair such a buffer with a submission descriptor and
//! with the rule that turns the kernel's result code into an outcome that
//! always carries the buffer.

pub mod buf;
pub mod io;
pub mod op;
pub mod sys;
