//! One-shot operations: a payload, the descriptor that is submitted for it,
//! and the rule that turns the kernel's answer into an outcome.
//!
//! An operation is built once and completed once. From the moment it is
//! built the payload cannot be reached until the completion hands it back,
//! so the addresses in the descriptor stay true for as long as the kernel
//! may use them.

use crate::sys::{
    build_read, build_read_fixed, build_readv, build_write, build_write_fixed, build_writev,
    completion_result, os_error, read_entry, read_fixed_entry, readv_entry, write_entry,
    write_fixed_entry, writev_entry,
};
use vstd::prelude::*;

verus! {

/// What the kernel is asked to do.
#[derive(Clone, Copy, Debug, PartialEq, Eq, Structural)]
pub enum Opcode {
    /// Read into one range of memory.
    Read,
    /// Write from one range of memory.
    Write,
    /// Read into the ranges that a descriptor list names.
    Readv,
    /// Write from the ranges that a descriptor list names.
    Writev,
    /// Read into a range of a registered buffer.
    ReadFixed,
    /// Write from a range of a registered buffer.
    WriteFixed,
}

/// A submission descriptor: one requested operation in plain numbers.
#[derive(Clone, Copy, Debug, PartialEq, Eq, Structural)]
pub struct Submission {
    /// What to do.
    pub opcode: Opcode,
    /// The descriptor to do it on.
    pub fd: i32,
    /// The address of the memory, or of the descriptor list for the
    /// vectored opcodes.
    pub addr: usize,
    /// The length in bytes, or the number of descriptors for the vectored
    /// opcodes.
    pub len: u32,
    /// The position in the file.
    pub offset: u64,
    /// The index of the registered buffer. Only the fixed opcodes use it.
    pub buf_index: u16,
}

impl Submission {
    /// The submission queue entry that stands for this descriptor.
    pub open spec fn entry_of(self) -> io_uring::squeue::Entry {
        match self.opcode {
            Opcode::Read => read_entry(self.fd, self.addr, self.len, self.offset),
            Opcode::Write => write_entry(self.fd, self.addr, self.len, self.offset),
            Opcode::Readv => readv_entry(self.fd, self.addr, self.len, self.offset),
            Opcode::Writev => writev_entry(self.fd, self.addr, self.len, self.offset),
            Opcode::ReadFixed => read_fixed_entry(self.fd, self.addr, self.len, self.buf_index, self.offset),
            Opcode::WriteFixed => write_fixed_entry(self.fd, self.addr, self.len, self.buf_index, self.offset),
        }
    }

    /// Builds the submission queue entry for the kernel.
    pub fn entry(&self) -> (e: io_uring::squeue::Entry)
        ensures
            e == self.entry_of(),
    {
        match self.opcode {
            Opcode::Read => build_read(self.fd, self.addr, self.len, self.offset),
            Opcode::Write => build_write(self.fd, self.addr, self.len, self.offset),
            Opcode::Readv => build_readv(self.fd, self.addr, self.len, self.offset),
            Opcode::Writev => build_writev(self.fd, self.addr, self.len, self.offset),
            Opcode::ReadFixed => build_read_fixed(self.fd, self.addr, self.len, self.buf_index, self.offset),
            Opcode::WriteFixed => build_write_fixed(self.fd, self.addr, self.len, self.buf_index, self.offset),
        }
    }
}

/// The OS error code that a negative result stands for: the result negated.
/// The one result that has no negation in `i32` gives the largest code.
pub open spec fn os_code(res: i32) -> i32 {
    if res == i32::MIN {
        i32::MAX
    } else {
        (-res) as i32
    }
}

/// Computes [`os_code`].
pub fn os_code_of(res: i32) -> (code: i32)
    ensures
        code == os_code(res),
{
    if res == i32::MIN {
        i32::MAX
    } else {
        -res
    }
}

/// A failed operation: the OS error code, and the buffer that was lent.
#[derive(Debug)]
pub struct Error<B> {
    /// The OS error code, a positive `errno` value.
    pub code: i32,
    /// The buffer, as it was when the operation was built.
    pub buf: B,
}

impl<B> Error<B> {
    /// The error as `std::io::Error`.
    pub fn io_error(&self) -> (e: std::io::Error)
        ensures
            e == os_error(self.code),
    {
        std::io::Error::from_raw_os_error(self.code)
    }

    /// The buffer alone.
    pub fn into_inner(self) -> (buf: B)
        ensures
            buf == self.buf,
    {
        self.buf
    }
}

/// The outcome of an operation on a buffer. Both arms carry the buffer.
pub type BufResult<T, B> = Result<(T, B), Error<B>>;

/// The rule that turns a payload and the kernel's result code into the
/// outcome of an operation.
pub trait OneshotOutputTransform: Sized {
    /// What the operation yields.
    type Output;

    /// What the operation keeps from submission to completion.
    type StoredData;

    /// What a payload must satisfy to be completed.
    spec fn accepts(data: &Self::StoredData) -> bool;

    /// Whether `out` is the outcome for this payload and this result code.
    spec fn yields(&self, data: &Self::StoredData, res: i32, out: &Self::Output) -> bool;

    /// The outcome for a result code. A code of zero or more counts bytes;
    /// a negative one is an OS error code, negated.
    fn transform_result(self, data: Self::StoredData, res: i32) -> (out: Self::Output)
        requires
            Self::accepts(&data),
        ensures
            self.yields(&data, res, &out),
    ;

    /// The outcome for a completion queue entry: that for its result code.
    fn transform_oneshot_output(self, data: Self::StoredData, cqe: io_uring::cqueue::Entry) -> (out:
        Self::Output)
        requires
            Self::accepts(&data),
        ensures
            self.yields(&data, completion_result(cqe), &out),
    ;
}

/// An operation that has been built and not yet submitted.
#[verifier::reject_recursive_types(D)]
pub struct UnsubmittedOneshot<D, T: OneshotOutputTransform<StoredData = D>> {
    stable_data: D,
    post_op: T,
    sqe: Submission,
}

impl<D, T: OneshotOutputTransform<StoredData = D>> UnsubmittedOneshot<D, T> {
    /// The payload.
    pub closed spec fn data(&self) -> D {
        self.stable_data
    }

    /// The rule for the completion.
    pub closed spec fn transform(&self) -> T {
        self.post_op
    }

    /// The submission descriptor.
    pub closed spec fn descriptor(&self) -> Submission {
        self.sqe
    }

    /// Puts together an operation. The descriptor must have been computed
    /// from the payload as it is passed here.
    pub fn new(stable_data: D, post_op: T, sqe: Submission) -> (op: Self)
        ensures
            op.data() == stable_data,
            op.transform() == post_op,
            op.descriptor() == sqe,
    {
        UnsubmittedOneshot { stable_data, post_op, sqe }
    }

    /// The submission descriptor.
    pub fn submission(&self) -> (sqe: Submission)
        ensures
            sqe == self.descriptor(),
    {
        self.sqe
    }

    /// The payload, for reading only.
    pub fn stored(&self) -> (data: &D)
        ensures
            *data == self.data(),
    {
        &self.stable_data
    }

    /// The submission queue entry for the kernel.
    pub fn entry(&self) -> (e: io_uring::squeue::Entry)
        ensures
            e == self.descriptor().entry_of(),
    {
        self.sqe.entry()
    }

    /// Takes the operation apart, for the reactor that keeps the payload
    /// while the kernel works.
    pub fn into_parts(self) -> (parts: (D, T, Submission))
        ensures
            parts == (self.data(), self.transform(), self.descriptor()),
    {
        (self.stable_data, self.post_op, self.sqe)
    }

    /// Ends the operation with the completion queue entry that answers it.
    pub fn complete(self, cqe: io_uring::cqueue::Entry) -> (out: T::Output)
        requires
            T::accepts(&self.data()),
        ensures
            self.transform().yields(&self.data(), completion_result(cqe), &out),
    {
        self.post_op.transform_oneshot_output(self.stable_data, cqe)
    }

    /// Ends the operation with a result code.
    pub fn complete_with(self, res: i32) -> (out: T::Output)
        requires
            T::accepts(&self.data()),
        ensures
            self.transform().yields(&self.data(), res, &out),
    {
        self.post_op.transform_result(self.stable_data, res)
    }
}

} // verus!
