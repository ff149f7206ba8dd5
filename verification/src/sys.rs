//! The boundary to `std`, `libc` and `io_uring`.
//!
//! Everything in this file is taken on trust: Verus reads the contracts and
//! not the bodies. Each item wraps exactly one outside function (or one
//! outside struct literal) and claims no more than that function's source or
//! documentation shows. The rest of the crate is proved against these
//! contracts.

use std::sync::Arc;
use vstd::prelude::*;

verus! {

/// `libc::iovec`: one scatter/gather descriptor, laid out as the kernel reads
/// it (address first, then length, both of pointer width).
#[verifier::external_type_specification]
#[verifier::external_body]
pub struct ExIovec(libc::iovec);

/// `io_uring::squeue::Entry`: a submission queue entry. Its fields are private
/// to `io_uring`; this crate only carries such values.
#[verifier::external_type_specification]
#[verifier::external_body]
pub struct ExSubmissionEntry(io_uring::squeue::Entry);

/// `io_uring::cqueue::Entry`: a completion queue entry.
#[verifier::external_type_specification]
#[verifier::external_body]
pub struct ExCompletionEntry(io_uring::cqueue::Entry);

/// `std::io::Error`.
#[verifier::external_type_specification]
#[verifier::external_body]
pub struct ExIoError(std::io::Error);

/// The `iov_base` field of a descriptor, as an integer.
pub uninterp spec fn iovec_base(v: libc::iovec) -> usize;

/// The `iov_len` field of a descriptor.
pub uninterp spec fn iovec_len(v: libc::iovec) -> usize;

/// The entry that `io_uring::opcode::Read` builds from a descriptor, an
/// address, a length and a file offset.
pub uninterp spec fn read_entry(fd: i32, addr: usize, len: u32, offset: u64) -> io_uring::squeue::Entry;

/// The entry that `io_uring::opcode::Write` builds.
pub uninterp spec fn write_entry(fd: i32, addr: usize, len: u32, offset: u64) -> io_uring::squeue::Entry;

/// The entry that `io_uring::opcode::Readv` builds from a descriptor, the
/// address of an `iovec` array, the number of its elements and a file offset.
pub uninterp spec fn readv_entry(fd: i32, addr: usize, count: u32, offset: u64) -> io_uring::squeue::Entry;

/// The entry that `io_uring::opcode::Writev` builds.
pub uninterp spec fn writev_entry(fd: i32, addr: usize, count: u32, offset: u64) -> io_uring::squeue::Entry;

/// The entry that `io_uring::opcode::ReadFixed` builds; `index` selects the
/// registered buffer.
pub uninterp spec fn read_fixed_entry(fd: i32, addr: usize, len: u32, index: u16, offset: u64) -> io_uring::squeue::Entry;

/// The entry that `io_uring::opcode::WriteFixed` builds.
pub uninterp spec fn write_fixed_entry(fd: i32, addr: usize, len: u32, index: u16, offset: u64) -> io_uring::squeue::Entry;

/// The result code stored in a completion entry.
pub uninterp spec fn completion_result(cqe: io_uring::cqueue::Entry) -> i32;

/// The error that `std::io::Error::from_raw_os_error` makes of an OS error
/// code.
pub uninterp spec fn os_error(code: i32) -> std::io::Error;

/// The struct literal `libc::iovec { iov_base, iov_len }`. The contract says
/// that the two fields of the result are the two arguments.
#[verifier::external_body]
pub(crate) fn iovec_new(base: usize, len: usize) -> (v: libc::iovec)
    ensures
        iovec_base(v) == base,
        iovec_len(v) == len,
{
    libc::iovec { iov_base: base as _, iov_len: len }
}

/// Reads the field `iov_base` of a `libc::iovec`.
#[verifier::external_body]
pub(crate) fn iovec_get_base(v: &libc::iovec) -> (base: usize)
    ensures
        base == iovec_base(*v),
{
    v.iov_base as usize
}

/// Reads the field `iov_len` of a `libc::iovec`.
#[verifier::external_body]
pub(crate) fn iovec_get_len(v: &libc::iovec) -> (len: usize)
    ensures
        len == iovec_len(*v),
{
    v.iov_len
}

/// `Vec::as_ptr`, as an integer: where the vector's elements start. The
/// allocator picks the address, so nothing is claimed of it.
#[verifier::external_body]
pub(crate) fn vec_addr<T>(v: &Vec<T>) -> (addr: usize) {
    v.as_ptr() as usize
}

/// `Vec::capacity`. The allocator may hand out more than was asked for; std
/// documents only that the capacity is never below the length.
#[verifier::external_body]
pub(crate) fn vec_capacity(v: &Vec<u8>) -> (cap: usize)
    ensures
        cap >= v@.len(),
{
    v.capacity()
}

/// `Arc::clone`: another handle to the same allocation, so to the same value.
#[verifier::external_body]
pub(crate) fn arc_clone(a: &Arc<i32>) -> (b: Arc<i32>)
    ensures
        *b == **a,
{
    Arc::clone(a)
}

/// `Arc::into_inner`: the value, if this was the last handle to it; `None`
/// (with the handle dropped) if others remain. Which of the two happens
/// depends on the other handles, so only the value is stated.
#[verifier::external_body]
pub(crate) fn arc_into_inner(a: Arc<i32>) -> (v: Option<i32>)
    ensures
        v matches Some(x) ==> x == *a,
{
    Arc::into_inner(a)
}

/// `io_uring::opcode::Read::new(Fd(fd), addr, len).offset(offset).build()`.
/// The builder copies the four numbers into a zeroed entry, so the result
/// is a function of them alone; the contract gives it its name.
#[verifier::external_body]
pub(crate) fn build_read(fd: i32, addr: usize, len: u32, offset: u64) -> (e: io_uring::squeue::Entry)
    ensures
        e == read_entry(fd, addr, len, offset),
{
    io_uring::opcode::Read::new(io_uring::types::Fd(fd), addr as _, len).offset(offset).build()
}

/// `io_uring::opcode::Write::new(Fd(fd), addr, len).offset(offset).build()`.
/// The result is a function of the four numbers alone; the contract gives
/// it its name.
#[verifier::external_body]
pub(crate) fn build_write(fd: i32, addr: usize, len: u32, offset: u64) -> (e: io_uring::squeue::Entry)
    ensures
        e == write_entry(fd, addr, len, offset),
{
    io_uring::opcode::Write::new(io_uring::types::Fd(fd), addr as _, len).offset(offset).build()
}

/// `io_uring::opcode::Readv::new(Fd(fd), addr, count).offset(offset).build()`.
/// The result is a function of the four numbers alone; the contract gives
/// it its name.
#[verifier::external_body]
pub(crate) fn build_readv(fd: i32, addr: usize, count: u32, offset: u64) -> (e: io_uring::squeue::Entry)
    ensures
        e == readv_entry(fd, addr, count, offset),
{
    io_uring::opcode::Readv::new(io_uring::types::Fd(fd), addr as _, count).offset(offset).build()
}

/// `io_uring::opcode::Writev::new(Fd(fd), addr, count).offset(offset).build()`.
/// The result is a function of the four numbers alone; the contract gives
/// it its name.
#[verifier::external_body]
pub(crate) fn build_writev(fd: i32, addr: usize, count: u32, offset: u64) -> (e: io_uring::squeue::Entry)
    ensures
        e == writev_entry(fd, addr, count, offset),
{
    io_uring::opcode::Writev::new(io_uring::types::Fd(fd), addr as _, count).offset(offset).build()
}

/// `io_uring::opcode::ReadFixed::new(Fd(fd), addr, len, index).offset(offset).build()`.
/// The result is a function of the five numbers alone; the contract gives
/// it its name.
#[verifier::external_body]
pub(crate) fn build_read_fixed(fd: i32, addr: usize, len: u32, index: u16, offset: u64) -> (e: io_uring::squeue::Entry)
    ensures
        e == read_fixed_entry(fd, addr, len, index, offset),
{
    io_uring::opcode::ReadFixed::new(io_uring::types::Fd(fd), addr as _, len, index).offset(offset).build()
}

/// `io_uring::opcode::WriteFixed::new(Fd(fd), addr, len, index).offset(offset).build()`.
/// The result is a function of the five numbers alone; the contract gives
/// it its name.
#[verifier::external_body]
pub(crate) fn build_write_fixed(fd: i32, addr: usize, len: u32, index: u16, offset: u64) -> (e: io_uring::squeue::Entry)
    ensures
        e == write_fixed_entry(fd, addr, len, index, offset),
{
    io_uring::opcode::WriteFixed::new(io_uring::types::Fd(fd), addr as _, len, index).offset(offset).build()
}

/// `io_uring::cqueue::Entry::result`: reads the signed result code out of
/// the entry. The contract gives the code its name.
pub assume_specification[ io_uring::cqueue::Entry::result ](cqe: &io_uring::cqueue::Entry) -> (res: i32)
    ensures
        res == completion_result(*cqe),
;

/// `std::io::Error::from_raw_os_error`: the error for an OS error code. The
/// contract gives the error its name.
pub assume_specification[ std::io::Error::from_raw_os_error ](code: i32) -> (e: std::io::Error)
    ensures
        e == os_error(code),
;

} // verus!
