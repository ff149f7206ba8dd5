//! Writing from any buffer the kernel may read.

use crate::buf::fixed::Registered;
use crate::buf::io_buf::IoBuf;
use crate::io::shared_fd::SharedFd;
use crate::op::{os_code, os_code_of, BufResult, Error, OneshotOutputTransform, Opcode, Submission, UnsubmittedOneshot};
use core::marker::PhantomData;
use vstd::prelude::*;

verus! {

/// An unsubmitted write operation.
pub type UnsubmittedWrite<T> = UnsubmittedOneshot<WriteData<T>, WriteTransform<T>>;

/// What a write keeps while it is in flight.
pub struct WriteData<T> {
    /// Keeps the descriptor open while the operation is in flight.
    _fd: SharedFd,
    buf: T,
}

impl<T> WriteData<T> {
    /// The handle that keeps the descriptor open.
    pub closed spec fn fd(&self) -> SharedFd {
        self._fd
    }

    /// The buffer that is written from.
    pub closed spec fn buf(&self) -> T {
        self.buf
    }

    /// The handle that keeps the descriptor open, for whoever drives the
    /// operation and wants a clone of its own.
    pub fn shared_fd(&self) -> (fd: &SharedFd)
        ensures
            *fd == self.fd(),
    {
        &self._fd
    }

    /// The buffer, for reading only.
    pub fn buffer(&self) -> (buf: &T)
        ensures
            *buf == self.buf(),
    {
        &self.buf
    }
}

/// The completion rule of a write.
pub struct WriteTransform<T> {
    _phantom: PhantomData<T>,
}

/// The outcome of a write for a result code: the number of bytes written,
/// or the OS error; in both cases with the buffer as it was.
pub open spec fn write_outcome<T>(buf: T, res: i32) -> BufResult<usize, T> {
    if res >= 0 {
        Ok((res as usize, buf))
    } else {
        Err(Error { code: os_code(res), buf })
    }
}

/// A failed write hands back the buffer as it was, with the result code
/// negated as the OS error code.
pub proof fn lemma_write_failure_keeps_buffer<T>(buf: T, res: i32)
    requires
        res < 0,
    ensures
        write_outcome(buf, res) matches Err(e) && e.buf == buf && e.code == os_code(res),
        res > i32::MIN ==> os_code(res) == -res,
{
}

impl<T> OneshotOutputTransform for WriteTransform<T> {
    type Output = BufResult<usize, T>;

    type StoredData = WriteData<T>;

    open spec fn accepts(data: &WriteData<T>) -> bool {
        true
    }

    open spec fn yields(&self, data: &WriteData<T>, res: i32, out: &BufResult<usize, T>) -> bool {
        *out == write_outcome(data.buf(), res)
    }

    fn transform_result(self, data: WriteData<T>, res: i32) -> (out: BufResult<usize, T>) {
        if res >= 0 {
            Ok((res as usize, data.buf))
        } else {
            Err(Error { code: os_code_of(res), buf: data.buf })
        }
    }

    fn transform_oneshot_output(self, data: WriteData<T>, cqe: io_uring::cqueue::Entry) -> (out: BufResult<
        usize,
        T,
    >) {
        let res = cqe.result();
        self.transform_result(data, res)
    }
}

impl<T: IoBuf> UnsubmittedOneshot<WriteData<T>, WriteTransform<T>> {
    /// A write of the initialized bytes of `buf` to `fd` at `offset`.
    pub fn write_at(fd: &SharedFd, buf: T, offset: u64) -> (op: Self)
        requires
            buf.inv(),
        ensures
            op.data().buf() == buf,
            op.data().fd().raw() == fd.raw(),
            op.descriptor() == (Submission {
                opcode: Opcode::Write,
                fd: fd.raw(),
                addr: buf.addr(),
                len: buf.init() as u32,
                offset,
                buf_index: 0,
            }),
    {
        let ptr = buf.stable_ptr();
        let len = buf.bytes_init();
        let sqe = Submission {
            opcode: Opcode::Write,
            fd: fd.raw_fd(),
            addr: ptr,
            len: #[verifier::truncate] (len as u32),
            offset,
            buf_index: 0,
        };
        UnsubmittedOneshot::new(WriteData { _fd: fd.clone(), buf }, WriteTransform { _phantom: PhantomData }, sqe)
    }
}

impl<T: IoBuf + Registered> UnsubmittedOneshot<WriteData<T>, WriteTransform<T>> {
    /// A write of the initialized bytes of a registered buffer, under the
    /// index the buffer was registered with.
    pub fn write_fixed_at(fd: &SharedFd, buf: T, offset: u64) -> (op: Self)
        requires
            buf.inv(),
        ensures
            op.data().buf() == buf,
            op.data().fd().raw() == fd.raw(),
            op.descriptor() == (Submission {
                opcode: Opcode::WriteFixed,
                fd: fd.raw(),
                addr: buf.addr(),
                len: buf.init() as u32,
                offset,
                buf_index: buf.index(),
            }),
    {
        let ptr = buf.stable_ptr();
        let len = buf.bytes_init();
        let buf_index = buf.buf_index();
        let sqe = Submission {
            opcode: Opcode::WriteFixed,
            fd: fd.raw_fd(),
            addr: ptr,
            len: #[verifier::truncate] (len as u32),
            offset,
            buf_index,
        };
        UnsubmittedOneshot::new(WriteData { _fd: fd.clone(), buf }, WriteTransform { _phantom: PhantomData }, sqe)
    }
}

impl<T: IoBuf> UnsubmittedOneshot<WriteData<T>, WriteTransform<T>> {
    /// A write of the initialized bytes of `buf`, which lies in the
    /// registered buffer `buf_index`.
    pub fn write_fixed_at_with_index(fd: &SharedFd, buf: T, buf_index: u16, offset: u64) -> (op: Self)
        requires
            buf.inv(),
        ensures
            op.data().buf() == buf,
            op.data().fd().raw() == fd.raw(),
            op.descriptor() == (Submission {
                opcode: Opcode::WriteFixed,
                fd: fd.raw(),
                addr: buf.addr(),
                len: buf.init() as u32,
                offset,
                buf_index,
            }),
    {
        let ptr = buf.stable_ptr();
        let len = buf.bytes_init();
        let sqe = Submission {
            opcode: Opcode::WriteFixed,
            fd: fd.raw_fd(),
            addr: ptr,
            len: #[verifier::truncate] (len as u32),
            offset,
            buf_index,
        };
        UnsubmittedOneshot::new(WriteData { _fd: fd.clone(), buf }, WriteTransform { _phantom: PhantomData }, sqe)
    }
}

} // verus!
