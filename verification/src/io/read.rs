//! Reading into any buffer the kernel may write.

use crate::buf::fixed::Registered;
use crate::buf::io_buf::{IoBuf, IoBufMut};
use crate::io::shared_fd::SharedFd;
use crate::op::{os_code, os_code_of, BufResult, Error, OneshotOutputTransform, Opcode, Submission, UnsubmittedOneshot};
use core::marker::PhantomData;
use vstd::prelude::*;

verus! {

/// An unsubmitted read operation.
pub type UnsubmittedRead<T> = UnsubmittedOneshot<ReadData<T>, ReadTransform<T>>;

/// What a read keeps while it is in flight.
pub struct ReadData<T> {
    /// Keeps the descriptor open while the operation is in flight.
    _fd: SharedFd,
    buf: T,
}

impl<T> ReadData<T> {
    /// The handle that keeps the descriptor open.
    pub closed spec fn fd(&self) -> SharedFd {
        self._fd
    }

    /// The buffer that is read into.
    pub closed spec fn buf(&self) -> T {
        self.buf
    }

    /// The handle that keeps the descriptor open, for whoever drives the
    /// operation and wants a clone of its own.
    pub fn shared_fd(&self) -> (fd: &SharedFd)
        ensures
            *fd == self.fd(),
    {
        &self._fd
    }

    /// The buffer, for reading only.
    pub fn buffer(&self) -> (buf: &T)
        ensures
            *buf == self.buf(),
    {
        &self.buf
    }
}

/// The completion rule of a read.
pub struct ReadTransform<T> {
    _phantom: PhantomData<T>,
}

/// Whether `out` is the outcome of a read into `buf` for a result code.
///
/// A count of zero or more comes back with the buffer set to hold that many
/// initialized bytes. A negative code comes back as the OS error with the
/// buffer as it was.
pub open spec fn read_outcome<T: IoBufMut>(buf: T, res: i32, out: BufResult<usize, T>) -> bool {
    if res >= 0 {
        out matches Ok((n, after)) && n == res && buf.set_init_to(res as usize, &after)
    } else {
        out == Err::<(usize, T), Error<T>>(Error { code: os_code(res), buf })
    }
}

impl<T: IoBufMut> OneshotOutputTransform for ReadTransform<T> {
    type Output = BufResult<usize, T>;

    type StoredData = ReadData<T>;

    open spec fn accepts(data: &ReadData<T>) -> bool {
        data.buf().inv()
    }

    open spec fn yields(&self, data: &ReadData<T>, res: i32, out: &BufResult<usize, T>) -> bool {
        read_outcome(data.buf(), res, *out)
    }

    fn transform_result(self, data: ReadData<T>, res: i32) -> (out: BufResult<usize, T>) {
        let mut buf = data.buf;
        if res >= 0 {
            buf.set_init(res as usize);
            Ok((res as usize, buf))
        } else {
            Err(Error { code: os_code_of(res), buf })
        }
    }

    fn transform_oneshot_output(self, data: ReadData<T>, cqe: io_uring::cqueue::Entry) -> (out: BufResult<
        usize,
        T,
    >) {
        let res = cqe.result();
        self.transform_result(data, res)
    }
}

impl<T: IoBufMut> UnsubmittedOneshot<ReadData<T>, ReadTransform<T>> {
    /// A read from `fd` at `offset` into `buf`, of as many bytes as `buf`
    /// can hold.
    pub fn read_at(fd: &SharedFd, buf: T, offset: u64) -> (op: Self)
        requires
            buf.inv(),
        ensures
            op.data().buf() == buf,
            op.data().fd().raw() == fd.raw(),
            op.descriptor() == (Submission {
                opcode: Opcode::Read,
                fd: fd.raw(),
                addr: buf.addr(),
                len: buf.total() as u32,
                offset,
                buf_index: 0,
            }),
    {
        let mut buf = buf;
        let ptr = buf.stable_mut_ptr();
        let len = buf.bytes_total();
        let sqe = Submission {
            opcode: Opcode::Read,
            fd: fd.raw_fd(),
            addr: ptr,
            len: #[verifier::truncate] (len as u32),
            offset,
            buf_index: 0,
        };
        UnsubmittedOneshot::new(ReadData { _fd: fd.clone(), buf }, ReadTransform { _phantom: PhantomData }, sqe)
    }
}

impl<T: IoBufMut + Registered> UnsubmittedOneshot<ReadData<T>, ReadTransform<T>> {
    /// A read into a registered buffer, under the index the buffer was
    /// registered with.
    pub fn read_fixed_at(fd: &SharedFd, buf: T, offset: u64) -> (op: Self)
        requires
            buf.inv(),
        ensures
            op.data().buf() == buf,
            op.data().fd().raw() == fd.raw(),
            op.descriptor() == (Submission {
                opcode: Opcode::ReadFixed,
                fd: fd.raw(),
                addr: buf.addr(),
                len: buf.total() as u32,
                offset,
                buf_index: buf.index(),
            }),
    {
        let mut buf = buf;
        let ptr = buf.stable_mut_ptr();
        let len = buf.bytes_total();
        let buf_index = buf.buf_index();
        let sqe = Submission {
            opcode: Opcode::ReadFixed,
            fd: fd.raw_fd(),
            addr: ptr,
            len: #[verifier::truncate] (len as u32),
            offset,
            buf_index,
        };
        UnsubmittedOneshot::new(ReadData { _fd: fd.clone(), buf }, ReadTransform { _phantom: PhantomData }, sqe)
    }
}

impl<T: IoBufMut> UnsubmittedOneshot<ReadData<T>, ReadTransform<T>> {
    /// A read into `buf`, which lies in the registered buffer `buf_index`.
    pub fn read_fixed_at_with_index(fd: &SharedFd, buf: T, buf_index: u16, offset: u64) -> (op: Self)
        requires
            buf.inv(),
        ensures
            op.data().buf() == buf,
            op.data().fd().raw() == fd.raw(),
            op.descriptor() == (Submission {
                opcode: Opcode::ReadFixed,
                fd: fd.raw(),
                addr: buf.addr(),
                len: buf.total() as u32,
                offset,
                buf_index,
            }),
    {
        let mut buf = buf;
        let ptr = buf.stable_mut_ptr();
        let len = buf.bytes_total();
        let sqe = Submission {
            opcode: Opcode::ReadFixed,
            fd: fd.raw_fd(),
            addr: ptr,
            len: #[verifier::truncate] (len as u32),
            offset,
            buf_index,
        };
        UnsubmittedOneshot::new(ReadData { _fd: fd.clone(), buf }, ReadTransform { _phantom: PhantomData }, sqe)
    }
}

} // verus!
