//! Reading and writing with a [`Buffer`]: one region goes to the kernel as
//! an address and a length, several go as a descriptor list.

use crate::buf::buffer::Buffer;
use crate::buf::region::{dealt, filled};
use crate::buf::io_buf::{IoBuf, IoBufMut};
use crate::io::shared_fd::SharedFd;
use crate::op::{os_code, os_code_of, BufResult, Error, OneshotOutputTransform, Opcode, Submission, UnsubmittedOneshot};
use vstd::prelude::*;

verus! {

/// An unsubmitted read or write on a [`Buffer`].
pub type Unsubmitted = UnsubmittedOneshot<ReadWriteData, ReadWriteTransform>;

/// What a read or write keeps while it is in flight.
pub struct ReadWriteData {
    /// Keeps the descriptor open while the operation is in flight.
    _fd: SharedFd,
    buf: Buffer,
}

impl ReadWriteData {
    /// The handle that keeps the descriptor open.
    pub closed spec fn fd(&self) -> SharedFd {
        self._fd
    }

    /// The buffer of the operation.
    pub closed spec fn buf(&self) -> Buffer {
        self.buf
    }

    /// The handle that keeps the descriptor open, for whoever drives the
    /// operation and wants a clone of its own.
    pub fn shared_fd(&self) -> (fd: &SharedFd)
        ensures
            *fd == self.fd(),
    {
        &self._fd
    }

    /// The buffer, for reading only.
    pub fn buffer(&self) -> (buf: &Buffer)
        ensures
            *buf == self.buf(),
    {
        &self.buf
    }
}

/// Which way the bytes go.
#[derive(Clone, Copy, Debug, PartialEq, Eq, Structural)]
pub enum Kind {
    /// From the file into the buffer.
    Read,
    /// From the buffer into the file.
    Write,
}

/// The completion rule of a read or write on a [`Buffer`].
pub struct ReadWriteTransform(Kind);

impl ReadWriteTransform {
    /// Which way the bytes went.
    pub closed spec fn kind(&self) -> Kind {
        self.0
    }
}

/// Whether `out` is the outcome of an operation of this kind on `buf` for a
/// result code.
///
/// A negative code comes back as the OS error with the buffer as it was. A
/// count of bytes written comes back with the buffer as it was. A count of
/// bytes read comes back with the buffer reporting that many bytes, dealt
/// out to its regions in order.
pub open spec fn read_write_outcome(kind: Kind, buf: Buffer, res: i32, out: BufResult<usize, Buffer>) -> bool {
    if res < 0 {
        out == Err::<(usize, Buffer), Error<Buffer>>(Error { code: os_code(res), buf })
    } else if kind == Kind::Write {
        out == Ok::<(usize, Buffer), Error<Buffer>>((res as usize, buf))
    } else {
        out matches Ok((n, after)) && n == res && buf.set_init_to(res as usize, &after)
    }
}

/// Whatever the kind and the result code, the outcome carries the buffer:
/// as it was after a failure or a write, and with the same regions, apart
/// from the lengths they report, after a read.
pub proof fn lemma_outcome_carries_buffer(kind: Kind, buf: Buffer, res: i32, out: BufResult<usize, Buffer>)
    requires
        buf.wf(),
        read_write_outcome(kind, buf, res, out),
    ensures
        res < 0 ==> (out matches Err(e) && e.buf == buf && e.code == os_code(res)),
        res >= 0 ==> (out matches Ok((n, after)) && n == res && after.wf() && after.addr() == buf.addr()
            && after.total() == buf.total()),
        res >= 0 && kind == Kind::Write ==> (out matches Ok((n, after)) && after == buf),
        res >= 0 && kind == Kind::Read ==> (out matches Ok((n, after)) && after@ == dealt(buf@, res as nat)),
{
    if res >= 0 && kind == Kind::Read {
        match out {
            Ok((n, after)) => {
                buf.lemma_set_init(res as usize, &after);
            },
            Err(e) => {},
        }
    }
}

impl OneshotOutputTransform for ReadWriteTransform {
    type Output = BufResult<usize, Buffer>;

    type StoredData = ReadWriteData;

    open spec fn accepts(data: &ReadWriteData) -> bool {
        data.buf().wf()
    }

    open spec fn yields(&self, data: &ReadWriteData, res: i32, out: &BufResult<usize, Buffer>) -> bool {
        read_write_outcome(self.kind(), data.buf(), res, *out)
    }

    fn transform_result(self, data: ReadWriteData, res: i32) -> (out: BufResult<usize, Buffer>) {
        let mut buf = data.buf;
        if res < 0 {
            return Err(Error { code: os_code_of(res), buf });
        }
        match self.0 {
            Kind::Read => {
                buf.set_init(res as usize);
            },
            Kind::Write => {},
        }
        Ok((res as usize, buf))
    }

    fn transform_oneshot_output(self, data: ReadWriteData, cqe: io_uring::cqueue::Entry) -> (out: BufResult<
        usize,
        Buffer,
    >) {
        let res = cqe.result();
        self.transform_result(data, res)
    }
}

/// The descriptor of a write from a buffer: the plain opcode on the
/// initialized bytes for one region, else the vectored opcode on the
/// descriptor list.
pub open spec fn write_submission(fd: i32, buf: Buffer, offset: u64) -> Submission {
    if buf@.len() == 1 {
        Submission {
            opcode: Opcode::Write,
            fd,
            addr: buf@[0].addr,
            len: buf.init() as u32,
            offset,
            buf_index: 0,
        }
    } else {
        Submission {
            opcode: Opcode::Writev,
            fd,
            addr: buf.list_addr(),
            len: buf@.len() as u32,
            offset,
            buf_index: 0,
        }
    }
}

/// The descriptor of a read into a buffer: the plain opcode on the whole
/// capacity for one region, else the vectored opcode on the descriptor list.
pub open spec fn read_submission(fd: i32, buf: Buffer, offset: u64) -> Submission {
    if buf@.len() == 1 {
        Submission {
            opcode: Opcode::Read,
            fd,
            addr: buf@[0].addr,
            len: buf.total() as u32,
            offset,
            buf_index: 0,
        }
    } else {
        Submission {
            opcode: Opcode::Readv,
            fd,
            addr: buf.list_addr(),
            len: buf@.len() as u32,
            offset,
            buf_index: 0,
        }
    }
}

impl UnsubmittedOneshot<ReadWriteData, ReadWriteTransform> {
    /// A write of what the regions of `buf` report to `fd` at `offset`.
    pub fn write_at(fd: &SharedFd, buf: Buffer, offset: u64) -> (op: Self)
        requires
            buf.wf(),
        ensures
            op.data().buf() == buf,
            op.data().fd().raw() == fd.raw(),
            op.transform().kind() == Kind::Write,
            op.descriptor() == write_submission(fd.raw(), buf, offset),
    {
        let ptr = buf.stable_ptr();
        let len = buf.bytes_init();
        let opcode = if buf.len() == 1 {
            Opcode::Write
        } else {
            Opcode::Writev
        };
        let len = if buf.len() == 1 {
            #[verifier::truncate]
            (len as u32)
        } else {
            #[verifier::truncate]
            (buf.len() as u32)
        };
        let sqe = Submission { opcode, fd: fd.raw_fd(), addr: ptr, len, offset, buf_index: 0 };
        UnsubmittedOneshot::new(ReadWriteData { _fd: fd.clone(), buf }, ReadWriteTransform(Kind::Write), sqe)
    }

    /// A read from `fd` at `offset` into the regions of `buf`. Every region
    /// is first set to report its whole capacity, so that the kernel may
    /// fill all of it.
    pub fn read_at(fd: &SharedFd, buf: Buffer, offset: u64) -> (op: Self)
        requires
            buf.wf(),
        ensures
            op.data().buf().wf(),
            op.data().buf()@ == filled(buf@),
            op.data().buf().list_addr() == buf.list_addr(),
            op.data().fd().raw() == fd.raw(),
            op.transform().kind() == Kind::Read,
            op.descriptor() == read_submission(fd.raw(), buf, offset),
    {
        let mut buf = buf;
        let ptr = buf.stable_mut_ptr();
        let len = buf.bytes_total();
        buf.fill();
        let opcode = if buf.len() == 1 {
            Opcode::Read
        } else {
            Opcode::Readv
        };
        let len = if buf.len() == 1 {
            #[verifier::truncate]
            (len as u32)
        } else {
            #[verifier::truncate]
            (buf.len() as u32)
        };
        let sqe = Submission { opcode, fd: fd.raw_fd(), addr: ptr, len, offset, buf_index: 0 };
        UnsubmittedOneshot::new(ReadWriteData { _fd: fd.clone(), buf }, ReadWriteTransform(Kind::Read), sqe)
    }
}

} // verus!
