//! Buffers that were registered with the kernel ahead of time.

use crate::buf::buffer::Buffer;
use crate::buf::io_buf::{IoBuf, IoBufMut};
use vstd::prelude::*;

verus! {

/// A buffer that knows under which index of the fixed-buffer pool its
/// memory was registered.
pub trait Registered: IoBuf {
    /// The index in the pool.
    spec fn index(&self) -> u16;

    /// The index in the pool.
    fn buf_index(&self) -> (i: u16)
        ensures
            i == self.index(),
    ;
}

/// A buffer together with the pool index it was registered under.
pub struct FixedBuf {
    buf: Buffer,
    index: u16,
}

impl FixedBuf {
    /// The buffer that was registered.
    pub closed spec fn buffer(&self) -> Buffer {
        self.buf
    }

    /// Pairs a buffer with the index the pool gave it.
    pub fn new(buf: Buffer, index: u16) -> (f: FixedBuf)
        ensures
            f.buffer() == buf,
            f.index() == index,
    {
        FixedBuf { buf, index }
    }

    /// The buffer alone, for checking it back into the pool.
    pub fn into_inner(self) -> (buf: Buffer)
        ensures
            buf == self.buffer(),
    {
        self.buf
    }
}

impl IoBuf for FixedBuf {
    open spec fn inv(&self) -> bool {
        self.buffer().inv()
    }

    open spec fn addr(&self) -> usize {
        self.buffer().addr()
    }

    open spec fn init(&self) -> nat {
        self.buffer().init()
    }

    open spec fn total(&self) -> nat {
        self.buffer().total()
    }

    proof fn lemma_init_within_total(&self) {
        self.buffer().lemma_init_within_total();
    }

    fn stable_ptr(&self) -> (p: usize) {
        self.buf.stable_ptr()
    }

    fn bytes_init(&self) -> (n: usize) {
        self.buf.bytes_init()
    }

    fn bytes_total(&self) -> (n: usize) {
        self.buf.bytes_total()
    }
}

impl IoBufMut for FixedBuf {
    /// The buffer changes as it would alone; the index stays.
    open spec fn set_init_to(&self, pos: usize, after: &FixedBuf) -> bool {
        &&& self.buffer().set_init_to(pos, &after.buffer())
        &&& after.index() == self.index()
    }

    proof fn lemma_set_init(&self, pos: usize, after: &FixedBuf) {
        self.buffer().lemma_set_init(pos, &after.buffer());
    }

    fn stable_mut_ptr(&mut self) -> (p: usize) {
        self.buf.stable_ptr()
    }

    fn set_init(&mut self, pos: usize) {
        self.buf.set_init(pos);
    }
}

impl Registered for FixedBuf {
    closed spec fn index(&self) -> u16 {
        self.index
    }

    fn buf_index(&self) -> (i: u16) {
        self.index
    }
}

} // verus!
