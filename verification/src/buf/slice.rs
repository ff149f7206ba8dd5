//! A view of part of a buffer.

use crate::buf::fixed::Registered;
use crate::buf::io_buf::{min_int, IoBuf, IoBufMut};
use vstd::prelude::*;

verus! {

/// The bytes `begin..end` of a buffer, offered to the kernel in place of the
/// whole. The view holds the buffer and copies nothing; taking the view
/// apart gives the buffer back.
pub struct Slice<T> {
    buf: T,
    begin: usize,
    end: usize,
}

/// Whether `begin..end` is a range of the buffer: in order, within the
/// capacity, and with addresses that fit the machine word.
pub open spec fn in_bounds<T: IoBuf>(buf: &T, begin: usize, end: usize) -> bool {
    &&& begin <= end
    &&& end <= buf.total()
    &&& buf.addr() + end <= usize::MAX
}

impl<T: IoBuf> Slice<T> {
    /// The buffer that the view restricts.
    pub closed spec fn base(&self) -> T {
        self.buf
    }

    /// Where the view starts, in bytes from the start of the buffer.
    pub closed spec fn lower(&self) -> usize {
        self.begin
    }

    /// Where the view ends, in bytes from the start of the buffer.
    pub closed spec fn upper(&self) -> usize {
        self.end
    }

    /// The view of `begin..end` of `buf`. A range that is out of order or
    /// reaches past the capacity of the buffer is refused at once, and the
    /// buffer comes back.
    pub fn new(buf: T, begin: usize, end: usize) -> (r: Result<Slice<T>, T>)
        requires
            buf.inv(),
        ensures
            r is Ok <==> in_bounds(&buf, begin, end),
            r matches Ok(s) ==> s.inv() && s.base() == buf && s.lower() == begin && s.upper() == end,
            r matches Err(b) ==> b == buf,
    {
        if begin > end || end > buf.bytes_total() || end > usize::MAX - buf.stable_ptr() {
            Err(buf)
        } else {
            Ok(Slice { buf, begin, end })
        }
    }

    /// Where the view starts.
    pub fn begin(&self) -> (n: usize)
        ensures
            n == self.lower(),
    {
        self.begin
    }

    /// Where the view ends.
    pub fn end(&self) -> (n: usize)
        ensures
            n == self.upper(),
    {
        self.end
    }

    /// The whole buffer, for reading only.
    pub fn get_ref(&self) -> (buf: &T)
        ensures
            *buf == self.base(),
    {
        &self.buf
    }

    /// Ends the view and gives the whole buffer back. It is as it was
    /// passed in, but for the initialized length where that was set through
    /// the view.
    pub fn into_inner(self) -> (buf: T)
        ensures
            buf == self.base(),
    {
        self.buf
    }
}

impl<T: IoBuf> IoBuf for Slice<T> {
    open spec fn inv(&self) -> bool {
        &&& self.base().inv()
        &&& in_bounds(&self.base(), self.lower(), self.upper())
    }

    /// The address of the buffer, moved on by the start of the view.
    open spec fn addr(&self) -> usize {
        (self.base().addr() + self.lower()) as usize
    }

    /// The initialized bytes of the buffer that fall into the view.
    open spec fn init(&self) -> nat {
        if self.base().init() <= self.lower() {
            0
        } else {
            (min_int(self.upper() as int, self.base().init() as int) - self.lower()) as nat
        }
    }

    /// The length of the view.
    open spec fn total(&self) -> nat {
        (self.upper() - self.lower()) as nat
    }

    proof fn lemma_init_within_total(&self) {
    }

    fn stable_ptr(&self) -> (p: usize) {
        self.buf.stable_ptr() + self.begin
    }

    fn bytes_init(&self) -> (n: usize) {
        let init = self.buf.bytes_init();
        if init <= self.begin {
            0
        } else if init < self.end {
            init - self.begin
        } else {
            self.end - self.begin
        }
    }

    fn bytes_total(&self) -> (n: usize) {
        self.end - self.begin
    }
}

impl<T: IoBufMut> IoBufMut for Slice<T> {
    /// The buffer is set to hold the bytes before the view and `pos` bytes
    /// of the view, or all of the view where `pos` is more than its length.
    /// The range of the view stays.
    open spec fn set_init_to(&self, pos: usize, after: &Slice<T>) -> bool {
        &&& after.lower() == self.lower()
        &&& after.upper() == self.upper()
        &&& self.base().set_init_to(
            (self.lower() + min_int(pos as int, self.upper() - self.lower())) as usize,
            &after.base(),
        )
    }

    proof fn lemma_set_init(&self, pos: usize, after: &Slice<T>) {
        self.base().lemma_set_init(
            (self.lower() + min_int(pos as int, self.upper() - self.lower())) as usize,
            &after.base(),
        );
    }

    fn stable_mut_ptr(&mut self) -> (p: usize) {
        self.stable_ptr()
    }

    fn set_init(&mut self, pos: usize) {
        let room = self.end - self.begin;
        let within = if pos <= room {
            pos
        } else {
            room
        };
        self.buf.set_init(self.begin + within);
    }
}

impl<T: Registered> Registered for Slice<T> {
    /// The index of the buffer that the view restricts.
    open spec fn index(&self) -> u16 {
        self.base().index()
    }

    fn buf_index(&self) -> (i: u16) {
        self.buf.buf_index()
    }
}

} // verus!
