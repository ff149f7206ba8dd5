//! What a buffer must offer to be lent to the kernel.

use vstd::prelude::*;

verus! {

/// The smaller of two integers.
pub open spec fn min_int(a: int, b: int) -> int {
    if a <= b {
        a
    } else {
        b
    }
}

/// A buffer the kernel may read from.
///
/// The address must stay where it is from the moment an operation is built
/// until its completion is handled: the kernel works on the numbers it was
/// given. No method of this trait moves or reallocates the memory.
pub trait IoBuf: Sized {
    /// Whether the value is well formed. Every constructor in this crate
    /// establishes it and every method keeps it.
    spec fn inv(&self) -> bool;

    /// The address handed to the kernel.
    spec fn addr(&self) -> usize;

    /// How many bytes, counted from the address, hold data.
    spec fn init(&self) -> nat;

    /// How many bytes, counted from the address, the kernel may use.
    spec fn total(&self) -> nat;

    /// The initialized length never exceeds the capacity, and both fit the
    /// machine word.
    proof fn lemma_init_within_total(&self)
        requires
            self.inv(),
        ensures
            self.init() <= self.total() <= usize::MAX,
    ;

    /// The stable address of the buffer.
    fn stable_ptr(&self) -> (p: usize)
        requires
            self.inv(),
        ensures
            p == self.addr(),
    ;

    /// The number of initialized bytes.
    fn bytes_init(&self) -> (n: usize)
        requires
            self.inv(),
        ensures
            n == self.init(),
    ;

    /// The total capacity in bytes.
    fn bytes_total(&self) -> (n: usize)
        requires
            self.inv(),
        ensures
            n == self.total(),
    ;
}

/// A buffer the kernel may write to.
pub trait IoBufMut: IoBuf {
    /// How `after` arises from `self` when the initialized length is set to
    /// `pos`. Each implementation says here all that `set_init` changes.
    spec fn set_init_to(&self, pos: usize, after: &Self) -> bool;

    /// Whatever the implementation, setting the initialized length keeps the
    /// address and the capacity, and the new length is `pos` cut off at the
    /// capacity.
    proof fn lemma_set_init(&self, pos: usize, after: &Self)
        requires
            self.inv(),
            self.set_init_to(pos, after),
        ensures
            after.inv(),
            after.addr() == self.addr(),
            after.total() == self.total(),
            after.init() == min_int(pos as int, self.total() as int),
    ;

    /// The stable address of the buffer, for writing. The buffer itself is
    /// left as it was.
    fn stable_mut_ptr(&mut self) -> (p: usize)
        requires
            old(self).inv(),
        ensures
            *final(self) == *old(self),
            p == old(self).addr(),
    ;

    /// Records that the first `pos` bytes now hold data.
    ///
    /// Call it only with a count that the kernel reported for this buffer:
    /// the bytes are taken to be there.
    fn set_init(&mut self, pos: usize)
        requires
            old(self).inv(),
        ensures
            old(self).set_init_to(pos, final(self)),
    ;
}

} // verus!
