//! A buffer of one or several regions, described to the kernel as a list of
//! `(address, length)` pairs.

use crate::buf::io_buf::{min_int, IoBuf, IoBufMut};
use crate::buf::region::{
    dealt, filled, lemma_dealt_in_order, lemma_dealt_sum, lemma_filled_sum, lemma_sum_cap_same,
    lemma_sum_len_le_sum_cap, lemma_sum_push, saturated, share, sum_cap, sum_len, Provenance, Region,
};
use crate::sys::{iovec_base, iovec_get_base, iovec_get_len, iovec_len, iovec_new, vec_addr, vec_capacity};
use vstd::prelude::*;

verus! {

/// What each of the arrays holds.
pub open spec fn contents(arrays: Seq<Vec<u8>>) -> Seq<Seq<u8>> {
    Seq::new(arrays.len(), |i: int| arrays[i]@)
}

/// `a + b`, cut off at the largest `usize`.
fn saturating_sum(a: usize, b: usize) -> (c: usize)
    ensures
        c == saturated((a + b) as nat),
{
    if b > usize::MAX - a {
        usize::MAX
    } else {
        a + b
    }
}

/// What the buffer keeps for each region besides its descriptor.
pub(crate) struct BufferState {
    total_bytes: usize,
    provenance: Provenance,
    storage: Vec<u8>,
}

/// An owned buffer of one or several regions.
///
/// The kernel sees the regions as an array of `libc::iovec`. Beside each
/// descriptor the buffer keeps the capacity of the region, its provenance
/// and, for an owned array, the array itself, filled up with zero bytes to
/// its capacity so that every byte the kernel may touch is initialized.
pub struct Buffer {
    iovecs: Vec<libc::iovec>,
    state: Vec<BufferState>,
    list_addr: usize,
}

/// Whether a descriptor and a record are what `adopt` makes of an array
/// with the contents `src`.
spec fn adopted(iov: libc::iovec, st: BufferState, src: Seq<u8>) -> bool {
    &&& iovec_len(iov) == src.len()
    &&& st.provenance == Provenance::OwnedArray
    &&& st.storage@.len() == st.total_bytes
    &&& st.total_bytes >= src.len()
    &&& st.storage@.subrange(0, src.len() as int) == src
    &&& forall|j: int| src.len() <= j < st.storage@.len() ==> st.storage@[j] == 0
}

impl View for Buffer {
    type V = Seq<Region>;

    closed spec fn view(&self) -> Seq<Region> {
        Seq::new(
            self.iovecs@.len(),
            |i: int|
                Region {
                    addr: iovec_base(self.iovecs@[i]),
                    len: iovec_len(self.iovecs@[i]),
                    cap: self.state@[i].total_bytes,
                    provenance: self.state@[i].provenance,
                    bytes: self.state@[i].storage@,
                },
        )
    }
}

impl Buffer {
    /// The descriptors and the per-region records are paired one to one.
    pub closed spec fn aligned(&self) -> bool {
        self.iovecs@.len() == self.state@.len()
    }

    /// Whether the buffer is well formed.
    pub open spec fn wf(&self) -> bool {
        &&& self.aligned()
        &&& forall|i: int| 0 <= i < self@.len() ==> (#[trigger] self@[i]).ok()
    }

    /// The address of the descriptor list.
    pub closed spec fn list_addr(&self) -> usize {
        self.list_addr
    }

    /// Takes over one byte array as a region: records its capacity, fills
    /// the unused rest of it with zero bytes and describes it to the kernel
    /// with its address and its length.
    fn adopt(buf: Vec<u8>) -> (r: (libc::iovec, BufferState))
        ensures
            adopted(r.0, r.1, buf@),
    {
        let len = buf.len();
        let total_bytes = vec_capacity(&buf);
        let mut storage = buf;
        storage.resize(total_bytes, 0u8);
        let base = vec_addr(&storage);
        let iov = iovec_new(base, len);
        let st = BufferState { total_bytes, provenance: Provenance::OwnedArray, storage };
        assert(st.storage@.subrange(0, buf@.len() as int) == buf@);
        (iov, st)
    }

    /// A buffer of one region over memory that the caller names by address.
    ///
    /// The buffer only records the two numbers. Whoever hands the buffer to
    /// the kernel answers for the memory: it must stay valid, and must not be
    /// used otherwise, until the operation has completed. Such a region is
    /// never released by the buffer and never handed out as a byte array.
    pub fn from_raw_parts(addr: usize, len: usize) -> (b: Buffer)
        ensures
            b.wf(),
            b@.len() == 1,
            b@[0] == (Region {
                addr,
                len,
                cap: len,
                provenance: Provenance::External,
                bytes: Seq::<u8>::empty(),
            }),
    {
        let mut iovecs: Vec<libc::iovec> = Vec::new();
        let mut state: Vec<BufferState> = Vec::new();
        iovecs.push(iovec_new(addr, len));
        state.push(BufferState { total_bytes: len, provenance: Provenance::External, storage: Vec::new() });
        let list_addr = vec_addr(&iovecs);
        Buffer { iovecs, state, list_addr }
    }

    /// Sets every region to report its whole capacity, so that a read may
    /// fill all of it. Addresses, capacities and contents stay.
    pub fn fill(&mut self)
        requires
            old(self).wf(),
        ensures
            final(self).wf(),
            final(self)@ == filled(old(self)@),
            final(self).list_addr() == old(self).list_addr(),
    {
        let mut i: usize = 0;
        while i < self.iovecs.len()
            invariant
                i <= self.iovecs@.len(),
                self.iovecs@.len() == old(self).iovecs@.len(),
                self.state == old(self).state,
                self.list_addr == old(self).list_addr,
                old(self).wf(),
                forall|j: int|
                    0 <= j < i ==> {
                        &&& iovec_base(#[trigger] self.iovecs@[j]) == iovec_base(old(self).iovecs@[j])
                        &&& iovec_len(self.iovecs@[j]) == self.state@[j].total_bytes
                    },
                forall|j: int| i <= j < self.iovecs@.len() ==> #[trigger] self.iovecs@[j] == old(self).iovecs@[j],
            decreases self.iovecs@.len() - i,
        {
            let base = iovec_get_base(&self.iovecs[i]);
            let cap = self.state[i].total_bytes;
            self.iovecs.set(i, iovec_new(base, cap));
            i += 1;
        }
        assert(self@ =~= filled(old(self)@));
    }

    /// Whether every region is an owned array.
    pub open spec fn all_owned(&self) -> bool {
        forall|i: int| 0 <= i < self@.len() ==> (#[trigger] self@[i]).provenance == Provenance::OwnedArray
    }

    /// Whether the buffer is one region that is an owned array.
    pub open spec fn single_owned(&self) -> bool {
        self@.len() == 1 && self@[0].provenance == Provenance::OwnedArray
    }

    /// What the regions report, region by region.
    pub open spec fn reported(&self) -> Seq<Seq<u8>> {
        Seq::new(self@.len(), |i: int| self@[i].data())
    }

    /// Whether the buffer is made of exactly these arrays: one owned region
    /// for each, in order, reporting the array's length and contents.
    pub open spec fn holds(&self, arrays: Seq<Seq<u8>>) -> bool {
        &&& self@.len() == arrays.len()
        &&& forall|i: int|
            0 <= i < arrays.len() ==> {
                &&& (#[trigger] self@[i]).provenance == Provenance::OwnedArray
                &&& self@[i].len == arrays[i].len()
                &&& self@[i].data() == arrays[i]
            }
    }

    /// Whether every byte past what a region reports is zero.
    pub open spec fn zero_padded(&self) -> bool {
        forall|i: int, j: int|
            0 <= i < self@.len() && self@[i].len <= j < self@[i].bytes.len() ==> (#[trigger] self@[i].bytes[j]) == 0
    }

    /// Whether region `index` exists and is an owned array.
    fn is_owned(&self, index: usize) -> (b: bool)
        requires
            self.aligned(),
        ensures
            b == (index < self@.len() && self@[index as int].provenance == Provenance::OwnedArray),
    {
        if index < self.state.len() {
            match self.state[index].provenance {
                Provenance::OwnedArray => true,
                Provenance::External => false,
            }
        } else {
            false
        }
    }

    /// Gives the only region back as the byte array it was made from, cut
    /// to the length the region reports.
    ///
    /// This succeeds if and only if the buffer has exactly one region and
    /// that region is an owned array. Otherwise the buffer comes back as it
    /// was, still owning all of its regions.
    pub fn try_into_vec(self) -> (r: Result<Vec<u8>, Buffer>)
        requires
            self.wf(),
        ensures
            r is Ok <==> self.single_owned(),
            r matches Ok(v) ==> v@ == self@[0].data(),
            r matches Err(b) ==> b == self,
    {
        if self.state.len() != 1 || !self.is_owned(0) {
            return Err(self);
        }
        let ghost regions = self@;
        let Buffer { iovecs, mut state, list_addr: _ } = self;
        let len = iovec_get_len(&iovecs[0]);
        match state.pop() {
            Some(st) => {
                let mut v = st.storage;
                v.truncate(len);
                assert(v@ == regions[0].data());
                Ok(v)
            },
            None => vstd::pervasive::unreached(),
        }
    }

    /// Gives every region back as the byte array it was made from, in
    /// order, each cut to the length its region reports.
    ///
    /// This succeeds if and only if every region is an owned array.
    /// Otherwise the buffer comes back as it was: no region is consumed.
    pub fn try_into_vecs(self) -> (r: Result<Vec<Vec<u8>>, Buffer>)
        requires
            self.wf(),
        ensures
            r is Ok <==> self.all_owned(),
            r matches Ok(vs) ==> contents(vs@) == self.reported(),
            r matches Err(b) ==> b == self,
    {
        let mut k: usize = 0;
        while k < self.state.len()
            invariant
                self.wf(),
                k <= self.state@.len(),
                forall|i: int| 0 <= i < k ==> (#[trigger] self@[i]).provenance == Provenance::OwnedArray,
            decreases self.state@.len() - k,
        {
            if !self.is_owned(k) {
                return Err(self);
            }
            k += 1;
        }
        let ghost regions = self@;
        let ghost reported = self.reported();
        let Buffer { iovecs, state, list_addr: _ } = self;
        let mut out: Vec<Vec<u8>> = Vec::with_capacity(state.len());
        for st in it: state
            invariant
                it.seq() == state@,
                iovecs@.len() == state@.len(),
                regions.len() == state@.len(),
                out@.len() == it.index(),
                forall|i: int|
                    0 <= i < regions.len() ==> {
                        &&& (#[trigger] regions[i]).len == iovec_len(iovecs@[i])
                        &&& regions[i].bytes == state@[i].storage@
                        &&& regions[i].provenance == Provenance::OwnedArray
                        &&& regions[i].ok()
                    },
                forall|i: int| 0 <= i < it.index() ==> (#[trigger] out@[i])@ == regions[i].data(),
        {
            let len = iovec_get_len(&iovecs[out.len()]);
            let mut v = st.storage;
            v.truncate(len);
            assert(v@ == regions[out@.len() as int].data());
            out.push(v);
        }
        assert(contents(out@) =~= reported);
        Ok(out)
    }

    /// Writes `src` into region `index`, starting `offset` bytes into it.
    /// The bytes must fall within what the region reports. Nothing else
    /// changes: not the region's address, length or capacity, and no other
    /// region.
    pub fn copy_into(&mut self, index: usize, offset: usize, src: &[u8])
        requires
            old(self).wf(),
            index < old(self)@.len(),
            old(self)@[index as int].provenance == Provenance::OwnedArray,
            offset + src@.len() <= old(self)@[index as int].len,
        ensures
            final(self).wf(),
            final(self).list_addr() == old(self).list_addr(),
            final(self)@ == old(self)@.update(
                index as int,
                Region {
                    bytes: old(self)@[index as int].bytes.take(offset as int) + src@ + old(
                        self,
                    )@[index as int].bytes.skip(offset + src@.len()),
                    ..old(self)@[index as int]
                },
            ),
    {
        let ghost before = old(self)@[index as int].bytes;
        let mut k: usize = 0;
        while k < src.len()
            invariant
                k <= src@.len(),
                old(self).wf(),
                index < old(self)@.len(),
                offset + src@.len() <= old(self)@[index as int].len,
                old(self)@[index as int].provenance == Provenance::OwnedArray,
                before == old(self)@[index as int].bytes,
                self.iovecs == old(self).iovecs,
                self.list_addr == old(self).list_addr,
                self.state@.len() == old(self).state@.len(),
                forall|j: int|
                    0 <= j < self.state@.len() && j != index ==> #[trigger] self.state@[j] == old(self).state@[j],
                self.state@[index as int].total_bytes == old(self).state@[index as int].total_bytes,
                self.state@[index as int].provenance == old(self).state@[index as int].provenance,
                self.state@[index as int].storage@ == before.take(offset as int) + src@.take(k as int)
                    + before.skip(offset + k),
            decreases src@.len() - k,
        {
            let byte = src[k];
            self.state[index].storage.set(offset + k, byte);
            k += 1;
            assert(self.state@[index as int].storage@ =~= before.take(offset as int) + src@.take(k as int)
                + before.skip(offset + k));
        }
        assert(src@.take(k as int) == src@);
        assert(self@ =~= old(self)@.update(
            index as int,
            Region {
                bytes: before.take(offset as int) + src@ + before.skip(offset + src@.len()),
                ..old(self)@[index as int]
            },
        ));
    }

    /// The address and the reported length of region `index`, as the kernel
    /// is told them; `None` where there is no such region.
    pub fn descriptor(&self, index: usize) -> (d: Option<(usize, usize)>)
        requires
            self.wf(),
        ensures
            d == if index < self@.len() {
                Some((self@[index as int].addr, self@[index as int].len))
            } else {
                None
            },
    {
        if index < self.iovecs.len() {
            Some((iovec_get_base(&self.iovecs[index]), iovec_get_len(&self.iovecs[index])))
        } else {
            None
        }
    }

    /// The capacity of region `index`; `None` where there is no such region.
    pub fn capacity(&self, index: usize) -> (c: Option<usize>)
        requires
            self.wf(),
        ensures
            c == if index < self@.len() {
                Some(self@[index as int].cap)
            } else {
                None
            },
    {
        if index < self.state.len() {
            Some(self.state[index].total_bytes)
        } else {
            None
        }
    }

    /// How region `index` was obtained; `None` where there is no such
    /// region.
    pub fn provenance(&self, index: usize) -> (p: Option<Provenance>)
        requires
            self.wf(),
        ensures
            p == if index < self@.len() {
                Some(self@[index as int].provenance)
            } else {
                None
            },
    {
        if index < self.state.len() {
            Some(self.state[index].provenance)
        } else {
            None
        }
    }

    /// The number of regions.
    pub fn len(&self) -> (n: usize)
        ensures
            n == self@.len(),
    {
        self.iovecs.len()
    }
}

/// A buffer made of arrays gives the same arrays back: converting succeeds,
/// and each array comes back with the length and the contents it came with.
pub proof fn lemma_round_trip(b: Buffer, arrays: Seq<Seq<u8>>)
    requires
        b.holds(arrays),
    ensures
        b.all_owned(),
        b.reported() == arrays,
        arrays.len() == 1 ==> b.single_owned() && b@[0].data() == arrays[0],
{
    assert(b.reported() =~= arrays);
}

/// A buffer with a region of external memory is never converted: neither
/// as one array nor as several.
pub proof fn lemma_external_is_kept(b: Buffer, i: int)
    requires
        0 <= i < b@.len(),
        b@[i].provenance == Provenance::External,
    ensures
        !b.all_owned(),
        !b.single_owned(),
{
}

/// The initialized bytes of a buffer are the lengths its regions report,
/// added up; its capacity is their capacities, added up; and the first
/// never exceeds the second. (The sums are exact whenever the capacities
/// add up to a `usize`.)
pub proof fn lemma_byte_counts(b: Buffer)
    requires
        b.wf(),
    ensures
        b.init() <= b.total(),
        sum_len(b@) <= sum_cap(b@),
        sum_cap(b@) <= usize::MAX ==> b.init() == sum_len(b@) && b.total() == sum_cap(b@),
{
    lemma_sum_len_le_sum_cap(b@);
}

/// Setting the initialized length to a count within the capacity leaves
/// the buffer reporting exactly that count, dealt out to the regions in
/// order: where a region is left with room to spare, every later region
/// reports nothing.
pub proof fn lemma_set_init_exact(b: Buffer, n: usize, after: Buffer)
    requires
        b.wf(),
        b.set_init_to(n, &after),
        n <= sum_cap(b@),
    ensures
        after.wf(),
        sum_len(after@) == n,
        after.init() == n,
        forall|i: int, j: int|
            0 <= i < j < b@.len() && (#[trigger] after@[i]).len < b@[i].cap ==> (#[trigger] after@[j]).len == 0,
{
    b.lemma_set_init(n, &after);
    lemma_dealt_sum(b@, n as nat, b@.len() as int);
    assert(b@.take(b@.len() as int) == b@);
    assert(after@.take(b@.len() as int) == after@);
    assert forall|i: int, j: int|
        0 <= i < j < b@.len() && (#[trigger] after@[i]).len < b@[i].cap implies (#[trigger] after@[j]).len == 0 by {
        lemma_dealt_in_order(b@, n as nat, i, j);
    }
}

/// After filling, a buffer reports its whole capacity as initialized.
pub proof fn lemma_fill_reports_capacity(b: Buffer, after: Buffer)
    requires
        b.wf(),
        after@ == filled(b@),
    ensures
        after.init() == b.total(),
        after.total() == b.total(),
{
    lemma_filled_sum(b@);
}

impl IoBuf for Buffer {
    open spec fn inv(&self) -> bool {
        self.wf()
    }

    /// The address of the only region, or, with any other number of
    /// regions, the address of the descriptor list.
    open spec fn addr(&self) -> usize {
        if self@.len() == 1 {
            self@[0].addr
        } else {
            self.list_addr()
        }
    }

    /// The reported lengths added up (cut off at the largest `usize`, which
    /// the sum cannot pass while every region is memory of this process).
    open spec fn init(&self) -> nat {
        saturated(sum_len(self@))
    }

    /// The capacities added up (cut off likewise).
    open spec fn total(&self) -> nat {
        saturated(sum_cap(self@))
    }

    proof fn lemma_init_within_total(&self) {
        lemma_sum_len_le_sum_cap(self@);
    }

    fn stable_ptr(&self) -> (p: usize) {
        if self.state.len() == 1 {
            iovec_get_base(&self.iovecs[0])
        } else {
            self.list_addr
        }
    }

    fn bytes_init(&self) -> (n: usize) {
        let mut n: usize = 0;
        let mut i: usize = 0;
        while i < self.iovecs.len()
            invariant
                i <= self.iovecs@.len(),
                self@.len() == self.iovecs@.len(),
                n == saturated(sum_len(self@.take(i as int))),
            decreases self.iovecs@.len() - i,
        {
            proof {
                lemma_sum_push(self@.take(i as int), self@[i as int]);
                assert(self@.take(i as int).push(self@[i as int]) == self@.take(i + 1));
            }
            n = saturating_sum(n, iovec_get_len(&self.iovecs[i]));
            i += 1;
        }
        assert(self@.take(i as int) == self@);
        n
    }

    fn bytes_total(&self) -> (n: usize) {
        let mut n: usize = 0;
        let mut i: usize = 0;
        while i < self.state.len()
            invariant
                i <= self.state@.len(),
                self@.len() == self.state@.len(),
                n == saturated(sum_cap(self@.take(i as int))),
            decreases self.state@.len() - i,
        {
            proof {
                lemma_sum_push(self@.take(i as int), self@[i as int]);
                assert(self@.take(i as int).push(self@[i as int]) == self@.take(i + 1));
            }
            n = saturating_sum(n, self.state[i].total_bytes);
            i += 1;
        }
        assert(self@.take(i as int) == self@);
        n
    }
}

impl IoBufMut for Buffer {
    /// The bytes are dealt out to the regions in order, each taking what it
    /// can hold before the next gets any.
    open spec fn set_init_to(&self, pos: usize, after: &Buffer) -> bool {
        &&& after.aligned()
        &&& after@ == dealt(self@, pos as nat)
        &&& after.list_addr() == self.list_addr()
    }

    proof fn lemma_set_init(&self, pos: usize, after: &Buffer) {
        lemma_sum_cap_same(self@, after@);
        lemma_dealt_sum(self@, pos as nat, self@.len() as int);
        assert(self@.take(self@.len() as int) == self@);
        assert(after@.take(self@.len() as int) == after@);
    }

    fn stable_mut_ptr(&mut self) -> (p: usize) {
        self.stable_ptr()
    }

    fn set_init(&mut self, pos: usize) {
        let mut remaining: usize = pos;
        let mut i: usize = 0;
        while i < self.iovecs.len()
            invariant
                i <= self.iovecs@.len(),
                self.iovecs@.len() == old(self).iovecs@.len(),
                self.state == old(self).state,
                self.list_addr == old(self).list_addr,
                old(self).wf(),
                remaining == pos - min_int(pos as int, sum_cap(old(self)@.take(i as int)) as int),
                forall|j: int|
                    0 <= j < i ==> {
                        &&& iovec_base(#[trigger] self.iovecs@[j]) == iovec_base(old(self).iovecs@[j])
                        &&& iovec_len(self.iovecs@[j]) == share(old(self)@, j, pos as nat)
                    },
                forall|j: int| i <= j < self.iovecs@.len() ==> #[trigger] self.iovecs@[j] == old(self).iovecs@[j],
            decreases self.iovecs@.len() - i,
        {
            proof {
                lemma_sum_push(old(self)@.take(i as int), old(self)@[i as int]);
                assert(old(self)@.take(i as int).push(old(self)@[i as int]) == old(self)@.take(i + 1));
            }
            let base = iovec_get_base(&self.iovecs[i]);
            let cap = self.state[i].total_bytes;
            let size = if cap <= remaining {
                cap
            } else {
                remaining
            };
            self.iovecs.set(i, iovec_new(base, size));
            remaining -= size;
            i += 1;
        }
        assert(self@ =~= dealt(old(self)@, pos as nat));
    }
}

impl vstd::std_specs::core::IndexSpecImpl<usize> for Buffer {
    /// Indexing asks for a region that exists and is an owned array: the
    /// bytes of any other region are not the buffer's to show.
    open spec fn index_req(&self, index: &usize) -> bool {
        &&& self.wf()
        &&& *index < self@.len()
        &&& self@[*index as int].provenance == Provenance::OwnedArray
    }
}

impl core::ops::Index<usize> for Buffer {
    type Output = [u8];

    /// The bytes that region `index` reports.
    fn index(&self, index: usize) -> (bytes: &[u8])
        ensures
            bytes@ == self@[index as int].data(),
    {
        let len = iovec_get_len(&self.iovecs[index]);
        vstd::slice::slice_subrange(self.state[index].storage.as_slice(), 0, len)
    }
}

impl vstd::std_specs::convert::FromSpecImpl<Vec<u8>> for Buffer {
    /// Where the array lies and how much it can hold is the allocator's
    /// choice, so the buffer is no function of the array's contents.
    open spec fn obeys_from_spec() -> bool {
        false
    }

    open spec fn from_spec(v: Vec<u8>) -> Buffer {
        arbitrary()
    }
}

impl From<Vec<u8>> for Buffer {
    /// A buffer of one region that takes over `buf`. The region reports the
    /// array's length and contents; its capacity is the array's.
    fn from(buf: Vec<u8>) -> (b: Buffer)
        ensures
            b.wf(),
            b.holds(seq![buf@]),
            b.zero_padded(),
    {
        let (iov, st) = Buffer::adopt(buf);
        let mut iovecs: Vec<libc::iovec> = Vec::new();
        let mut state: Vec<BufferState> = Vec::new();
        iovecs.push(iov);
        state.push(st);
        let list_addr = vec_addr(&iovecs);
        Buffer { iovecs, state, list_addr }
    }
}

impl vstd::std_specs::convert::FromSpecImpl<Vec<Vec<u8>>> for Buffer {
    open spec fn obeys_from_spec() -> bool {
        false
    }

    open spec fn from_spec(v: Vec<Vec<u8>>) -> Buffer {
        arbitrary()
    }
}

impl From<Vec<Vec<u8>>> for Buffer {
    /// A buffer with one region for each array of `bufs`, in their order.
    /// This is the form that vectored operations take.
    fn from(bufs: Vec<Vec<u8>>) -> (b: Buffer)
        ensures
            b.wf(),
            b.holds(contents(bufs@)),
            b.zero_padded(),
    {
        let mut iovecs: Vec<libc::iovec> = Vec::with_capacity(bufs.len());
        let mut state: Vec<BufferState> = Vec::with_capacity(bufs.len());
        for buf in it: bufs
            invariant
                it.seq() == bufs@,
                iovecs@.len() == it.index(),
                state@.len() == it.index(),
                forall|j: int|
                    0 <= j < iovecs@.len() ==> #[trigger] adopted(iovecs@[j], state@[j], bufs@[j]@),
        {
            let (iov, st) = Buffer::adopt(buf);
            iovecs.push(iov);
            state.push(st);
        }
        let list_addr = vec_addr(&iovecs);
        let b = Buffer { iovecs, state, list_addr };
        assert forall|i: int| 0 <= i < bufs@.len() implies {
            &&& (#[trigger] b@[i]).ok()
            &&& b@[i].len == bufs@[i]@.len()
            &&& b@[i].provenance == Provenance::OwnedArray
            &&& b@[i].data() == bufs@[i]@
        } by {
            assert(adopted(b.iovecs@[i], b.state@[i], bufs@[i]@));
        }
        assert forall|i: int, j: int|
            0 <= i < b@.len() && b@[i].len <= j < b@[i].bytes.len() implies (#[trigger] b@[i].bytes[j]) == 0 by {
            assert(adopted(b.iovecs@[i], b.state@[i], bufs@[i]@));
        }
        b
    }
}

} // verus!
