//! The regions of a buffer as contracts see them, and the arithmetic of
//! their lengths and capacities.

use crate::buf::io_buf::min_int;
use vstd::prelude::*;

verus! {

/// How the memory of a region was obtained, which decides how it is released
/// and whether it can be handed out again as a byte array.
#[derive(Clone, Copy, Debug, PartialEq, Eq, Structural)]
pub enum Provenance {
    /// The region is a byte array that the buffer took over and still holds.
    OwnedArray,
    /// The region is memory that the caller named by address. The buffer
    /// never reads, writes or frees it.
    External,
}

/// One region of a buffer, as contracts see it.
pub struct Region {
    /// Where the region starts.
    pub addr: usize,
    /// How many bytes of it are reported to the kernel.
    pub len: usize,
    /// How many bytes it can hold.
    pub cap: usize,
    /// How its memory was obtained.
    pub provenance: Provenance,
    /// What the array holds, over its whole capacity. Empty for a region
    /// that is not an owned array.
    pub bytes: Seq<u8>,
}

impl Region {
    /// The bytes that the region reports: the first `len` of the array.
    pub open spec fn data(self) -> Seq<u8> {
        self.bytes.subrange(0, self.len as int)
    }

    /// The same region reporting another length.
    pub open spec fn with_len(self, len: usize) -> Region {
        Region { len, ..self }
    }

    /// What holds of every region of a well-formed buffer.
    pub open spec fn ok(self) -> bool {
        &&& self.len <= self.cap
        &&& self.provenance == Provenance::OwnedArray ==> self.bytes.len() == self.cap
        &&& self.provenance == Provenance::External ==> self.bytes.len() == 0
    }
}

/// The reported lengths of the regions, added up.
pub open spec fn sum_len(regions: Seq<Region>) -> nat
    decreases regions.len(),
{
    if regions.len() == 0 {
        0
    } else {
        sum_len(regions.drop_last()) + regions.last().len as nat
    }
}

/// The capacities of the regions, added up.
pub open spec fn sum_cap(regions: Seq<Region>) -> nat
    decreases regions.len(),
{
    if regions.len() == 0 {
        0
    } else {
        sum_cap(regions.drop_last()) + regions.last().cap as nat
    }
}

/// A sum cut off at the largest `usize`.
pub open spec fn saturated(n: nat) -> nat {
    if n <= usize::MAX {
        n
    } else {
        usize::MAX as nat
    }
}

/// Adding one region to a list adds its length and its capacity to the sums.
pub proof fn lemma_sum_push(regions: Seq<Region>, r: Region)
    ensures
        sum_len(regions.push(r)) == sum_len(regions) + r.len,
        sum_cap(regions.push(r)) == sum_cap(regions) + r.cap,
{
    assert(regions.push(r).drop_last() == regions);
}

/// Where no region reports more than it can hold, the lengths add up to no
/// more than the capacities.
pub proof fn lemma_sum_len_le_sum_cap(regions: Seq<Region>)
    requires
        forall|i: int| 0 <= i < regions.len() ==> (#[trigger] regions[i]).len <= regions[i].cap,
    ensures
        sum_len(regions) <= sum_cap(regions),
    decreases regions.len(),
{
    if regions.len() > 0 {
        lemma_sum_len_le_sum_cap(regions.drop_last());
    }
}

/// How many of `pos` bytes fall to region `i` when they are dealt out to the
/// regions in order, each taking what it can hold before the next gets any.
pub open spec fn share(regions: Seq<Region>, i: int, pos: nat) -> nat {
    let before = sum_cap(regions.take(i));
    if pos <= before {
        0
    } else {
        min_int(regions[i].cap as int, pos - before) as nat
    }
}

/// The regions after `pos` bytes were dealt out to them: each reports its
/// share, and nothing else changes.
pub open spec fn dealt(regions: Seq<Region>, pos: nat) -> Seq<Region> {
    Seq::new(regions.len(), |i: int| regions[i].with_len(share(regions, i, pos) as usize))
}

/// The regions after each was set to report its whole capacity.
pub open spec fn filled(regions: Seq<Region>) -> Seq<Region> {
    Seq::new(regions.len(), |i: int| regions[i].with_len(regions[i].cap))
}

/// Two lists whose regions agree in capacity have the same total capacity.
pub proof fn lemma_sum_cap_same(a: Seq<Region>, b: Seq<Region>)
    requires
        a.len() == b.len(),
        forall|i: int| 0 <= i < a.len() ==> (#[trigger] a[i]).cap == b[i].cap,
    ensures
        sum_cap(a) == sum_cap(b),
    decreases a.len(),
{
    if a.len() > 0 {
        lemma_sum_cap_same(a.drop_last(), b.drop_last());
    }
}

/// Dealing out `pos` bytes leaves the regions reporting `pos` bytes in all,
/// or their whole capacity where `pos` is more than that.
pub proof fn lemma_dealt_sum(regions: Seq<Region>, pos: nat, k: int)
    requires
        0 <= k <= regions.len(),
    ensures
        sum_len(dealt(regions, pos).take(k)) == min_int(pos as int, sum_cap(regions.take(k)) as int),
    decreases k,
{
    let d = dealt(regions, pos);
    if k > 0 {
        lemma_dealt_sum(regions, pos, k - 1);
        assert(d.take(k).drop_last() == d.take(k - 1));
        assert(regions.take(k).drop_last() == regions.take(k - 1));
    }
}

/// The capacity of a longer prefix is no less than that of a shorter one.
pub proof fn lemma_sum_cap_prefix(regions: Seq<Region>, i: int, j: int)
    requires
        0 <= i <= j <= regions.len(),
    ensures
        sum_cap(regions.take(i)) <= sum_cap(regions.take(j)),
    decreases j - i,
{
    if i < j {
        lemma_sum_cap_prefix(regions, i, j - 1);
        assert(regions.take(j).drop_last() == regions.take(j - 1));
    }
}

/// Bytes are dealt out in order: no region reports more than it can hold,
/// and where one is left with room to spare, every later one reports
/// nothing.
pub proof fn lemma_dealt_in_order(regions: Seq<Region>, pos: nat, i: int, j: int)
    requires
        0 <= i < j < regions.len(),
    ensures
        dealt(regions, pos)[i].len <= regions[i].cap,
        dealt(regions, pos)[i].len < regions[i].cap ==> dealt(regions, pos)[j].len == 0,
{
    lemma_sum_cap_prefix(regions, i + 1, j);
    assert(regions.take(i + 1).drop_last() == regions.take(i));
}

/// Filling leaves the regions reporting their whole capacity.
pub proof fn lemma_filled_sum(regions: Seq<Region>)
    ensures
        sum_len(filled(regions)) == sum_cap(regions),
        sum_cap(filled(regions)) == sum_cap(regions),
    decreases regions.len(),
{
    if regions.len() > 0 {
        lemma_filled_sum(regions.drop_last());
        assert(filled(regions).drop_last() == filled(regions.drop_last()));
    }
}

} // verus!
