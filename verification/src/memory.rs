use vstd::prelude::*;
use core::ops::Range;
use crate::error::{Error, SUCCESS, ERROR_MEMORY_MAP_FAILED, ERROR_OUT_OF_DEVICE_MEMORY};
use crate::flags::MemoryFlags;

verus! {

// ---------------------------------------------------------------------------------------------
// Memory handles and their metadata
// ---------------------------------------------------------------------------------------------

/// A copy of a range of offsets.
pub fn copy_range(r: &Range<u64>) -> (c: Range<u64>)
    ensures
        c == *r,
{
    Range { start: r.start, end: r.end }
}

/// What an allocator records about a block it handed out.
pub trait MemoryMetadata {
    /// The offsets, inside the device memory, that the block covers.
    spec fn spec_range(&self) -> Range<u64>;

    /// The offsets, inside the device memory, that the block covers.
    fn range(&self) -> (r: Range<u64>)
        ensures
            r == self.spec_range();
}

/// A block of device memory: the (non-null) handle of the device memory it lives in, and
/// what the allocator that handed it out records about it.
pub struct MemoryPtr<M> {
    inner: u64,
    meta: M,
}

impl<M> MemoryPtr<M> {
    #[verifier::type_invariant]
    spec fn handle_not_null(self) -> bool {
        self.inner != 0
    }

    /// The device-memory handle the block lives in.
    pub closed spec fn id_spec(self) -> u64 {
        self.inner
    }

    /// What the allocator recorded about the block.
    pub closed spec fn meta_spec(self) -> M {
        self.meta
    }

    /// What the allocator recorded about the block.
    pub fn metadata(&self) -> (r: &M)
        ensures
            *r == self.meta_spec(),
    {
        &self.meta
    }

    /// Gives up the handle and keeps what the allocator recorded about the block.
    pub fn into_metadata(self) -> (r: M)
        ensures
            r == self.meta_spec(),
    {
        self.meta
    }

    /// Wraps a device-memory handle and its metadata.
    pub fn new(inner: u64, meta: M) -> (p: Self)
        requires
            inner != 0,
        ensures
            p.id_spec() == inner,
            p.meta_spec() == meta,
    {
        MemoryPtr { inner, meta }
    }

    /// The device-memory handle the block lives in; never zero.
    pub fn id(&self) -> (r: u64)
        ensures
            r == self.id_spec(),
            r != 0,
    {
        proof {
            use_type_invariant(self);
        }
        self.inner
    }
}

impl<M: MemoryMetadata> MemoryPtr<M> {
    /// The offsets the block covers.
    pub fn range(&self) -> (r: Range<u64>)
        ensures
            r == self.meta_spec().spec_range(),
    {
        self.meta.range()
    }

    /// The number of bytes the block covers.
    pub fn size(&self) -> (r: u64)
        requires
            self.meta_spec().spec_range().start <= self.meta_spec().spec_range().end,
        ensures
            r == self.meta_spec().spec_range().end - self.meta_spec().spec_range().start,
    {
        let range = self.range();
        range.end - range.start
    }
}

/// Metadata of a whole device-memory allocation of `size` bytes.
#[derive(Clone, Copy, PartialEq, Eq, Structural, Debug, Hash)]
pub struct RawInfo {
    pub size: u64,
}

impl MemoryMetadata for RawInfo {
    open spec fn spec_range(&self) -> Range<u64> {
        Range { start: 0, end: self.size }
    }

    fn range(&self) -> (r: Range<u64>) {
        Range { start: 0, end: self.size }
    }
}

/// Metadata of a block carved out of a page: the offsets it covers.
#[derive(Debug)]
pub struct PageInfo {
    pub range: Range<u64>,
}

impl MemoryMetadata for PageInfo {
    open spec fn spec_range(&self) -> Range<u64> {
        self.range
    }

    fn range(&self) -> (r: Range<u64>) {
        copy_range(&self.range)
    }
}

/// Metadata of a block handed out by a book: the page it lives in and its place in that page.
#[derive(Debug)]
pub struct BookInfo {
    pub page_idx: usize,
    pub page_info: PageInfo,
}

impl MemoryMetadata for BookInfo {
    open spec fn spec_range(&self) -> Range<u64> {
        self.page_info.range
    }

    fn range(&self) -> (r: Range<u64>) {
        self.page_info.range()
    }
}

// ---------------------------------------------------------------------------------------------
// Free ranges of a memory block
// ---------------------------------------------------------------------------------------------

/// Whether the half-open range `r` holds the offset `x`.
pub open spec fn range_has(r: Range<u64>, x: int) -> bool {
    r.start <= x < r.end
}

/// Whether some range of `rs` holds the offset `x`.
pub open spec fn ranges_have(rs: Seq<Range<u64>>, x: int) -> bool {
    exists|j: int| 0 <= j < rs.len() && range_has(#[trigger] rs[j], x)
}

/// Every range of `rs` starts no later than it ends.
pub open spec fn ranges_wf(rs: Seq<Range<u64>>) -> bool {
    forall|j: int| 0 <= j < rs.len() ==> (#[trigger] rs[j]).start <= rs[j].end
}

/// Two ranges share no offset (an empty range shares none with anything).
pub open spec fn apart(a: Range<u64>, b: Range<u64>) -> bool {
    a.end <= b.start || b.end <= a.start || a.end <= a.start || b.end <= b.start
}

/// No two ranges of `rs` share an offset.
pub open spec fn ranges_disjoint(rs: Seq<Range<u64>>) -> bool {
    forall|j: int, k: int|
        0 <= j < rs.len() && 0 <= k < rs.len() && j != k ==> apart(#[trigger] rs[j], #[trigger] rs[k])
}

/// The range `r` shares no offset with any range of `rs`.
pub open spec fn apart_from_all(r: Range<u64>, rs: Seq<Range<u64>>) -> bool {
    forall|j: int| 0 <= j < rs.len() ==> apart(r, #[trigger] rs[j])
}

/// Whether a block of `size` bytes, placed `r.start % align` bytes into `r`, fits strictly
/// inside `r`.
pub open spec fn fits(r: Range<u64>, size: u64, align: u64) -> bool {
    r.end - r.start > r.start % align + size
}

/// The index of the last range of `rs` in which a block fits, if any.
pub open spec fn last_fit(rs: Seq<Range<u64>>, size: u64, align: u64) -> Option<int>
    decreases rs.len(),
{
    if rs.len() == 0 {
        None
    } else if fits(rs.last(), size, align) {
        Some(rs.len() - 1)
    } else {
        last_fit(rs.drop_last(), size, align)
    }
}

/// The block that an allocation of `size` bytes aligned by `align` carves out of the free
/// ranges `rs` (meaningful when some range fits).
pub open spec fn block_of_alloc(rs: Seq<Range<u64>>, size: u64, align: u64) -> Range<u64> {
    match last_fit(rs, size, align) {
        Some(i) => {
            let pad = rs[i].start % align;
            Range { start: (rs[i].start + pad) as u64, end: (rs[i].start + pad + size) as u64 }
        },
        None => Range { start: 0, end: 0 },
    }
}

/// The free ranges left after an allocation of `size` bytes aligned by `align` from `rs`.
pub open spec fn ranges_after_alloc(rs: Seq<Range<u64>>, size: u64, align: u64) -> Seq<Range<u64>> {
    match last_fit(rs, size, align) {
        Some(i) => {
            let chosen = rs[i];
            let pad = chosen.start % align;
            if pad == 0 {
                rs.update(i, Range { start: (chosen.start + size) as u64, end: chosen.end })
            } else {
                rs.update(i, Range { start: chosen.start, end: pad }).push(
                    Range { start: (chosen.start + pad + size) as u64, end: chosen.end },
                )
            }
        },
        None => rs,
    }
}

proof fn lemma_last_fit_bounds(rs: Seq<Range<u64>>, size: u64, align: u64)
    ensures
        last_fit(rs, size, align) matches Some(i) ==> 0 <= i < rs.len() && fits(rs[i], size, align),
        last_fit(rs, size, align) is None ==> forall|j: int| 0 <= j < rs.len() ==> !fits(#[trigger] rs[j], size, align),
    decreases rs.len(),
{
    if rs.len() > 0 {
        lemma_last_fit_bounds(rs.drop_last(), size, align);
        if !fits(rs.last(), size, align) {
            assert forall|j: int| 0 <= j < rs.len() - 1 implies rs.drop_last()[j] == rs[j] by {}
        }
    }
}

proof fn lemma_last_fit_step(rs: Seq<Range<u64>>, i: int, size: u64, align: u64)
    requires
        0 <= i < rs.len(),
    ensures
        last_fit(rs.take(i + 1), size, align) == if fits(rs[i], size, align) {
            Some(i)
        } else {
            last_fit(rs.take(i), size, align)
        },
{
    assert(rs.take(i + 1).drop_last() =~= rs.take(i));
    assert(rs.take(i + 1).last() == rs[i]);
}

/// Removing index `i` by moving the last range into its place leaves exactly the offsets of the
/// other ranges.
proof fn lemma_swap_remove_have(rs: Seq<Range<u64>>, i: int, x: int)
    requires
        0 <= i < rs.len(),
    ensures
        ranges_have(rs.update(i, rs.last()).drop_last(), x) <==> exists|j: int|
            0 <= j < rs.len() && j != i && range_has(#[trigger] rs[j], x),
{
    let n = rs.update(i, rs.last()).drop_last();
    if ranges_have(n, x) {
        let j = choose|j: int| 0 <= j < n.len() && range_has(#[trigger] n[j], x);
        if j == i {
            assert(range_has(rs[rs.len() - 1], x));
        } else {
            assert(range_has(rs[j], x));
        }
    }
    if exists|j: int| 0 <= j < rs.len() && j != i && range_has(#[trigger] rs[j], x) {
        let j = choose|j: int| 0 <= j < rs.len() && j != i && range_has(#[trigger] rs[j], x);
        if j == rs.len() - 1 {
            assert(range_has(n[i], x));
        } else {
            assert(range_has(n[j], x));
        }
    }
}

/// Carves a block of `size` bytes out of the free ranges `ranges` of the memory `memory`.
///
/// Each range is tried in turn and the last one in which the block fits strictly is used. When
/// that range's start is a multiple of `align`, the block is taken from its front. Otherwise
/// the block starts `start % align` bytes in, the range is cut to end at offset
/// `start % align`, and the bytes after the block become a new free range at the end of
/// `ranges`. When no range fits, the driver's out-of-device-memory error is returned and the
/// ranges are left as they were.
pub fn allocate_in_ranges(
    memory: &MemoryPtr<RawInfo>,
    ranges: &mut Vec<Range<u64>>,
    size: u64,
    align: u64,
) -> (r: Result<MemoryPtr<PageInfo>, Error>)
    requires
        align > 0,
        ranges_wf(old(ranges)@),
        forall|j: int| 0 <= j < old(ranges)@.len() ==> (#[trigger] old(ranges)@[j]).start % align + size <= u64::MAX,
    ensures
        final(ranges)@ == ranges_after_alloc(old(ranges)@, size, align),
        last_fit(old(ranges)@, size, align) is None ==> *final(ranges) == *old(ranges),
        match last_fit(old(ranges)@, size, align) {
            None => r == Err::<MemoryPtr<PageInfo>, Error>(Error::Vulkan(ERROR_OUT_OF_DEVICE_MEMORY)),
            Some(_) => {
                &&& r is Ok
                &&& r->Ok_0.id_spec() == memory.id_spec()
                &&& r->Ok_0.meta_spec().range == block_of_alloc(old(ranges)@, size, align)
            },
        },
{
    let ghost old_ranges = ranges@;
    let mut result: Option<(usize, u64)> = None;
    let n = ranges.len();
    let mut i: usize = 0;
    while i < n
        invariant
            n == ranges.len(),
            ranges@ == old_ranges,
            i <= n,
            align > 0,
            ranges_wf(old_ranges),
            forall|j: int| 0 <= j < old_ranges.len() ==> (#[trigger] old_ranges[j]).start % align + size <= u64::MAX,
            match last_fit(old_ranges.take(i as int), size, align) {
                None => result is None,
                Some(k) => result == Some((k as usize, (old_ranges[k].start % align) as u64)),
            },
        decreases n - i,
    {
        let range = &ranges[i];
        let padding = range.start % align;
        let chunk_size = range.end - range.start;
        proof {
            lemma_last_fit_step(old_ranges, i as int, size, align);
            assert(old_ranges[i as int] == *range);
        }
        if chunk_size > padding + size {
            result = Some((i, padding));
        }
        i = i + 1;
    }
    proof {
        assert(old_ranges.take(n as int) =~= old_ranges);
        lemma_last_fit_bounds(old_ranges, size, align);
    }
    match result {
        Some((i, padding)) => {
            let range = copy_range(&ranges[i]);
            if padding == 0 {
                let start = range.start;
                let end = range.start + size;
                ranges.set(i, Range { start: end, end: range.end });
                Ok(MemoryPtr::new(memory.id(), PageInfo { range: Range { start, end } }))
            } else {
                let start = range.start + padding;
                let end = start + size;
                let prev_end = range.end;
                ranges.set(i, Range { start: range.start, end: padding });
                ranges.push(Range { start: end, end: prev_end });
                Ok(MemoryPtr::new(memory.id(), PageInfo { range: Range { start, end } }))
            }
        },
        None => Err(Error::Vulkan(ERROR_OUT_OF_DEVICE_MEMORY)),
    }
}

/// Whether `e` is the end of `freed` or of some range of `rs`.
pub open spec fn end_of_some(e: u64, rs: Seq<Range<u64>>, freed: Range<u64>) -> bool {
    e == freed.end || exists|k: int| 0 <= k < rs.len() && (#[trigger] rs[k]).end == e
}

/// An allocation whose chosen free range starts at a multiple of the alignment hands out a block
/// of exactly `size` bytes that was free, and afterwards exactly the bytes of that block have
/// left the free ranges; well-formedness and disjointness of the free ranges are kept.
pub proof fn lemma_alloc_takes_block(rs: Seq<Range<u64>>, size: u64, align: u64)
    requires
        align > 0,
        ranges_wf(rs),
        ranges_disjoint(rs),
        last_fit(rs, size, align) matches Some(i) && rs[i].start % align == 0,
    ensures
        block_of_alloc(rs, size, align).end - block_of_alloc(rs, size, align).start == size,
        forall|x: int| range_has(block_of_alloc(rs, size, align), x) ==> ranges_have(rs, x),
        forall|x: int| #![trigger ranges_have(ranges_after_alloc(rs, size, align), x)]
            ranges_have(ranges_after_alloc(rs, size, align), x) <==> (ranges_have(rs, x) && !range_has(block_of_alloc(rs, size, align), x)),
        ranges_wf(ranges_after_alloc(rs, size, align)),
        ranges_disjoint(ranges_after_alloc(rs, size, align)),
{
    lemma_last_fit_bounds(rs, size, align);
    let i = last_fit(rs, size, align)->Some_0;
    let block = block_of_alloc(rs, size, align);
    let after = ranges_after_alloc(rs, size, align);
    assert(after == rs.update(i, Range { start: (rs[i].start + size) as u64, end: rs[i].end }));
    assert forall|x: int| range_has(block, x) implies ranges_have(rs, x) by {
        assert(range_has(rs[i], x));
    }
    assert forall|x: int| #![trigger ranges_have(after, x)]
        ranges_have(after, x) <==> (ranges_have(rs, x) && !range_has(block, x)) by {
        if ranges_have(after, x) {
            let j = choose|j: int| 0 <= j < after.len() && range_has(#[trigger] after[j], x);
            if j == i {
                assert(range_has(rs[i], x));
            } else {
                assert(range_has(rs[j], x));
                assert(apart(rs[j], rs[i]));
            }
        }
        if ranges_have(rs, x) && !range_has(block, x) {
            let j = choose|j: int| 0 <= j < rs.len() && range_has(#[trigger] rs[j], x);
            assert(range_has(after[j], x));
        }
    }
    assert forall|j: int| 0 <= j < after.len() implies (#[trigger] after[j]).start <= after[j].end by {}
    assert forall|j: int, k: int| 0 <= j < after.len() && 0 <= k < after.len() && j != k implies apart(#[trigger] after[j], #[trigger] after[k]) by {
        assert(apart(rs[j], rs[k]));
    }
}

/// Freeing the block that such an allocation handed out gives back exactly the free bytes
/// there were before the allocation.
pub proof fn lemma_free_undoes_alloc(rs: Seq<Range<u64>>, size: u64, align: u64)
    requires
        align > 0,
        ranges_wf(rs),
        ranges_disjoint(rs),
        last_fit(rs, size, align) matches Some(i) && rs[i].start % align == 0,
    ensures
        forall|x: int| #![trigger ranges_have(rs, x)]
            (ranges_have(ranges_after_alloc(rs, size, align), x) || range_has(block_of_alloc(rs, size, align), x)) <==> ranges_have(rs, x),
        apart_from_all(block_of_alloc(rs, size, align), ranges_after_alloc(rs, size, align)),
        block_of_alloc(rs, size, align).start <= block_of_alloc(rs, size, align).end,
{
    lemma_alloc_takes_block(rs, size, align);
    lemma_last_fit_bounds(rs, size, align);
    let i = last_fit(rs, size, align)->Some_0;
    let block = block_of_alloc(rs, size, align);
    let after = ranges_after_alloc(rs, size, align);
    assert forall|x: int| #![trigger ranges_have(rs, x)]
        (ranges_have(after, x) || range_has(block, x)) <==> ranges_have(rs, x) by {
        assert(ranges_have(after, x) <==> (ranges_have(rs, x) && !range_has(block, x)));
    }
    assert forall|j: int| 0 <= j < after.len() implies apart(block, #[trigger] after[j]) by {
        if j != i {
            assert(after[j] == rs[j]);
            assert(apart(rs[j], rs[i]));
        }
    }
}

/// No range of `rs` ends where another one starts: free bytes that neighbour each other are
/// held in one range.
pub open spec fn ranges_coalesced(rs: Seq<Range<u64>>) -> bool {
    forall|j: int, k: int|
        0 <= j < rs.len() && 0 <= k < rs.len() && j != k ==> (#[trigger] rs[j]).end != (#[trigger] rs[k]).start
}

/// The range `r` neither ends where a range of `rs` starts nor starts where one ends.
pub open spec fn touches_none(r: Range<u64>, rs: Seq<Range<u64>>) -> bool {
    forall|j: int| 0 <= j < rs.len() ==> (#[trigger] rs[j]).start != r.end && rs[j].end != r.start
}

/// Whether the free ranges `rs` hold exactly the same bytes as `qs`.
pub open spec fn same_free_bytes(rs: Seq<Range<u64>>, qs: Seq<Range<u64>>) -> bool {
    forall|x: int| #![trigger ranges_have(rs, x)] #![trigger ranges_have(qs, x)] ranges_have(rs, x) <==> ranges_have(qs, x)
}

/// Gives the range `freed` back to the free ranges `ranges`.
///
/// Whenever a free range ends where the freed range starts, or starts where it ends, the two
/// are merged and the scan starts over with the merged range; at the end the (possibly merged)
/// range is appended. The offsets held afterwards are exactly those held before together with
/// those of `freed`; the appended range holds `freed` and touches no other range, and at most
/// one range is added.
pub fn free_in_ranges(ranges: &mut Vec<Range<u64>>, freed: Range<u64>)
    ensures
        final(ranges)@.len() <= old(ranges)@.len() + 1,
        final(ranges)@.len() > 0,
        touches_none(final(ranges)@.last(), final(ranges)@.drop_last()),
        ranges_wf(old(ranges)@) && freed.start <= freed.end ==>
            final(ranges)@.last().start <= freed.start && freed.end <= final(ranges)@.last().end,
        ranges_coalesced(old(ranges)@) ==> ranges_coalesced(final(ranges)@),
        ranges_wf(old(ranges)@) && freed.start <= freed.end ==> {
            &&& ranges_wf(final(ranges)@)
            &&& forall|x: int| #![trigger ranges_have(final(ranges)@, x)]
                ranges_have(final(ranges)@, x) <==> (ranges_have(old(ranges)@, x) || range_has(freed, x))
        },
        ranges_wf(old(ranges)@) && freed.start <= freed.end && ranges_disjoint(old(ranges)@)
            && apart_from_all(freed, old(ranges)@) ==> ranges_disjoint(final(ranges)@),
        forall|j: int| 0 <= j < final(ranges)@.len() ==> end_of_some((#[trigger] final(ranges)@[j]).end, old(ranges)@, freed),
{
    let ghost old_ranges = ranges@;
    let ghost was_wf = ranges_wf(old_ranges) && freed.start <= freed.end;
    let ghost was_disjoint = was_wf && ranges_disjoint(old_ranges) && apart_from_all(freed, old_ranges);
    let ghost was_coalesced = ranges_coalesced(old_ranges);
    let mut ptr_range = freed;
    let mut i: usize = 0;
    assert forall|j: int| 0 <= j < ranges@.len() implies end_of_some((#[trigger] ranges@[j]).end, old_ranges, freed) by {
        assert(old_ranges[j].end == ranges@[j].end);
    }
    while i < ranges.len()
        invariant
            i <= ranges.len(),
            was_wf == (ranges_wf(old_ranges) && freed.start <= freed.end),
            was_wf ==> ranges_wf(ranges@),
            was_wf ==> ptr_range.start <= ptr_range.end,
            was_wf ==> forall|x: int| (ranges_have(ranges@, x) || range_has(ptr_range, x)) <==> (ranges_have(old_ranges, x) || range_has(freed, x)),
            was_disjoint ==> ranges_disjoint(ranges@) && apart_from_all(ptr_range, ranges@),
            was_disjoint == (was_wf && ranges_disjoint(old_ranges) && apart_from_all(freed, old_ranges)),
            end_of_some(ptr_range.end, old_ranges, freed),
            forall|j: int| 0 <= j < ranges@.len() ==> end_of_some((#[trigger] ranges@[j]).end, old_ranges, freed),
            ranges@.len() <= old_ranges.len(),
            touches_none(ptr_range, ranges@.subrange(0, i as int)),
            was_wf ==> ptr_range.start <= freed.start && freed.end <= ptr_range.end,
            was_coalesced == ranges_coalesced(old_ranges),
            was_coalesced ==> ranges_coalesced(ranges@),
        decreases ranges.len(), ranges.len() - i,
    {
        let range = copy_range(&ranges[i]);
        if range.start == ptr_range.end {
            let ghost before = ranges@;
            let merged = Range { start: ptr_range.start, end: range.end };
            ranges.set(i, merged);
            let ghost mid = ranges@;
            let taken = ranges.swap_remove(i);
            proof {
                assert(taken == merged);
                if was_wf {
                    assert forall|x: int| (ranges_have(ranges@, x) || range_has(merged, x)) <==> (ranges_have(old_ranges, x) || range_has(freed, x)) by {
                        lemma_swap_remove_have(mid, i as int, x);
                        if ranges_have(before, x) {
                            let j = choose|j: int| 0 <= j < before.len() && range_has(#[trigger] before[j], x);
                            if j != i {
                                assert(range_has(mid[j], x));
                            }
                        }
                    }
                }
                assert forall|j: int| 0 <= j < ranges@.len() implies (was_wf ==> (#[trigger] ranges@[j]).start <= ranges@[j].end)
                    && end_of_some(ranges@[j].end, old_ranges, freed) by {
                    if j == i {
                        assert(ranges@[j] == mid[mid.len() - 1]);
                        assert(ranges@[j] == before[mid.len() - 1]);
                    } else {
                        assert(ranges@[j] == mid[j]);
                        assert(ranges@[j] == before[j]);
                    }
                }
                assert(end_of_some(merged.end, old_ranges, freed)) by {
                    assert(end_of_some(before[i as int].end, old_ranges, freed));
                }
                if was_disjoint {
                    assert forall|j: int, k: int|
                        0 <= j < ranges@.len() && 0 <= k < ranges@.len() && j != k implies apart(#[trigger] ranges@[j], #[trigger] ranges@[k]) by {
                        let jj = if j == i { mid.len() - 1 } else { j };
                        let kk = if k == i { mid.len() - 1 } else { k };
                        assert(ranges@[j] == before[jj]);
                        assert(ranges@[k] == before[kk]);
                    }
                    assert forall|j: int| 0 <= j < ranges@.len() implies apart(merged, #[trigger] ranges@[j]) by {
                        let jj = if j == i { mid.len() - 1 } else { j };
                        assert(ranges@[j] == before[jj]);
                        assert(apart(ptr_range, before[jj]));
                        assert(apart(before[i as int], before[jj]));
                    }
                }
                if was_coalesced {
                    assert forall|j: int, k: int|
                        0 <= j < ranges@.len() && 0 <= k < ranges@.len() && j != k implies (#[trigger] ranges@[j]).end != (#[trigger] ranges@[k]).start by {
                        let jj = if j == i { mid.len() - 1 } else { j };
                        let kk = if k == i { mid.len() - 1 } else { k };
                        assert(ranges@[j] == before[jj]);
                        assert(ranges@[k] == before[kk]);
                    }
                }
                assert(ranges@.subrange(0, 0) =~= Seq::<Range<u64>>::empty());
            }
            ptr_range = taken;
            i = 0;
            continue;
        }
        if range.end == ptr_range.start {
            let ghost before = ranges@;
            let merged = Range { start: range.start, end: ptr_range.end };
            ranges.set(i, merged);
            let ghost mid = ranges@;
            let taken = ranges.swap_remove(i);
            proof {
                assert(taken == merged);
                if was_wf {
                    assert forall|x: int| (ranges_have(ranges@, x) || range_has(merged, x)) <==> (ranges_have(old_ranges, x) || range_has(freed, x)) by {
                        lemma_swap_remove_have(mid, i as int, x);
                        if ranges_have(before, x) {
                            let j = choose|j: int| 0 <= j < before.len() && range_has(#[trigger] before[j], x);
                            if j != i {
                                assert(range_has(mid[j], x));
                            }
                        }
                    }
                }
                assert forall|j: int| 0 <= j < ranges@.len() implies (was_wf ==> (#[trigger] ranges@[j]).start <= ranges@[j].end)
                    && end_of_some(ranges@[j].end, old_ranges, freed) by {
                    if j == i {
                        assert(ranges@[j] == mid[mid.len() - 1]);
                        assert(ranges@[j] == before[mid.len() - 1]);
                    } else {
                        assert(ranges@[j] == mid[j]);
                        assert(ranges@[j] == before[j]);
                    }
                }
                assert(end_of_some(merged.end, old_ranges, freed)) by {
                    assert(end_of_some(before[i as int].end, old_ranges, freed));
                }
                if was_disjoint {
                    assert forall|j: int, k: int|
                        0 <= j < ranges@.len() && 0 <= k < ranges@.len() && j != k implies apart(#[trigger] ranges@[j], #[trigger] ranges@[k]) by {
                        let jj = if j == i { mid.len() - 1 } else { j };
                        let kk = if k == i { mid.len() - 1 } else { k };
                        assert(ranges@[j] == before[jj]);
                        assert(ranges@[k] == before[kk]);
                    }
                    assert forall|j: int| 0 <= j < ranges@.len() implies apart(merged, #[trigger] ranges@[j]) by {
                        let jj = if j == i { mid.len() - 1 } else { j };
                        assert(ranges@[j] == before[jj]);
                        assert(apart(ptr_range, before[jj]));
                        assert(apart(before[i as int], before[jj]));
                    }
                }
                if was_coalesced {
                    assert forall|j: int, k: int|
                        0 <= j < ranges@.len() && 0 <= k < ranges@.len() && j != k implies (#[trigger] ranges@[j]).end != (#[trigger] ranges@[k]).start by {
                        let jj = if j == i { mid.len() - 1 } else { j };
                        let kk = if k == i { mid.len() - 1 } else { k };
                        assert(ranges@[j] == before[jj]);
                        assert(ranges@[k] == before[kk]);
                    }
                }
                assert(ranges@.subrange(0, 0) =~= Seq::<Range<u64>>::empty());
            }
            ptr_range = taken;
            i = 0;
            continue;
        }
        proof {
            assert(range == ranges@[i as int]);
            assert forall|j: int| 0 <= j < i + 1 implies (#[trigger] ranges@.subrange(0, i + 1)[j]).start != ptr_range.end
                && ranges@.subrange(0, i + 1)[j].end != ptr_range.start by {
                if j < i {
                    assert(ranges@.subrange(0, i + 1)[j] == ranges@.subrange(0, i as int)[j]);
                }
            }
        }
        i = i + 1;
    }
    let ghost before = ranges@;
    ranges.push(ptr_range);
    proof {
        assert(before.subrange(0, i as int) =~= before);
        assert(ranges@.drop_last() =~= before);
        if was_coalesced {
            assert forall|j: int, k: int|
                0 <= j < ranges@.len() && 0 <= k < ranges@.len() && j != k implies (#[trigger] ranges@[j]).end != (#[trigger] ranges@[k]).start by {
                if j < before.len() {
                    assert(ranges@[j] == before[j]);
                }
                if k < before.len() {
                    assert(ranges@[k] == before[k]);
                }
                if j == before.len() {
                    assert(ranges@[k] == before[k]);
                }
                if k == before.len() {
                    assert(ranges@[j] == before[j]);
                }
            }
        }
        assert forall|x: int| #![trigger ranges_have(ranges@, x)] ranges_have(ranges@, x) <==> (ranges_have(before, x) || range_has(ptr_range, x)) by {
            if ranges_have(ranges@, x) {
                let j = choose|j: int| 0 <= j < ranges@.len() && range_has(#[trigger] ranges@[j], x);
                if j < before.len() {
                    assert(range_has(before[j], x));
                }
            }
            if ranges_have(before, x) {
                let j = choose|j: int| 0 <= j < before.len() && range_has(#[trigger] before[j], x);
                assert(range_has(ranges@[j], x));
            }
            if range_has(ptr_range, x) {
                assert(range_has(ranges@[before.len() as int], x));
            }
        }
        assert forall|j: int| 0 <= j < ranges@.len() implies (was_wf ==> (#[trigger] ranges@[j]).start <= ranges@[j].end)
            && end_of_some(ranges@[j].end, old_ranges, freed) by {
            if j < before.len() {
                assert(ranges@[j] == before[j]);
            }
        }
        if was_disjoint {
            assert forall|j: int, k: int|
                0 <= j < ranges@.len() && 0 <= k < ranges@.len() && j != k implies apart(#[trigger] ranges@[j], #[trigger] ranges@[k]) by {
                if j < before.len() {
                    assert(ranges@[j] == before[j]);
                }
                if k < before.len() {
                    assert(ranges@[k] == before[k]);
                }
            }
        }
    }
}

// ---------------------------------------------------------------------------------------------
// Whole device allocations
// ---------------------------------------------------------------------------------------------

/// A kind of device memory: its property flags and the heap it comes from.
#[derive(Clone, Copy, PartialEq, Eq, Structural, Debug, Hash)]
pub struct MemoryType {
    pub property_flags: u32,
    pub heap_index: u32,
}

/// The memory type's known properties include all of `flags`.
pub open spec fn type_has(t: MemoryType, flags: MemoryFlags) -> bool {
    (t.property_flags & crate::flags::MEMORY_FLAGS_ALL) & flags@ == flags@
}

/// The index of the first memory type whose known properties include all of `flags`.
pub fn select_memory_type(types: &Vec<MemoryType>, flags: MemoryFlags) -> (r: Option<u32>)
    requires
        types@.len() <= u32::MAX,
    ensures
        r matches Some(i) ==> i < types@.len() && type_has(types@[i as int], flags)
            && forall|j: int| 0 <= j < i ==> !type_has(#[trigger] types@[j], flags),
        r is None ==> forall|j: int| 0 <= j < types@.len() ==> !type_has(#[trigger] types@[j], flags),
{
    let mut i: usize = 0;
    while i < types.len()
        invariant
            i <= types@.len(),
            types@.len() <= u32::MAX,
            forall|j: int| 0 <= j < i ==> !type_has(#[trigger] types@[j], flags),
        decreases types@.len() - i,
    {
        if MemoryFlags::from_bits_truncate(types[i].property_flags).contains(flags) {
            return Some(i as u32);
        }
        i = i + 1;
    }
    None
}

/// The memory type a whole device allocation of the kind `flags` is made from: the first whose
/// known properties include all of `flags`; when none does, the device is out of memory and no
/// allocation is to be asked for. What the allocation call answers then goes to
/// `raw_allocation`.
pub fn allocation_type(types: &Vec<MemoryType>, flags: MemoryFlags) -> (r: Result<u32, Error>)
    requires
        types@.len() <= u32::MAX,
    ensures
        r matches Ok(i) ==> i < types@.len() && type_has(types@[i as int], flags)
            && forall|j: int| 0 <= j < i ==> !type_has(#[trigger] types@[j], flags),
        r is Err <==> forall|j: int| 0 <= j < types@.len() ==> !type_has(#[trigger] types@[j], flags),
        r is Err ==> r == Err::<u32, Error>(Error::Vulkan(ERROR_OUT_OF_DEVICE_MEMORY)),
{
    match select_memory_type(types, flags) {
        Some(i) => Ok(i),
        None => Err(Error::Vulkan(ERROR_OUT_OF_DEVICE_MEMORY)),
    }
}

/// The whole device allocation of `size` bytes that allocating memory answered: the result
/// code and the handle written; a null handle means the device is out of memory.
pub fn raw_allocation(size: u64, code: i32, handle: u64) -> (r: Result<MemoryPtr<RawInfo>, Error>)
    ensures
        code != SUCCESS ==> r is Err && r->Err_0 == Error::Vulkan(code),
        code == SUCCESS && handle == 0 ==> r is Err && r->Err_0 == Error::Vulkan(ERROR_OUT_OF_DEVICE_MEMORY),
        code == SUCCESS && handle != 0 ==> r is Ok && r->Ok_0.id_spec() == handle && r->Ok_0.meta_spec() == (RawInfo { size }),
{
    if code != SUCCESS {
        return Err(Error::Vulkan(code));
    }
    if handle == 0 {
        return Err(Error::Vulkan(ERROR_OUT_OF_DEVICE_MEMORY));
    }
    Ok(MemoryPtr::new(handle, RawInfo { size }))
}

// ---------------------------------------------------------------------------------------------
// Pages: one device allocation shared out by free ranges
// ---------------------------------------------------------------------------------------------

/// One end of a range of indices.
#[derive(Clone, Copy, PartialEq, Eq, Structural, Debug, Hash)]
pub enum Bound<T> {
    Included(T),
    Excluded(T),
    Unbounded,
}

/// The first index a start bound admits.
pub open spec fn start_index(b: Bound<usize>) -> int {
    match b {
        Bound::Excluded(x) => x + 1,
        Bound::Included(x) => x as int,
        Bound::Unbounded => 0,
    }
}

/// The index just past the last one an end bound admits, `unbounded` when there is no bound.
pub open spec fn end_index(b: Bound<usize>, unbounded: int) -> int {
    match b {
        Bound::Excluded(x) => x as int,
        Bound::Included(x) => x + 1,
        Bound::Unbounded => unbounded,
    }
}

/// The offset and the length to map in a device allocation of `size` bytes for the bounds
/// `start` and `end`.
pub fn raw_map_bounds(size: u64, start: Bound<usize>, end: Bound<usize>) -> (r: (usize, usize))
    requires
        start_index(start) <= usize::MAX,
        end_index(end, size as int) <= usize::MAX,
        start_index(start) <= end_index(end, size as int),
    ensures
        r.0 == start_index(start),
        r.1 == end_index(end, size as int) - start_index(start),
{
    let s = match start {
        Bound::Excluded(x) => x + 1,
        Bound::Included(x) => x,
        Bound::Unbounded => 0,
    };
    let e = match end {
        Bound::Excluded(x) => x,
        Bound::Included(x) => x + 1,
        Bound::Unbounded => size as usize,
    };
    (s, e - s)
}

/// The byte range, inside a page's mapping, that the bounds `start` and `end` select in the
/// block `block`: both are taken relative to the block's start, and the result is refused
/// with the driver's map-failed error when it reaches past the block's end.
pub fn page_map_bounds(block: &Range<u64>, start: Bound<usize>, end: Bound<usize>) -> (r: Result<(usize, usize), Error>)
    requires
        block.end <= usize::MAX,
        block.start + start_index(start) <= usize::MAX,
        end_index(end, block.end - block.start) + block.start <= usize::MAX,
        block.start <= block.end,
        ({
            let s = block.start + start_index(start);
            let e = block.start + end_index(end, block.end - block.start);
            s > block.end || e > block.end || s <= e
        }),
    ensures
        ({
            let s = block.start + start_index(start);
            let e = block.start + end_index(end, block.end - block.start);
            if s > block.end || e > block.end {
                r == Err::<(usize, usize), Error>(Error::Vulkan(ERROR_MEMORY_MAP_FAILED))
            } else {
                r == Ok::<(usize, usize), Error>((s as usize, (e - s) as usize))
            }
        }),
{
    let offset = block.start as usize;
    let s = offset + match start {
        Bound::Excluded(x) => x + 1,
        Bound::Included(x) => x,
        Bound::Unbounded => 0,
    };
    let e = match end {
        Bound::Excluded(x) => offset + x,
        Bound::Included(x) => offset + x + 1,
        Bound::Unbounded => block.end as usize,
    };
    if (s as u64) > block.end || (e as u64) > block.end {
        return Err(Error::Vulkan(ERROR_MEMORY_MAP_FAILED));
    }
    Ok((s, e - s))
}

/// One device allocation, shared out as blocks; the bytes not handed out are kept as a list of
/// free ranges. The whole allocation is mapped into host memory at most once, the first time a
/// block of it is mapped; the base address of that mapping is kept and used from then on.
pub struct Page {
    inner: MemoryPtr<RawInfo>,
    flags: MemoryFlags,
    ranges: Vec<Range<u64>>,
    mapped: Option<usize>,
}

impl Page {
    /// The free ranges, in the page's order.
    pub closed spec fn free_ranges(&self) -> Seq<Range<u64>> {
        self.ranges@
    }

    /// The number of bytes of the device allocation.
    pub closed spec fn size_spec(&self) -> u64 {
        self.inner.meta_spec().size
    }

    /// The handle of the device allocation.
    pub closed spec fn memory_id(&self) -> u64 {
        self.inner.id_spec()
    }

    /// The kind of memory of the page.
    pub closed spec fn flags_spec(&self) -> MemoryFlags {
        self.flags
    }

    /// The host address at which the whole allocation is mapped, once it is.
    pub closed spec fn mapping(&self) -> Option<usize> {
        self.mapped
    }

    /// The free ranges are well formed, pairwise disjoint, and inside the allocation.
    pub open spec fn wf(&self) -> bool {
        &&& ranges_wf(self.free_ranges())
        &&& ranges_disjoint(self.free_ranges())
        &&& forall|j: int| 0 <= j < self.free_ranges().len() ==> (#[trigger] self.free_ranges()[j]).end <= self.size_spec()
    }

    /// Whether an allocation of `size` bytes aligned by `align` can be asked of the page: the
    /// alignment is not zero, the free ranges are well formed, and no offset arithmetic overflows.
    pub open spec fn can_allocate(&self, size: u64, align: u64) -> bool {
        &&& align > 0
        &&& ranges_wf(self.free_ranges())
        &&& forall|j: int| 0 <= j < self.free_ranges().len() ==> (#[trigger] self.free_ranges()[j]).start % align + size <= u64::MAX
    }

    /// A page over the device allocation `inner` of the kind `flags`, all of it free.
    pub fn new(inner: MemoryPtr<RawInfo>, flags: MemoryFlags) -> (p: Self)
        ensures
            p.free_ranges() == seq![Range { start: 0u64, end: inner.meta_spec().size }],
            p.size_spec() == inner.meta_spec().size,
            p.memory_id() == inner.id_spec(),
            p.flags_spec() == flags,
            p.mapping() is None,
            p.wf(),
    {
        let size = inner.metadata().size;
        let mut ranges = Vec::new();
        ranges.push(Range { start: 0, end: size });
        Page { inner, flags, ranges, mapped: None }
    }

    /// The host address at which the whole allocation is mapped, if it is.
    pub fn mapped_base(&self) -> (r: Option<usize>)
        ensures
            r == self.mapping(),
    {
        self.mapped
    }

    /// Takes in what mapping the whole allocation answered, which is asked for only while the
    /// page is not mapped: the base address is kept, or the error is passed on and the page
    /// stays unmapped (a later map asks again).
    pub fn set_mapping(&mut self, mapped: Result<usize, Error>) -> (r: Result<(), Error>)
        requires
            old(self).mapping() is None,
        ensures
            final(self).free_ranges() == old(self).free_ranges(),
            final(self).size_spec() == old(self).size_spec(),
            final(self).memory_id() == old(self).memory_id(),
            final(self).flags_spec() == old(self).flags_spec(),
            match mapped {
                Ok(base) => final(self).mapping() == Some(base) && r is Ok,
                Err(e) => final(self).mapping() is None && r == Err::<(), Error>(e),
            },
    {
        match mapped {
            Ok(base) => {
                self.mapped = Some(base);
                Ok(())
            },
            Err(e) => Err(e),
        }
    }

    /// The kind of memory of the page.
    pub fn flags(&self) -> (r: MemoryFlags)
        ensures
            r == self.flags_spec(),
    {
        self.flags
    }

    /// The handle of the device allocation.
    pub fn memory(&self) -> (r: &MemoryPtr<RawInfo>)
        ensures
            r.id_spec() == self.memory_id(),
            r.meta_spec().size == self.size_spec(),
    {
        &self.inner
    }

    /// Hands out a block of `size` bytes aligned by `align` (see `allocate_in_ranges`).
    pub fn allocate(&mut self, size: u64, align: u64, flags: MemoryFlags) -> (r: Result<MemoryPtr<PageInfo>, Error>)
        requires
            old(self).can_allocate(size, align),
            flags == old(self).flags_spec(),
        ensures
            final(self).free_ranges() == ranges_after_alloc(old(self).free_ranges(), size, align),
            final(self).size_spec() == old(self).size_spec(),
            final(self).memory_id() == old(self).memory_id(),
            final(self).flags_spec() == old(self).flags_spec(),
            final(self).mapping() == old(self).mapping(),
            last_fit(old(self).free_ranges(), size, align) is None ==> *final(self) == *old(self),
            match last_fit(old(self).free_ranges(), size, align) {
                None => r == Err::<MemoryPtr<PageInfo>, Error>(Error::Vulkan(ERROR_OUT_OF_DEVICE_MEMORY)),
                Some(_) => {
                    &&& r is Ok
                    &&& r->Ok_0.id_spec() == old(self).memory_id()
                    &&& r->Ok_0.meta_spec().range == block_of_alloc(old(self).free_ranges(), size, align)
                },
            },
    {
        allocate_in_ranges(&self.inner, &mut self.ranges, size, align)
    }

    /// Takes back the block `ptr`: its bytes are free again, merged with the free ranges that
    /// neighbour them into the range appended last; at most one range is added.
    pub fn free(&mut self, ptr: MemoryPtr<PageInfo>)
        ensures
            final(self).free_ranges().len() <= old(self).free_ranges().len() + 1,
            final(self).free_ranges().len() > 0,
            touches_none(final(self).free_ranges().last(), final(self).free_ranges().drop_last()),
            ranges_wf(old(self).free_ranges()) && ptr.meta_spec().range.start <= ptr.meta_spec().range.end ==>
                final(self).free_ranges().last().start <= ptr.meta_spec().range.start
                && ptr.meta_spec().range.end <= final(self).free_ranges().last().end,
            ranges_coalesced(old(self).free_ranges()) ==> ranges_coalesced(final(self).free_ranges()),
            final(self).mapping() == old(self).mapping(),
            ranges_wf(old(self).free_ranges()) && ptr.meta_spec().range.start <= ptr.meta_spec().range.end ==> {
                &&& ranges_wf(final(self).free_ranges())
                &&& forall|x: int| ranges_have(final(self).free_ranges(), x) <==> (ranges_have(old(self).free_ranges(), x) || range_has(ptr.meta_spec().range, x))
            },
            old(self).wf() && ptr.meta_spec().range.start <= ptr.meta_spec().range.end
                && apart_from_all(ptr.meta_spec().range, old(self).free_ranges())
                && ptr.meta_spec().range.end <= old(self).size_spec() ==> final(self).wf(),
            final(self).size_spec() == old(self).size_spec(),
            final(self).memory_id() == old(self).memory_id(),
            final(self).flags_spec() == old(self).flags_spec(),
    {
        let info = ptr.into_metadata();
        let ghost old_ranges = self.ranges@;
        let ghost freed = info.range;
        free_in_ranges(&mut self.ranges, info.range);
        proof {
            assert(freed == ptr.meta_spec().range);
            if ranges_wf(old_ranges) && freed.start <= freed.end {
                assert forall|x: int| ranges_have(self.free_ranges(), x) <==> (ranges_have(old_ranges, x) || range_has(freed, x)) by {
                    assert(self.free_ranges() == self.ranges@);
                    assert(ranges_have(self.ranges@, x) <==> (ranges_have(old_ranges, x) || range_has(freed, x)));
                }
            }
            if ranges_wf(old_ranges) && freed.start <= freed.end && ranges_disjoint(old_ranges) && apart_from_all(freed, old_ranges) && freed.end <= self.size_spec()
                && (forall|j: int| 0 <= j < old_ranges.len() ==> (#[trigger] old_ranges[j]).end <= self.size_spec()) {
                assert forall|j: int| 0 <= j < self.ranges@.len() implies (#[trigger] self.ranges@[j]).end <= self.size_spec() by {
                    let e = self.ranges@[j].end;
                    assert(end_of_some(e, old_ranges, freed));
                    if e != freed.end {
                        let k = choose|k: int| 0 <= k < old_ranges.len() && (#[trigger] old_ranges[k]).end == e;
                    }
                }
            }
        }
    }

    /// The host address and length of the bytes that the bounds select in the block `mem` (see
    /// `page_map_bounds`), inside the page's mapping. `None` while the page is not mapped: the
    /// whole allocation is to be mapped first and the answer handed to `set_mapping`.
    pub fn map(&self, mem: &MemoryPtr<PageInfo>, start: Bound<usize>, end: Bound<usize>) -> (r: Option<Result<(usize, usize), Error>>)
        requires
            self.mapping() matches Some(base) ==> base + mem.meta_spec().range.end <= usize::MAX,
            mem.meta_spec().range.end <= usize::MAX,
            mem.meta_spec().range.start + start_index(start) <= usize::MAX,
            end_index(end, mem.meta_spec().range.end - mem.meta_spec().range.start) + mem.meta_spec().range.start <= usize::MAX,
            mem.meta_spec().range.start <= mem.meta_spec().range.end,
            ({
                let b = mem.meta_spec().range;
                let s = b.start + start_index(start);
                let e = b.start + end_index(end, b.end - b.start);
                s > b.end || e > b.end || s <= e
            }),
        ensures
            self.mapping() is None ==> r is None,
            self.mapping() matches Some(base) ==> ({
                let b = mem.meta_spec().range;
                let s = b.start + start_index(start);
                let e = b.start + end_index(end, b.end - b.start);
                if s > b.end || e > b.end {
                    r == Some(Err::<(usize, usize), Error>(Error::Vulkan(ERROR_MEMORY_MAP_FAILED)))
                } else {
                    r == Some(Ok::<(usize, usize), Error>(((base + s) as usize, (e - s) as usize)))
                }
            }),
    {
        match self.mapped {
            None => None,
            Some(base) => match page_map_bounds(&mem.metadata().range, start, end) {
                Ok((s, len)) => Some(Ok((base + s, len))),
                Err(e) => Some(Err(e)),
            },
        }
    }
}

// ---------------------------------------------------------------------------------------------
// Books: a bounded list of pages
// ---------------------------------------------------------------------------------------------

/// What a book answers to a request for memory.
pub enum BookAllocation {
    /// The block was carved out of one of the book's pages.
    Allocated(MemoryPtr<BookInfo>),
    /// No page of the requested kind has room; a new device allocation of `size` bytes is to
    /// be made and its outcome handed to `allocate_in_new_page`.
    NeedsPage { size: u64 },
    /// No page of the requested kind has room and the book holds as many slots as it may: the
    /// book keeps waiting for room, so the request is to be made again after a pause (a block
    /// freed in the meantime may make room).
    Wait,
}

/// A list of page slots, at most `max_pages` of them; a new page is at least `min_size` bytes
/// and no block may be larger than `max_size` bytes. A slot whose page could not be set up
/// stays empty: it counts toward `max_pages` and is skipped from then on.
pub struct Book {
    pages: Vec<Option<Page>>,
    max_pages: usize,
    range: Range<u64>,
}

/// Whether the page `p` is of the kind `flags` and has room for the block.
pub open spec fn page_fits(p: Page, size: u64, align: u64, flags: MemoryFlags) -> bool {
    p.flags_spec() == flags && last_fit(p.free_ranges(), size, align) is Some
}

/// Whether the slot `s` holds a page that is of the kind `flags` and has room for the block.
pub open spec fn slot_fits(s: Option<Page>, size: u64, align: u64, flags: MemoryFlags) -> bool {
    s matches Some(p) && page_fits(p, size, align, flags)
}

/// Whether the block may be asked of the page in slot `s`, if it holds one of the kind `flags`.
pub open spec fn slot_can_allocate(s: Option<Page>, size: u64, align: u64, flags: MemoryFlags) -> bool {
    match s {
        Some(p) => p.flags_spec() == flags ==> p.can_allocate(size, align),
        None => true,
    }
}

/// The page `q` is the page `p` after handing out the block.
pub open spec fn page_after_alloc(p: Page, q: Page, size: u64, align: u64) -> bool {
    &&& q.free_ranges() == ranges_after_alloc(p.free_ranges(), size, align)
    &&& q.size_spec() == p.size_spec()
    &&& q.memory_id() == p.memory_id()
    &&& q.flags_spec() == p.flags_spec()
    &&& q.mapping() == p.mapping()
}

impl Book {
    /// The page slots, in the order they were taken.
    pub closed spec fn pages_spec(&self) -> Seq<Option<Page>> {
        self.pages@
    }

    /// The most slots the book may hold.
    pub closed spec fn max_pages_spec(&self) -> usize {
        self.max_pages
    }

    /// The least size of a new page.
    pub closed spec fn min_size_spec(&self) -> u64 {
        self.range.start
    }

    /// The largest block the book hands out.
    pub closed spec fn max_size_spec(&self) -> u64 {
        self.range.end
    }

    /// An empty book for a device that allows `max_memory_allocation_count` allocations of at
    /// most `max_allocation_size` bytes each.
    ///
    /// Without `max_pages`, the book may hold as many pages as the device allows allocations
    /// (at least one); the largest block is the device's largest allocation (at least one byte);
    /// without `min_size`, a new page is as large as the largest block.
    pub fn new(
        min_size: Option<u64>,
        max_pages: Option<usize>,
        max_memory_allocation_count: u32,
        max_allocation_size: u64,
    ) -> (b: Self)
        requires
            min_size matches Some(x) ==> x != 0,
            max_pages matches Some(x) ==> x != 0,
        ensures
            b.pages_spec().len() == 0,
            b.max_pages_spec() == match max_pages {
                Some(x) => x,
                None => if max_memory_allocation_count == 0 { 1 } else { max_memory_allocation_count as usize },
            },
            b.max_size_spec() == if max_allocation_size == 0 { 1 } else { max_allocation_size },
            b.min_size_spec() == match min_size {
                Some(x) => x,
                None => b.max_size_spec(),
            },
    {
        let max_pages = match max_pages {
            Some(x) => x,
            None => if max_memory_allocation_count == 0 { 1 } else { max_memory_allocation_count as usize },
        };
        let max_size = if max_allocation_size == 0 { 1 } else { max_allocation_size };
        let min_size = match min_size {
            Some(x) => x,
            None => max_size,
        };
        Book { pages: Vec::new(), max_pages, range: Range { start: min_size, end: max_size } }
    }

    /// Hands out a block of `size` bytes aligned by `align` of the kind `flags`.
    ///
    /// A block larger than the book's largest is refused with the out-of-device-memory error.
    /// Otherwise the pages of the kind `flags` are tried in order and the first with room hands
    /// out the block; when none has room, the book asks for a new page of
    /// `max(min_size, size)` bytes, or, when all its slots are taken, to wait and ask again.
    pub fn allocate(&mut self, size: u64, align: u64, flags: MemoryFlags) -> (r: Result<BookAllocation, Error>)
        requires
            forall|j: int| 0 <= j < old(self).pages_spec().len()
                && (forall|k: int| 0 <= k < j ==> !slot_fits(#[trigger] old(self).pages_spec()[k], size, align, flags))
                ==> slot_can_allocate(#[trigger] old(self).pages_spec()[j], size, align, flags),
        ensures
            final(self).max_pages_spec() == old(self).max_pages_spec(),
            final(self).min_size_spec() == old(self).min_size_spec(),
            final(self).max_size_spec() == old(self).max_size_spec(),
            final(self).pages_spec().len() == old(self).pages_spec().len(),
            size > old(self).max_size_spec() ==> {
                &&& r == Err::<BookAllocation, Error>(Error::Vulkan(ERROR_OUT_OF_DEVICE_MEMORY))
                &&& final(self).pages_spec() == old(self).pages_spec()
            },
            size <= old(self).max_size_spec() ==> r is Ok,
            r matches Ok(BookAllocation::Allocated(p)) ==> {
                let k = p.meta_spec().page_idx as int;
                let page = old(self).pages_spec()[k].unwrap();
                &&& 0 <= k < old(self).pages_spec().len()
                &&& slot_fits(old(self).pages_spec()[k], size, align, flags)
                &&& forall|j: int| 0 <= j < k ==> !slot_fits(#[trigger] old(self).pages_spec()[j], size, align, flags)
                &&& final(self).pages_spec()[k] is Some
                &&& page_after_alloc(page, final(self).pages_spec()[k].unwrap(), size, align)
                &&& forall|j: int| 0 <= j < old(self).pages_spec().len() && j != k ==> #[trigger] final(self).pages_spec()[j] == old(self).pages_spec()[j]
                &&& p.id_spec() == page.memory_id()
                &&& p.meta_spec().page_info.range == block_of_alloc(page.free_ranges(), size, align)
            },
            r matches Ok(BookAllocation::NeedsPage { size: s }) ==> {
                &&& forall|j: int| 0 <= j < old(self).pages_spec().len() ==> !slot_fits(#[trigger] old(self).pages_spec()[j], size, align, flags)
                &&& old(self).pages_spec().len() < old(self).max_pages_spec()
                &&& s == if old(self).min_size_spec() >= size { old(self).min_size_spec() } else { size }
                &&& final(self).pages_spec() == old(self).pages_spec()
            },
            r matches Ok(BookAllocation::Wait) ==> {
                &&& forall|j: int| 0 <= j < old(self).pages_spec().len() ==> !slot_fits(#[trigger] old(self).pages_spec()[j], size, align, flags)
                &&& old(self).pages_spec().len() >= old(self).max_pages_spec()
                &&& final(self).pages_spec() == old(self).pages_spec()
            },
    {
        if size > self.range.end {
            return Err(Error::Vulkan(ERROR_OUT_OF_DEVICE_MEMORY));
        }
        let n = self.pages.len();
        let mut idx: usize = 0;
        while idx < n
            invariant
                n == self.pages@.len(),
                idx <= n,
                self.pages@ == old(self).pages@,
                self.max_pages == old(self).max_pages,
                self.range == old(self).range,
                size <= self.range.end,
                forall|j: int| 0 <= j < old(self).pages_spec().len()
                    && (forall|k: int| 0 <= k < j ==> !slot_fits(#[trigger] old(self).pages_spec()[k], size, align, flags))
                    ==> slot_can_allocate(#[trigger] old(self).pages_spec()[j], size, align, flags),
                forall|j: int| 0 <= j < idx ==> !slot_fits(#[trigger] self.pages@[j], size, align, flags),
            decreases n - idx,
        {
            let of_kind = match &self.pages[idx] {
                Some(p) => p.flags == flags,
                None => false,
            };
            if of_kind {
                let ghost before = self.pages@[idx as int];
                assert(old(self).pages_spec()[idx as int] == before);
                assert(slot_can_allocate(old(self).pages_spec()[idx as int], size, align, flags));
                let slot = self.pages.remove(idx);
                let mut page = match slot {
                    Some(p) => p,
                    None => {
                        assert(false);
                        return Err(Error::Vulkan(ERROR_OUT_OF_DEVICE_MEMORY));
                    },
                };
                let res = page.allocate(size, align, flags);
                self.pages.insert(idx, Some(page));
                proof {
                    assert(self.pages@ =~= old(self).pages@.update(idx as int, self.pages@[idx as int]));
                }
                match res {
                    Ok(ptr) => {
                        let id = ptr.id();
                        let info = ptr.into_metadata();
                        return Ok(BookAllocation::Allocated(MemoryPtr::new(id, BookInfo { page_idx: idx, page_info: info })));
                    },
                    Err(_) => {
                        proof {
                            assert(self.pages@ =~= old(self).pages@);
                        }
                    },
                }
            }
            idx = idx + 1;
        }
        if self.pages.len() < self.max_pages {
            let page_size = if self.range.start >= size { self.range.start } else { size };
            Ok(BookAllocation::NeedsPage { size: page_size })
        } else {
            Ok(BookAllocation::Wait)
        }
    }

    /// Takes a new slot for the outcome `memory` of the device allocation that `allocate` asked
    /// for, and hands out the block from a page of the kind `flags` over it.
    ///
    /// When the device allocation failed, its error is returned and the slot stays empty. When
    /// the block does not fit in the new page, the slot stays empty too, and the device
    /// allocation is handed back with the out-of-device-memory error, to be freed.
    pub fn allocate_in_new_page(
        &mut self,
        memory: Result<MemoryPtr<RawInfo>, Error>,
        size: u64,
        align: u64,
        flags: MemoryFlags,
    ) -> (r: Result<MemoryPtr<BookInfo>, (Error, Option<MemoryPtr<RawInfo>>)>)
        requires
            old(self).pages_spec().len() < old(self).max_pages_spec(),
            align > 0,
        ensures
            final(self).max_pages_spec() == old(self).max_pages_spec(),
            final(self).min_size_spec() == old(self).min_size_spec(),
            final(self).max_size_spec() == old(self).max_size_spec(),
            final(self).pages_spec().len() == old(self).pages_spec().len() + 1,
            forall|j: int| 0 <= j < old(self).pages_spec().len() ==> #[trigger] final(self).pages_spec()[j] == old(self).pages_spec()[j],
            ({
                let slot = final(self).pages_spec()[old(self).pages_spec().len() as int];
                match memory {
                    Err(e) => {
                        &&& slot is None
                        &&& r == Err::<MemoryPtr<BookInfo>, (Error, Option<MemoryPtr<RawInfo>>)>((e, None))
                    },
                    Ok(m) => if size < m.meta_spec().size {
                        let fresh = seq![Range { start: 0u64, end: m.meta_spec().size }];
                        &&& slot is Some
                        &&& slot.unwrap().free_ranges() == ranges_after_alloc(fresh, size, align)
                        &&& slot.unwrap().size_spec() == m.meta_spec().size
                        &&& slot.unwrap().memory_id() == m.id_spec()
                        &&& slot.unwrap().flags_spec() == flags
                        &&& r is Ok
                        &&& r->Ok_0.id_spec() == m.id_spec()
                        &&& r->Ok_0.meta_spec().page_idx == old(self).pages_spec().len()
                        &&& r->Ok_0.meta_spec().page_info.range == (Range { start: 0u64, end: size })
                    } else {
                        &&& slot is None
                        &&& r == Err::<MemoryPtr<BookInfo>, (Error, Option<MemoryPtr<RawInfo>>)>(
                            (Error::Vulkan(ERROR_OUT_OF_DEVICE_MEMORY), Some(m)))
                    },
                }
            }),
    {
        let idx = self.pages.len();
        let memory = match memory {
            Ok(m) => m,
            Err(e) => {
                self.pages.push(None);
                return Err((e, None));
            },
        };
        let ghost m = memory;
        let mut page = Page::new(memory, flags);
        let ghost fresh = page.free_ranges();
        proof {
            assert(fresh[0].start == 0);
            assert(0u64 % align == 0) by (nonlinear_arith) requires align > 0;
            reveal_with_fuel(last_fit, 2);
            assert(fresh.drop_last() =~= Seq::<Range<u64>>::empty());
        }
        let res = page.allocate(size, align, flags);
        match res {
            Ok(ptr) => {
                self.pages.push(Some(page));
                let id = ptr.id();
                let info = ptr.into_metadata();
                Ok(MemoryPtr::new(id, BookInfo { page_idx: idx, page_info: info }))
            },
            Err(e) => {
                self.pages.push(None);
                let inner = page.inner;
                assert(inner == m);
                Err((e, Some(inner)))
            },
        }
    }

    /// Takes back the block `ptr`; a block whose page index is past the book's slots, or names
    /// an empty slot, is ignored.
    pub fn free(&mut self, ptr: MemoryPtr<BookInfo>)
        ensures
            final(self).max_pages_spec() == old(self).max_pages_spec(),
            final(self).min_size_spec() == old(self).min_size_spec(),
            final(self).max_size_spec() == old(self).max_size_spec(),
            final(self).pages_spec().len() == old(self).pages_spec().len(),
            forall|j: int| 0 <= j < old(self).pages_spec().len() && j != ptr.meta_spec().page_idx ==> #[trigger] final(self).pages_spec()[j] == old(self).pages_spec()[j],
            ptr.meta_spec().page_idx >= old(self).pages_spec().len() ==> final(self).pages_spec() == old(self).pages_spec(),
            ptr.meta_spec().page_idx < old(self).pages_spec().len() ==> {
                let k = ptr.meta_spec().page_idx as int;
                match old(self).pages_spec()[k] {
                    None => final(self).pages_spec()[k] is None,
                    Some(before) => {
                        let after = final(self).pages_spec()[k].unwrap();
                        let freed = ptr.meta_spec().page_info.range;
                        &&& final(self).pages_spec()[k] is Some
                        &&& ranges_wf(before.free_ranges()) && freed.start <= freed.end ==> {
                            &&& ranges_wf(after.free_ranges())
                            &&& forall|x: int| #![trigger ranges_have(after.free_ranges(), x)]
                                ranges_have(after.free_ranges(), x) <==> (ranges_have(before.free_ranges(), x) || range_has(freed, x))
                        }
                        &&& after.size_spec() == before.size_spec()
                        &&& after.memory_id() == before.memory_id()
                        &&& after.flags_spec() == before.flags_spec()
                        &&& after.mapping() == before.mapping()
                        &&& after.free_ranges().len() <= before.free_ranges().len() + 1
                        &&& after.free_ranges().len() > 0
                        &&& touches_none(after.free_ranges().last(), after.free_ranges().drop_last())
                        &&& ranges_coalesced(before.free_ranges()) ==> ranges_coalesced(after.free_ranges())
                        &&& before.wf() && freed.start <= freed.end && apart_from_all(freed, before.free_ranges()) && freed.end <= before.size_spec() ==> after.wf()
                    },
                }
            },
    {
        let id = ptr.id();
        let info = ptr.into_metadata();
        let idx = info.page_idx;
        if idx < self.pages.len() {
            let slot = self.pages.remove(idx);
            match slot {
                Some(mut page) => {
                    page.free(MemoryPtr::new(id, info.page_info));
                    self.pages.insert(idx, Some(page));
                },
                None => {
                    self.pages.insert(idx, None);
                },
            }
        }
    }

    /// The host address and length of the bytes that the bounds select in the block `ptr`,
    /// inside the mapping of the block's page (see `Page::map`): `None` while that page is not
    /// mapped (map it and hand the answer to `set_mapping`). A block whose page index is past
    /// the book's slots, or names an empty slot, is refused with the driver's map-failed error.
    pub fn map(&self, ptr: &MemoryPtr<BookInfo>, start: Bound<usize>, end: Bound<usize>) -> (r: Option<Result<(usize, usize), Error>>)
        requires
            ({
                let b = ptr.meta_spec().page_info.range;
                &&& b.end <= usize::MAX
                &&& b.start + start_index(start) <= usize::MAX
                &&& end_index(end, b.end - b.start) + b.start <= usize::MAX
                &&& b.start <= b.end
                &&& {
                    let s = b.start + start_index(start);
                    let e = b.start + end_index(end, b.end - b.start);
                    s > b.end || e > b.end || s <= e
                }
            }),
            ptr.meta_spec().page_idx < self.pages_spec().len()
                && self.pages_spec()[ptr.meta_spec().page_idx as int] is Some
                && self.pages_spec()[ptr.meta_spec().page_idx as int].unwrap().mapping() is Some
                ==> self.pages_spec()[ptr.meta_spec().page_idx as int].unwrap().mapping().unwrap()
                    + ptr.meta_spec().page_info.range.end <= usize::MAX,
        ensures
            ptr.meta_spec().page_idx >= self.pages_spec().len()
                || self.pages_spec()[ptr.meta_spec().page_idx as int] is None
                ==> r == Some(Err::<(usize, usize), Error>(Error::Vulkan(ERROR_MEMORY_MAP_FAILED))),
            ptr.meta_spec().page_idx < self.pages_spec().len()
                && self.pages_spec()[ptr.meta_spec().page_idx as int] is Some ==> ({
                let page = self.pages_spec()[ptr.meta_spec().page_idx as int].unwrap();
                let b = ptr.meta_spec().page_info.range;
                let s = b.start + start_index(start);
                let e = b.start + end_index(end, b.end - b.start);
                match page.mapping() {
                    None => r is None,
                    Some(base) => if s > b.end || e > b.end {
                        r == Some(Err::<(usize, usize), Error>(Error::Vulkan(ERROR_MEMORY_MAP_FAILED)))
                    } else {
                        r == Some(Ok::<(usize, usize), Error>(((base + s) as usize, (e - s) as usize)))
                    },
                }
            }),
    {
        let info = ptr.metadata();
        if info.page_idx < self.pages.len() {
            match &self.pages[info.page_idx] {
                Some(page) => {
                    let block = MemoryPtr::new(ptr.id(), PageInfo { range: copy_range(&info.page_info.range) });
                    page.map(&block, start, end)
                },
                None => Some(Err(Error::Vulkan(ERROR_MEMORY_MAP_FAILED))),
            }
        } else {
            Some(Err(Error::Vulkan(ERROR_MEMORY_MAP_FAILED)))
        }
    }

    /// Takes in what mapping the whole allocation of the page in slot `page_idx` answered (see
    /// `Page::set_mapping`); asked for only while that page is not mapped.
    pub fn set_mapping(&mut self, page_idx: usize, mapped: Result<usize, Error>) -> (r: Result<(), Error>)
        requires
            page_idx < old(self).pages_spec().len(),
            old(self).pages_spec()[page_idx as int] is Some,
            old(self).pages_spec()[page_idx as int].unwrap().mapping() is None,
        ensures
            final(self).max_pages_spec() == old(self).max_pages_spec(),
            final(self).min_size_spec() == old(self).min_size_spec(),
            final(self).max_size_spec() == old(self).max_size_spec(),
            final(self).pages_spec().len() == old(self).pages_spec().len(),
            forall|j: int| 0 <= j < old(self).pages_spec().len() && j != page_idx ==> #[trigger] final(self).pages_spec()[j] == old(self).pages_spec()[j],
            final(self).pages_spec()[page_idx as int] is Some,
            ({
                let before = old(self).pages_spec()[page_idx as int].unwrap();
                let after = final(self).pages_spec()[page_idx as int].unwrap();
                &&& after.free_ranges() == before.free_ranges()
                &&& after.size_spec() == before.size_spec()
                &&& after.memory_id() == before.memory_id()
                &&& after.flags_spec() == before.flags_spec()
                &&& match mapped {
                    Ok(base) => after.mapping() == Some(base) && r is Ok,
                    Err(e) => after.mapping() is None && r == Err::<(), Error>(e),
                }
            }),
    {
        let slot = self.pages.remove(page_idx);
        let mut page = match slot {
            Some(p) => p,
            None => {
                assert(false);
                return Ok(());
            },
        };
        let r = page.set_mapping(mapped);
        self.pages.insert(page_idx, Some(page));
        proof {
            assert forall|j: int| 0 <= j < old(self).pages_spec().len() && j != page_idx implies #[trigger] self.pages_spec()[j] == old(self).pages_spec()[j] by {
                assert(self.pages@[j] == old(self).pages@[j]);
            }
        }
        r
    }

    /// The number of slots the book has taken, empty ones included.
    pub fn page_count(&self) -> (r: usize)
        ensures
            r == self.pages_spec().len(),
    {
        self.pages.len()
    }
}

} // verus!
