use vstd::prelude::*;
use crate::memory::Bound;

verus! {

/// A copy between two buffers, in bytes: where to read, where to write and how much.
#[derive(Clone, Copy, PartialEq, Eq, Structural, Debug, Hash)]
pub struct BufferCopy {
    pub src_offset: u64,
    pub dst_offset: u64,
    pub size: u64,
}

/// A region of a copy between two buffers, in elements: where reading starts in the source,
/// and the range written in the destination.
#[derive(Clone, Copy, PartialEq, Eq, Structural, Debug, Hash)]
pub struct BufferCopyRegion {
    pub src_offset: Bound<u64>,
    pub dst_start: Bound<u64>,
    pub dst_end: Bound<u64>,
}

/// The byte offset a copy reads from: the element after an excluded bound, the element at an
/// included one, the start when there is none.
pub open spec fn src_byte_offset(b: Bound<u64>, element_size: u64) -> int {
    match b {
        Bound::Excluded(x) => element_size * (x + 1),
        Bound::Included(x) => element_size * x,
        Bound::Unbounded => 0,
    }
}

/// The byte offset a copy writes to. The destination's start bound is read the other way
/// round from the source's: an included bound starts after its element, an excluded one at
/// it.
pub open spec fn dst_byte_offset(b: Bound<u64>, element_size: u64) -> int {
    match b {
        Bound::Included(x) => element_size * (x + 1),
        Bound::Excluded(x) => element_size * x,
        Bound::Unbounded => 0,
    }
}

/// The byte offset a copy's writing ends at: after an included element, at an excluded one,
/// at the destination's end (`dst_size` bytes) when there is no bound.
pub open spec fn dst_byte_end(b: Bound<u64>, element_size: u64, dst_size: u64) -> int {
    match b {
        Bound::Included(x) => element_size * (x + 1),
        Bound::Excluded(x) => element_size * x,
        Bound::Unbounded => dst_size as int,
    }
}

/// The index of a bound, plus one where the byte offset is taken past it.
pub open spec fn bound_index_fits(b: Bound<u64>, past_included: bool) -> bool {
    match b {
        Bound::Included(x) => past_included ==> x < u64::MAX,
        Bound::Excluded(x) => !past_included ==> x < u64::MAX,
        Bound::Unbounded => true,
    }
}

/// A region's byte offsets can be computed in 64 bits, and its end is not before its start.
pub open spec fn region_fits(r: BufferCopyRegion, element_size: u64, dst_size: u64) -> bool {
    &&& bound_index_fits(r.src_offset, false)
    &&& bound_index_fits(r.dst_start, true)
    &&& bound_index_fits(r.dst_end, true)
    &&& src_byte_offset(r.src_offset, element_size) <= u64::MAX
    &&& dst_byte_offset(r.dst_start, element_size) <= u64::MAX
    &&& dst_byte_end(r.dst_end, element_size, dst_size) <= u64::MAX
    &&& dst_byte_offset(r.dst_start, element_size) <= dst_byte_end(r.dst_end, element_size, dst_size)
}

/// The byte copy a region stands for, in a destination of `dst_size` bytes.
pub open spec fn region_copy(r: BufferCopyRegion, element_size: u64, dst_size: u64) -> BufferCopy {
    BufferCopy {
        src_offset: src_byte_offset(r.src_offset, element_size) as u64,
        dst_offset: dst_byte_offset(r.dst_start, element_size) as u64,
        size: (dst_byte_end(r.dst_end, element_size, dst_size) - dst_byte_offset(r.dst_start, element_size)) as u64,
    }
}

fn mul_fits(a: u64, b: u64) -> (r: u64)
    requires
        a * b <= u64::MAX,
    ensures
        r == a * b,
{
    a * b
}

impl BufferCopyRegion {
    /// A region writing the destination range from `dst_start` to `dst_end`, reading the
    /// source from `src_offset` or, when none is given, from the destination's start bound.
    pub fn new(src_offset: Option<Bound<u64>>, dst_start: Bound<u64>, dst_end: Bound<u64>) -> (r: Self)
        ensures
            r.src_offset == match src_offset {
                Some(b) => b,
                None => dst_start,
            },
            r.dst_start == dst_start,
            r.dst_end == dst_end,
    {
        let src = match src_offset {
            Some(b) => b,
            None => dst_start,
        };
        BufferCopyRegion { src_offset: src, dst_start, dst_end }
    }

    /// The byte copy the region stands for, for elements of `element_size` bytes and a
    /// destination of `dst_size` bytes.
    pub fn into_buffer_copy(self, element_size: u64, dst_size: u64) -> (c: BufferCopy)
        requires
            region_fits(self, element_size, dst_size),
        ensures
            c == region_copy(self, element_size, dst_size),
    {
        let src_offset = match self.src_offset {
            Bound::Excluded(x) => mul_fits(element_size, x + 1),
            Bound::Included(x) => mul_fits(element_size, x),
            Bound::Unbounded => 0,
        };
        let dst_offset = match self.dst_start {
            Bound::Included(x) => mul_fits(element_size, x + 1),
            Bound::Excluded(x) => mul_fits(element_size, x),
            Bound::Unbounded => 0,
        };
        let dst_end = match self.dst_end {
            Bound::Included(x) => mul_fits(element_size, x + 1),
            Bound::Excluded(x) => mul_fits(element_size, x),
            Bound::Unbounded => dst_size,
        };
        BufferCopy { src_offset, dst_offset, size: dst_end - dst_offset }
    }
}

/// A command recorded for a transfer: an update of `size` bytes at byte `offset` of the
/// buffer `dst` with the caller's data, or a copy of regions from the buffer `src` to `dst`.
#[derive(Clone, Debug)]
pub enum TransferOp {
    UpdateBuffer { dst: u64, offset: u64, size: u64 },
    CopyBuffer { src: u64, dst: u64, regions: Vec<BufferCopy> },
}

/// Whether an update can write these bytes: whole elements, starting and ending on four-byte
/// boundaries, at most `DATA_SIZE_MAX` of them.
pub open spec fn write_accepted(dst_offset: u64, src_len: u64, bytes_per_element: u64) -> bool {
    &&& (dst_offset * bytes_per_element) % 4 == 0
    &&& (src_len * bytes_per_element) % 4 == 0
    &&& src_len * bytes_per_element <= DATA_SIZE_MAX
}

/// The most bytes one buffer update may write.
pub const DATA_SIZE_MAX: u64 = 65536;

/// A transfer being recorded on a command buffer: the commands so far, in order.
pub struct TransferCommand {
    buffer: u64,
    ops: Vec<TransferOp>,
}

impl TransferCommand {
    /// The command buffer's handle.
    pub closed spec fn buffer_spec(&self) -> u64 {
        self.buffer
    }

    /// The commands recorded so far.
    pub closed spec fn ops_spec(&self) -> Seq<TransferOp> {
        self.ops@
    }

    /// A transfer on the command buffer `buffer`, with nothing recorded yet.
    pub fn new(buffer: u64) -> (t: Self)
        ensures
            t.buffer_spec() == buffer,
            t.ops_spec().len() == 0,
    {
        TransferCommand { buffer, ops: Vec::new() }
    }

    /// The command buffer's handle.
    pub fn buffer(&self) -> (r: u64)
        ensures
            r == self.buffer_spec(),
    {
        self.buffer
    }

    /// The commands recorded so far, in order.
    pub fn ops(&self) -> (r: &Vec<TransferOp>)
        ensures
            r@ == self.ops_spec(),
    {
        &self.ops
    }

    /// Records writing `src_len` elements of `bytes_per_element` bytes into the buffer `dst`
    /// from element `dst_offset` on. Vulkan updates whole four-byte words: a byte offset or
    /// size that is not a multiple of four, or a size above `DATA_SIZE_MAX` bytes, gives the
    /// transfer back unchanged, as `Err`.
    pub fn buffer_write(self, src_len: u64, dst: u64, dst_offset: u64, bytes_per_element: u64) -> (r: Result<Self, Self>)
        requires
            dst_offset * bytes_per_element <= u64::MAX,
            src_len * bytes_per_element <= u64::MAX,
        ensures
            write_accepted(dst_offset, src_len, bytes_per_element) ==> r is Ok
                && r->Ok_0.buffer_spec() == self.buffer_spec()
                && r->Ok_0.ops_spec() == self.ops_spec().push(TransferOp::UpdateBuffer {
                    dst,
                    offset: (dst_offset * bytes_per_element) as u64,
                    size: (src_len * bytes_per_element) as u64,
                }),
            !write_accepted(dst_offset, src_len, bytes_per_element) ==> r is Err
                && r->Err_0.buffer_spec() == self.buffer_spec()
                && r->Err_0.ops_spec() == self.ops_spec(),
    {
        let offset = mul_fits(dst_offset, bytes_per_element);
        if offset % 4 != 0 {
            return Err(self);
        }
        let size = mul_fits(src_len, bytes_per_element);
        if size > DATA_SIZE_MAX || size % 4 != 0 {
            return Err(self);
        }
        let mut this = self;
        this.ops.push(TransferOp::UpdateBuffer { dst, offset, size });
        Ok(this)
    }

    /// Records copying the regions from the buffer `src` to the buffer `dst`, of `dst_size`
    /// bytes, for elements of `element_size` bytes.
    pub fn buffer_copy(self, src: u64, dst: u64, dst_size: u64, element_size: u64, regions: &Vec<BufferCopyRegion>) -> (r: Self)
        requires
            regions@.len() <= u32::MAX,
            forall|i: int| 0 <= i < regions@.len() ==> region_fits(#[trigger] regions@[i], element_size, dst_size),
        ensures
            r.buffer_spec() == self.buffer_spec(),
            r.ops_spec().len() == self.ops_spec().len() + 1,
            r.ops_spec().drop_last() == self.ops_spec(),
            r.ops_spec().last() matches TransferOp::CopyBuffer { src: s, dst: d, regions: copies }
                && s == src && d == dst
                && copies@.len() == regions@.len()
                && forall|i: int| 0 <= i < regions@.len() ==> #[trigger] copies@[i] == region_copy(regions@[i], element_size, dst_size),
    {
        let mut copies: Vec<BufferCopy> = Vec::new();
        let mut i: usize = 0;
        while i < regions.len()
            invariant
                i <= regions@.len(),
                copies@.len() == i,
                forall|j: int| 0 <= j < regions@.len() ==> region_fits(#[trigger] regions@[j], element_size, dst_size),
                forall|j: int| 0 <= j < i ==> #[trigger] copies@[j] == region_copy(regions@[j], element_size, dst_size),
            decreases regions@.len() - i,
        {
            let region = regions[i];
            copies.push(region.into_buffer_copy(element_size, dst_size));
            i = i + 1;
        }
        let ghost old_ops = self.ops@;
        let mut this = self;
        this.ops.push(TransferOp::CopyBuffer { src, dst, regions: copies });
        proof {
            assert(this.ops@.drop_last() == old_ops);
        }
        this
    }
}

} // verus!
