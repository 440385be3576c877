use vstd::prelude::*;
use crate::device::{Device, tri};
use crate::descriptor::WHOLE_SIZE;
use crate::error::{Error, SUCCESS, ERROR_INITIALIZATION_FAILED};
use crate::memory::{Bound, MemoryPtr};

verus! {

/// The part of a buffer a descriptor points at.
#[derive(Clone, Copy, PartialEq, Eq, Structural, Debug, Hash)]
pub struct DescriptorBufferInfo {
    pub buffer: u64,
    pub offset: u64,
    pub range: u64,
}

/// An element bound scaled to the byte bound it stands for.
pub open spec fn byte_bound(b: Bound<usize>, bytes_per_element: u64) -> Bound<usize> {
    match b {
        Bound::Included(x) => Bound::Included((x * bytes_per_element) as usize),
        Bound::Excluded(x) => Bound::Excluded((x * bytes_per_element) as usize),
        Bound::Unbounded => Bound::Unbounded,
    }
}

/// An element bound's byte bound can be computed.
pub open spec fn byte_bound_fits(b: Bound<usize>, bytes_per_element: u64) -> bool {
    match b {
        Bound::Included(x) => x * bytes_per_element <= usize::MAX,
        Bound::Excluded(x) => x * bytes_per_element <= usize::MAX,
        Bound::Unbounded => true,
    }
}

fn scale(x: usize, bytes_per_element: u64) -> (r: usize)
    requires
        x * bytes_per_element <= usize::MAX,
    ensures
        r == x * bytes_per_element,
{
    proof {
        assert(bytes_per_element <= usize::MAX || x == 0) by (nonlinear_arith)
            requires
                x * bytes_per_element <= usize::MAX,
        {
            if x > 0 {
                assert(x * bytes_per_element >= bytes_per_element);
            }
        }
    }
    if x == 0 {
        0
    } else {
        x * (bytes_per_element as usize)
    }
}

/// A device buffer of elements of `bytes_per_element` bytes: the driver's non-null handle
/// for it, the block of memory bound to it, its size in bytes and its device.
pub struct Buffer<M> {
    buffer: u64,
    memory: MemoryPtr<M>,
    size: u64,
    bytes_per_element: u64,
    device: Device,
}

impl<M> Buffer<M> {
    #[verifier::type_invariant]
    spec fn handle_not_null(self) -> bool {
        self.buffer != 0
    }

    /// The buffer's handle.
    pub closed spec fn id_spec(&self) -> u64 {
        self.buffer
    }

    /// The memory bound to the buffer.
    pub closed spec fn memory_spec(&self) -> &MemoryPtr<M> {
        &self.memory
    }

    /// The buffer's size in bytes.
    pub closed spec fn size_spec(&self) -> u64 {
        self.size
    }

    /// The size of one element in bytes.
    pub closed spec fn bytes_per_element_spec(&self) -> u64 {
        self.bytes_per_element
    }

    /// The device.
    pub closed spec fn device_spec(&self) -> Device {
        self.device
    }

    /// The number of bytes a buffer of `capacity` elements of `bytes_per_element` bytes is
    /// created with.
    pub fn byte_size(capacity: u64, bytes_per_element: u64) -> (r: u64)
        requires
            capacity * bytes_per_element <= u64::MAX,
        ensures
            r == capacity * bytes_per_element,
    {
        capacity * bytes_per_element
    }

    /// The buffer handle that creating a buffer answered: the result code and the handle
    /// written; a null handle is an initialization failure.
    pub fn created(code: i32, handle: u64) -> (r: Result<u64, Error>)
        ensures
            code != SUCCESS ==> r == Err::<u64, Error>(Error::Vulkan(code)),
            code == SUCCESS && handle == 0 ==> r == Err::<u64, Error>(Error::Vulkan(ERROR_INITIALIZATION_FAILED)),
            code == SUCCESS && handle != 0 ==> r == Ok::<u64, Error>(handle),
    {
        tri(code)?;
        if handle != 0 {
            Ok(handle)
        } else {
            Err(Error::Vulkan(ERROR_INITIALIZATION_FAILED))
        }
    }

    /// The buffer `buffer` of `size` bytes on `device`, once binding the block `memory` to it
    /// answered `bind_code`.
    pub fn new(buffer: u64, memory: MemoryPtr<M>, size: u64, bytes_per_element: u64, device: Device, bind_code: i32) -> (r: Result<Self, Error>)
        requires
            buffer != 0,
        ensures
            bind_code != SUCCESS ==> r == Err::<Self, Error>(Error::Vulkan(bind_code)),
            bind_code == SUCCESS ==> r is Ok
                && r->Ok_0.id_spec() == buffer
                && *r->Ok_0.memory_spec() == memory
                && r->Ok_0.size_spec() == size
                && r->Ok_0.bytes_per_element_spec() == bytes_per_element
                && r->Ok_0.device_spec() == device,
    {
        tri(bind_code)?;
        Ok(Buffer { buffer, memory, size, bytes_per_element, device })
    }

    /// The buffer's handle; never zero.
    pub fn id(&self) -> (r: u64)
        ensures
            r == self.id_spec(),
            r != 0,
    {
        proof {
            use_type_invariant(self);
        }
        self.buffer
    }

    /// The buffer's size in bytes.
    pub fn size(&self) -> (r: u64)
        ensures
            r == self.size_spec(),
    {
        self.size
    }

    /// The number of whole elements the buffer holds.
    pub fn len(&self) -> (r: u64)
        requires
            self.bytes_per_element_spec() > 0,
        ensures
            r == self.size_spec() / self.bytes_per_element_spec(),
    {
        self.size / self.bytes_per_element
    }

    /// The device.
    pub fn device(&self) -> (r: &Device)
        ensures
            *r == self.device_spec(),
    {
        &self.device
    }

    /// The memory bound to the buffer.
    pub fn memory(&self) -> (r: &MemoryPtr<M>)
        ensures
            r == self.memory_spec(),
    {
        &self.memory
    }

    /// A descriptor of the whole buffer.
    pub fn descriptor(&self) -> (r: DescriptorBufferInfo)
        ensures
            r == (DescriptorBufferInfo { buffer: self.id_spec(), offset: 0, range: WHOLE_SIZE }),
    {
        DescriptorBufferInfo { buffer: self.buffer, offset: 0, range: WHOLE_SIZE }
    }

    /// The byte bounds to map for the element bounds `start` and `end`; no end bound stands
    /// for the buffer's end.
    pub fn map_bounds(&self, start: Bound<usize>, end: Bound<usize>) -> (r: (Bound<usize>, Bound<usize>))
        requires
            byte_bound_fits(start, self.bytes_per_element_spec()),
            byte_bound_fits(end, self.bytes_per_element_spec()),
            self.size_spec() <= usize::MAX,
        ensures
            r.0 == byte_bound(start, self.bytes_per_element_spec()),
            end is Unbounded ==> r.1 == Bound::Excluded(self.size_spec() as usize),
            !(end is Unbounded) ==> r.1 == byte_bound(end, self.bytes_per_element_spec()),
    {
        let bpe = self.bytes_per_element;
        let s = match start {
            Bound::Excluded(x) => Bound::Excluded(scale(x, bpe)),
            Bound::Included(x) => Bound::Included(scale(x, bpe)),
            Bound::Unbounded => Bound::Unbounded,
        };
        let e = match end {
            Bound::Excluded(x) => Bound::Excluded(scale(x, bpe)),
            Bound::Included(x) => Bound::Included(scale(x, bpe)),
            Bound::Unbounded => Bound::Excluded(self.size as usize),
        };
        (s, e)
    }

    /// The number of whole elements in a mapping of `bytes` bytes.
    pub fn mapped_len(&self, bytes: usize) -> (r: usize)
        requires
            self.bytes_per_element_spec() > 0,
        ensures
            r as int == bytes as int / self.bytes_per_element_spec() as int,
    {
        let q = bytes as u64 / self.bytes_per_element;
        proof {
            assert(q <= bytes) by (nonlinear_arith)
                requires
                    q == bytes as u64 / self.bytes_per_element,
                    self.bytes_per_element > 0,
            {}
        }
        q as usize
    }

    /// The same buffer seen as holding elements of another type of `bytes_per_element`
    /// bytes.
    pub fn transmute(self, bytes_per_element: u64) -> (r: Self)
        ensures
            r.id_spec() == self.id_spec(),
            *r.memory_spec() == *self.memory_spec(),
            r.size_spec() == self.size_spec(),
            r.bytes_per_element_spec() == bytes_per_element,
            r.device_spec() == self.device_spec(),
    {
        proof {
            use_type_invariant(&self);
        }
        Buffer { bytes_per_element, ..self }
    }

    /// Gives up the buffer, returning its handle and its memory for the caller to release.
    pub fn into_parts(self) -> (r: (u64, MemoryPtr<M>))
        ensures
            r.0 == self.id_spec(),
            r.1 == *self.memory_spec(),
    {
        (self.buffer, self.memory)
    }
}

} // verus!
