use vstd::prelude::*;

verus! {

/// Every memory-property bit that `MemoryFlags` knows.
pub const MEMORY_FLAGS_ALL: u32 = 0x1ff;

/// Properties of a kind of device memory, as a set of Vulkan memory-property bits.
#[derive(Clone, Copy, PartialEq, Eq, Structural, Debug, Hash)]
pub struct MemoryFlags {
    bits: u32,
}

impl View for MemoryFlags {
    type V = u32;

    closed spec fn view(&self) -> u32 {
        self.bits
    }
}

impl MemoryFlags {
    /// Memory local to the device (the default kind).
    pub const DEVICE_LOCAL: u32 = 0x1;
    /// Memory the host can map.
    pub const HOST_VISIBLE: u32 = 0x2;
    /// Memory whose host writes and reads need no explicit flush.
    pub const HOST_COHERENT: u32 = 0x4;
    /// Memory cached on the host.
    pub const HOST_CACHED: u32 = 0x8;
    /// Memory the driver may allocate lazily.
    pub const LAZILY_ALLOCATED: u32 = 0x10;
    /// Protected memory.
    pub const PROTECTED: u32 = 0x20;
    pub const DEVICE_COHERENT_AMD: u32 = 0x40;
    pub const DEVICE_UNCACHED_AMD: u32 = 0x80;
    pub const RDMA_CAPABLE_NV: u32 = 0x100;
    /// Device-local memory that the host can also map coherently.
    pub const MAPABLE: u32 = 0x7;

    /// The flags named by the known bits of `bits`; unknown bits are dropped.
    pub fn from_bits_truncate(bits: u32) -> (f: Self)
        ensures
            f@ == bits & MEMORY_FLAGS_ALL,
    {
        MemoryFlags { bits: bits & MEMORY_FLAGS_ALL }
    }

    /// The empty set of flags.
    pub fn empty() -> (f: Self)
        ensures
            f@ == 0,
    {
        MemoryFlags { bits: 0 }
    }

    /// The bits of the flags.
    pub fn bits(&self) -> (r: u32)
        ensures
            r == self@,
    {
        self.bits
    }

    /// Whether every flag of `other` is also set in `self`.
    pub fn contains(&self, other: MemoryFlags) -> (r: bool)
        ensures
            r == (self@ & other@ == other@),
    {
        self.bits & other.bits == other.bits
    }

    /// The flags set in `self` or in `other`.
    pub fn union(self, other: MemoryFlags) -> (r: MemoryFlags)
        ensures
            r@ == self@ | other@,
    {
        MemoryFlags { bits: self.bits | other.bits }
    }
}

impl Default for MemoryFlags {
    /// Device-local memory.
    fn default() -> (f: Self)
        ensures
            f@ == MemoryFlags::DEVICE_LOCAL,
    {
        MemoryFlags { bits: MemoryFlags::DEVICE_LOCAL }
    }
}

/// Every queue-capability bit that `QueueFlags` knows.
pub const QUEUE_FLAGS_ALL: u32 = 0x17f;

/// Capabilities of a queue family, as a set of Vulkan queue bits.
#[derive(Clone, Copy, PartialEq, Eq, Structural, Debug, Hash)]
pub struct QueueFlags {
    bits: u32,
}

impl View for QueueFlags {
    type V = u32;

    closed spec fn view(&self) -> u32 {
        self.bits
    }
}

impl QueueFlags {
    /// Graphics operations.
    pub const GRAPHICS: u32 = 0x1;
    /// Compute operations.
    pub const COMPUTE: u32 = 0x2;
    /// Transfer operations.
    pub const TRANSFER: u32 = 0x4;
    /// Sparse memory management.
    pub const SPARSE_BINDING: u32 = 0x8;
    /// Protected operations.
    pub const PROTECTED: u32 = 0x10;
    pub const VIDEO_DECODE_KHR: u32 = 0x20;
    pub const VIDEO_ENCODE_KHR: u32 = 0x40;
    pub const OPTICAL_FLOW_NV: u32 = 0x100;

    /// The flags named by `bits`, or `None` when `bits` holds a bit `QueueFlags` does not know.
    pub fn from_bits(bits: u32) -> (f: Option<Self>)
        ensures
            f is Some <==> bits & !QUEUE_FLAGS_ALL == 0,
            f matches Some(q) ==> q@ == bits,
    {
        if bits & !QUEUE_FLAGS_ALL == 0 {
            Some(QueueFlags { bits })
        } else {
            None
        }
    }

    /// The flags named by the known bits of `bits`; unknown bits are dropped.
    pub fn from_bits_truncate(bits: u32) -> (f: Self)
        ensures
            f@ == bits & QUEUE_FLAGS_ALL,
    {
        QueueFlags { bits: bits & QUEUE_FLAGS_ALL }
    }

    /// The bits of the flags.
    pub fn bits(&self) -> (r: u32)
        ensures
            r == self@,
    {
        self.bits
    }

    /// Whether every capability of `other` is also in `self`.
    pub fn contains(&self, other: QueueFlags) -> (r: bool)
        ensures
            r == (self@ & other@ == other@),
    {
        self.bits & other.bits == other.bits
    }
}

} // verus!
