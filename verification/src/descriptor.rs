use vstd::prelude::*;
use crate::device::{Device, tri};
use crate::error::{Error, SUCCESS, ERROR_UNKNOWN};

verus! {

/// The kinds of descriptors a shader binding can hold.
#[derive(Clone, Copy, PartialEq, Eq, Structural, Debug, Hash)]
pub enum DescriptorType {
    Sampler,
    CombinedImageSampler,
    SampledImage,
    StorageImage,
    UniformTexelBuffer,
    StorageTexelBuffer,
    UniformBuffer,
    StorageBuffer,
    UniformBufferDynamic,
    StorageBufferDynamic,
    InputAttachment,
    InlineUniformBlock,
    AccelerationStructureKhr,
    AccelerationStructureNv,
    MutableValve,
    SampleWeightImageQcom,
    BlockMatchImageQcom,
}

/// The Vulkan code of a descriptor type.
pub open spec fn descriptor_type_code(t: DescriptorType) -> i32 {
    match t {
        DescriptorType::Sampler => 0,
        DescriptorType::CombinedImageSampler => 1,
        DescriptorType::SampledImage => 2,
        DescriptorType::StorageImage => 3,
        DescriptorType::UniformTexelBuffer => 4,
        DescriptorType::StorageTexelBuffer => 5,
        DescriptorType::UniformBuffer => 6,
        DescriptorType::StorageBuffer => 7,
        DescriptorType::UniformBufferDynamic => 8,
        DescriptorType::StorageBufferDynamic => 9,
        DescriptorType::InputAttachment => 10,
        DescriptorType::InlineUniformBlock => 1000138000,
        DescriptorType::AccelerationStructureKhr => 1000150000,
        DescriptorType::AccelerationStructureNv => 1000165000,
        DescriptorType::MutableValve => 1000351000,
        DescriptorType::SampleWeightImageQcom => 1000440000,
        DescriptorType::BlockMatchImageQcom => 1000440001,
    }
}

impl DescriptorType {
    /// The Vulkan code of the type.
    pub fn raw(self) -> (r: i32)
        ensures
            r == descriptor_type_code(self),
    {
        match self {
            DescriptorType::Sampler => 0,
            DescriptorType::CombinedImageSampler => 1,
            DescriptorType::SampledImage => 2,
            DescriptorType::StorageImage => 3,
            DescriptorType::UniformTexelBuffer => 4,
            DescriptorType::StorageTexelBuffer => 5,
            DescriptorType::UniformBuffer => 6,
            DescriptorType::StorageBuffer => 7,
            DescriptorType::UniformBufferDynamic => 8,
            DescriptorType::StorageBufferDynamic => 9,
            DescriptorType::InputAttachment => 10,
            DescriptorType::InlineUniformBlock => 1000138000,
            DescriptorType::AccelerationStructureKhr => 1000150000,
            DescriptorType::AccelerationStructureNv => 1000165000,
            DescriptorType::MutableValve => 1000351000,
            DescriptorType::SampleWeightImageQcom => 1000440000,
            DescriptorType::BlockMatchImageQcom => 1000440001,
        }
    }
}

/// Room in a descriptor pool for `count` descriptors of the type with code `ty`.
#[derive(Clone, Copy, PartialEq, Eq, Structural, Debug, Hash)]
pub struct PoolSize {
    pub ty: i32,
    pub count: u32,
}

/// The code of storage-buffer descriptors.
pub const DESCRIPTOR_TYPE_STORAGE_BUFFER: i32 = 7;

/// Vulkan's `VK_DESCRIPTOR_TYPE_SAMPLER`.
pub const DESCRIPTOR_TYPE_SAMPLER: i32 = 0;

/// Vulkan's `VK_DESCRIPTOR_TYPE_COMBINED_IMAGE_SAMPLER`.
pub const DESCRIPTOR_TYPE_COMBINED_IMAGE_SAMPLER: i32 = 1;

/// Vulkan's `VK_DESCRIPTOR_TYPE_SAMPLED_IMAGE`.
pub const DESCRIPTOR_TYPE_SAMPLED_IMAGE: i32 = 2;

/// Vulkan's `VK_DESCRIPTOR_TYPE_STORAGE_IMAGE`.
pub const DESCRIPTOR_TYPE_STORAGE_IMAGE: i32 = 3;

/// Vulkan's `VK_DESCRIPTOR_TYPE_UNIFORM_TEXEL_BUFFER`.
pub const DESCRIPTOR_TYPE_UNIFORM_TEXEL_BUFFER: i32 = 4;

/// Vulkan's `VK_DESCRIPTOR_TYPE_STORAGE_TEXEL_BUFFER`.
pub const DESCRIPTOR_TYPE_STORAGE_TEXEL_BUFFER: i32 = 5;

/// Vulkan's `VK_DESCRIPTOR_TYPE_UNIFORM_BUFFER`.
pub const DESCRIPTOR_TYPE_UNIFORM_BUFFER: i32 = 6;

/// Vulkan's `VK_DESCRIPTOR_TYPE_UNIFORM_BUFFER_DYNAMIC`.
pub const DESCRIPTOR_TYPE_UNIFORM_BUFFER_DYNAMIC: i32 = 8;

/// Vulkan's `VK_DESCRIPTOR_TYPE_STORAGE_BUFFER_DYNAMIC`.
pub const DESCRIPTOR_TYPE_STORAGE_BUFFER_DYNAMIC: i32 = 9;

/// Vulkan's `VK_DESCRIPTOR_TYPE_INPUT_ATTACHMENT`.
pub const DESCRIPTOR_TYPE_INPUT_ATTACHMENT: i32 = 10;

/// Vulkan's `VK_DESCRIPTOR_TYPE_INLINE_UNIFORM_BLOCK`.
pub const DESCRIPTOR_TYPE_INLINE_UNIFORM_BLOCK: i32 = 1000138000;

/// Vulkan's `VK_DESCRIPTOR_TYPE_ACCELERATION_STRUCTURE_KHR`.
pub const DESCRIPTOR_TYPE_ACCELERATION_STRUCTURE_KHR: i32 = 1000150000;

/// Vulkan's `VK_DESCRIPTOR_TYPE_ACCELERATION_STRUCTURE_NV`.
pub const DESCRIPTOR_TYPE_ACCELERATION_STRUCTURE_NV: i32 = 1000165000;

/// Vulkan's `VK_DESCRIPTOR_TYPE_MUTABLE_VALVE`.
pub const DESCRIPTOR_TYPE_MUTABLE_VALVE: i32 = 1000351000;

/// Vulkan's `VK_DESCRIPTOR_TYPE_SAMPLE_WEIGHT_IMAGE_QCOM`.
pub const DESCRIPTOR_TYPE_SAMPLE_WEIGHT_IMAGE_QCOM: i32 = 1000440000;

/// Vulkan's `VK_DESCRIPTOR_TYPE_BLOCK_MATCH_IMAGE_QCOM`.
pub const DESCRIPTOR_TYPE_BLOCK_MATCH_IMAGE_QCOM: i32 = 1000440001;


/// Each descriptor type's code is the Vulkan constant of the same name.
pub proof fn lemma_descriptor_codes_are_vulkan_codes()
    ensures
        descriptor_type_code(DescriptorType::Sampler) == DESCRIPTOR_TYPE_SAMPLER,
        descriptor_type_code(DescriptorType::CombinedImageSampler) == DESCRIPTOR_TYPE_COMBINED_IMAGE_SAMPLER,
        descriptor_type_code(DescriptorType::SampledImage) == DESCRIPTOR_TYPE_SAMPLED_IMAGE,
        descriptor_type_code(DescriptorType::StorageImage) == DESCRIPTOR_TYPE_STORAGE_IMAGE,
        descriptor_type_code(DescriptorType::UniformTexelBuffer) == DESCRIPTOR_TYPE_UNIFORM_TEXEL_BUFFER,
        descriptor_type_code(DescriptorType::StorageTexelBuffer) == DESCRIPTOR_TYPE_STORAGE_TEXEL_BUFFER,
        descriptor_type_code(DescriptorType::UniformBuffer) == DESCRIPTOR_TYPE_UNIFORM_BUFFER,
        descriptor_type_code(DescriptorType::StorageBuffer) == DESCRIPTOR_TYPE_STORAGE_BUFFER,
        descriptor_type_code(DescriptorType::UniformBufferDynamic) == DESCRIPTOR_TYPE_UNIFORM_BUFFER_DYNAMIC,
        descriptor_type_code(DescriptorType::StorageBufferDynamic) == DESCRIPTOR_TYPE_STORAGE_BUFFER_DYNAMIC,
        descriptor_type_code(DescriptorType::InputAttachment) == DESCRIPTOR_TYPE_INPUT_ATTACHMENT,
        descriptor_type_code(DescriptorType::InlineUniformBlock) == DESCRIPTOR_TYPE_INLINE_UNIFORM_BLOCK,
        descriptor_type_code(DescriptorType::AccelerationStructureKhr) == DESCRIPTOR_TYPE_ACCELERATION_STRUCTURE_KHR,
        descriptor_type_code(DescriptorType::AccelerationStructureNv) == DESCRIPTOR_TYPE_ACCELERATION_STRUCTURE_NV,
        descriptor_type_code(DescriptorType::MutableValve) == DESCRIPTOR_TYPE_MUTABLE_VALVE,
        descriptor_type_code(DescriptorType::SampleWeightImageQcom) == DESCRIPTOR_TYPE_SAMPLE_WEIGHT_IMAGE_QCOM,
        descriptor_type_code(DescriptorType::BlockMatchImageQcom) == DESCRIPTOR_TYPE_BLOCK_MATCH_IMAGE_QCOM,
{
}

/// Distinct descriptor types have distinct codes: the code tells the type.
pub proof fn lemma_descriptor_codes_distinct(a: DescriptorType, b: DescriptorType)
    ensures
        descriptor_type_code(a) == descriptor_type_code(b) <==> a == b,
{
}

/// The range that stands for the whole of a buffer.
pub const WHOLE_SIZE: u64 = 0xffff_ffff_ffff_ffff;

/// What a descriptor pool is to be made with: its flags, how many sets it can give, the room
/// it makes for each type of descriptor, and its device.
pub struct Builder {
    flags: u32,
    capacity: u32,
    pool_sizes: Vec<PoolSize>,
    device: Device,
}

impl Builder {
    /// The creation flags.
    pub closed spec fn flags_spec(&self) -> u32 {
        self.flags
    }

    /// How many sets the pool can give.
    pub closed spec fn capacity_spec(&self) -> u32 {
        self.capacity
    }

    /// The pool sizes so far.
    pub closed spec fn pool_sizes_spec(&self) -> Seq<PoolSize> {
        self.pool_sizes@
    }

    /// The device.
    pub closed spec fn device_spec(&self) -> Device {
        self.device
    }

    /// A builder for a pool on `device` that gives `capacity` sets: no flags, no room yet.
    pub fn new(device: Device, capacity: u32) -> (b: Self)
        ensures
            b.flags_spec() == 0,
            b.capacity_spec() == capacity,
            b.pool_sizes_spec().len() == 0,
            b.device_spec() == device,
    {
        Builder { flags: 0, capacity, pool_sizes: Vec::new(), device }
    }

    /// Makes room for `count` descriptors of type `ty`.
    pub fn pool_size(self, ty: DescriptorType, count: u32) -> (b: Self)
        ensures
            b.pool_sizes_spec() == self.pool_sizes_spec().push(PoolSize { ty: descriptor_type_code(ty), count }),
            b.flags_spec() == self.flags_spec(),
            b.capacity_spec() == self.capacity_spec(),
            b.device_spec() == self.device_spec(),
    {
        let mut this = self;
        let code = ty.raw();
        this.pool_sizes.push(PoolSize { ty: code, count });
        this
    }

    /// Sets the creation flags.
    pub fn flags(self, flags: u32) -> (b: Self)
        ensures
            b.flags_spec() == flags,
            b.capacity_spec() == self.capacity_spec(),
            b.pool_sizes_spec() == self.pool_sizes_spec(),
            b.device_spec() == self.device_spec(),
    {
        Builder { flags, ..self }
    }

    /// The pool sizes, in order.
    pub fn pool_sizes(&self) -> (r: &Vec<PoolSize>)
        ensures
            r@ == self.pool_sizes_spec(),
    {
        &self.pool_sizes
    }

    /// The pool that creating one from this builder answered.
    pub fn build(self, code: i32, handle: u64) -> (r: Result<DescriptorPool, Error>)
        ensures
            code != SUCCESS ==> r == Err::<DescriptorPool, Error>(Error::Vulkan(code)),
            code == SUCCESS && handle == 0 ==> r == Err::<DescriptorPool, Error>(Error::Vulkan(ERROR_UNKNOWN)),
            code == SUCCESS && handle != 0 ==> r is Ok && r->Ok_0.id_spec() == handle && r->Ok_0.device_spec() == self.device_spec(),
    {
        DescriptorPool::new(code, handle, self.device)
    }
}

/// A descriptor pool: the driver's non-null handle for it, and its device.
pub struct DescriptorPool {
    inner: u64,
    device: Device,
}

impl DescriptorPool {
    #[verifier::type_invariant]
    spec fn handle_not_null(self) -> bool {
        self.inner != 0
    }

    /// The pool's handle.
    pub closed spec fn id_spec(&self) -> u64 {
        self.inner
    }

    /// The device.
    pub closed spec fn device_spec(&self) -> Device {
        self.device
    }

    /// A builder for a pool on `device` that gives `capacity` sets.
    pub fn builder(device: Device, capacity: u32) -> (b: Builder)
        ensures
            b.flags_spec() == 0,
            b.capacity_spec() == capacity,
            b.pool_sizes_spec().len() == 0,
            b.device_spec() == device,
    {
        Builder::new(device, capacity)
    }

    /// The pool on `device` that creating one answered: the result code and the handle
    /// written; a null handle is an unknown error.
    pub fn new(code: i32, handle: u64, device: Device) -> (r: Result<DescriptorPool, Error>)
        ensures
            code != SUCCESS ==> r == Err::<DescriptorPool, Error>(Error::Vulkan(code)),
            code == SUCCESS && handle == 0 ==> r == Err::<DescriptorPool, Error>(Error::Vulkan(ERROR_UNKNOWN)),
            code == SUCCESS && handle != 0 ==> r is Ok && r->Ok_0.id_spec() == handle && r->Ok_0.device_spec() == device,
    {
        tri(code)?;
        if handle != 0 {
            Ok(DescriptorPool { inner: handle, device })
        } else {
            Err(Error::Vulkan(ERROR_UNKNOWN))
        }
    }

    /// The pool's handle; never zero.
    pub fn id(&self) -> (r: u64)
        ensures
            r == self.id_spec(),
            r != 0,
    {
        proof {
            use_type_invariant(self);
        }
        self.inner
    }

    /// The device.
    pub fn device(&self) -> (r: &Device)
        ensures
            *r == self.device_spec(),
    {
        &self.device
    }
}

/// A descriptor set: the driver's handle for it.
#[derive(Clone, Copy, PartialEq, Eq, Structural, Debug, Hash)]
pub struct DescriptorSet {
    id: u64,
}

/// An update of one binding of a descriptor set to a whole storage buffer.
#[derive(Clone, Copy, PartialEq, Eq, Structural, Debug, Hash)]
pub struct WriteDescriptorSet {
    pub set: u64,
    pub binding: u32,
    pub ty: i32,
    pub count: u32,
    pub buffer: u64,
    pub offset: u64,
    pub range: u64,
}

impl DescriptorSet {
    /// The set's handle.
    pub closed spec fn id_spec(&self) -> u64 {
        self.id
    }

    /// The set's handle.
    pub fn id(&self) -> (r: u64)
        ensures
            r == self.id_spec(),
    {
        self.id
    }

    /// An update of this set's binding to the whole of the storage buffer with handle
    /// `buffer`; its binding number is given when the sets are updated.
    pub fn write_descriptor(&self, buffer: u64) -> (w: WriteDescriptorSet)
        ensures
            w == (WriteDescriptorSet {
                set: self.id_spec(),
                binding: 0,
                ty: DESCRIPTOR_TYPE_STORAGE_BUFFER,
                count: 1,
                buffer,
                offset: 0,
                range: WHOLE_SIZE,
            }),
    {
        WriteDescriptorSet {
            set: self.id,
            binding: 0,
            ty: DESCRIPTOR_TYPE_STORAGE_BUFFER,
            count: 1,
            buffer,
            offset: 0,
            range: WHOLE_SIZE,
        }
    }
}

/// The descriptor sets taken from a pool, all non-null.
pub struct DescriptorSets {
    inner: Vec<DescriptorSet>,
    pool: DescriptorPool,
}

impl DescriptorSets {
    #[verifier::type_invariant]
    spec fn sets_not_null(self) -> bool {
        forall|i: int| 0 <= i < self.inner@.len() ==> #[trigger] self.inner@[i].id != 0
    }

    /// The sets' handles, in order.
    pub closed spec fn ids(&self) -> Seq<u64> {
        self.inner@.map_values(|s: DescriptorSet| s.id)
    }

    /// The pool they were taken from.
    pub closed spec fn pool_spec(&self) -> &DescriptorPool {
        &self.pool
    }

    /// The sets that allocating them from `pool` answered: the result code and the handles
    /// written. A failed call, or a null handle among them (an unknown error), gives the
    /// error and the pool back to be destroyed.
    pub fn new(pool: DescriptorPool, code: i32, sets: Vec<u64>) -> (r: Result<DescriptorSets, (Error, DescriptorPool)>)
        ensures
            code != SUCCESS ==> r is Err && r->Err_0.0 == Error::Vulkan(code) && r->Err_0.1 == pool,
            code == SUCCESS && sets@.contains(0u64) ==> r is Err && r->Err_0.0 == Error::Vulkan(ERROR_UNKNOWN) && r->Err_0.1 == pool,
            code == SUCCESS && !sets@.contains(0u64) ==> r is Ok && r->Ok_0.ids() == sets@ && *r->Ok_0.pool_spec() == pool,
    {
        if code != SUCCESS {
            return Err((Error::Vulkan(code), pool));
        }
        let mut inner: Vec<DescriptorSet> = Vec::new();
        let mut i: usize = 0;
        while i < sets.len()
            invariant
                i <= sets@.len(),
                inner@.len() == i,
                code == SUCCESS,
                forall|j: int| 0 <= j < i ==> #[trigger] inner@[j].id == sets@[j],
                forall|j: int| 0 <= j < i ==> #[trigger] sets@[j] != 0,
            decreases sets@.len() - i,
        {
            if sets[i] == 0 {
                return Err((Error::Vulkan(ERROR_UNKNOWN), pool));
            }
            inner.push(DescriptorSet { id: sets[i] });
            i = i + 1;
        }
        proof {
            assert(!sets@.contains(0u64)) by {
                if sets@.contains(0u64) {
                    let k = choose|k: int| 0 <= k < sets@.len() && sets@[k] == 0u64;
                    assert(sets@[k] != 0);
                }
            }
            assert(inner@.map_values(|s: DescriptorSet| s.id) == sets@);
        }
        Ok(DescriptorSets { inner, pool })
    }

    /// The one set `set` taken from `pool`.
    pub fn single(pool: DescriptorPool, set: u64) -> (r: Self)
        requires
            set != 0,
        ensures
            r.ids() == seq![set],
            *r.pool_spec() == pool,
    {
        let mut inner: Vec<DescriptorSet> = Vec::new();
        inner.push(DescriptorSet { id: set });
        proof {
            assert(inner@.map_values(|s: DescriptorSet| s.id) == seq![set]);
        }
        DescriptorSets { inner, pool }
    }

    /// The number of sets.
    pub fn len(&self) -> (r: usize)
        ensures
            r == self.ids().len(),
    {
        self.inner.len()
    }

    /// The set at `idx`, if there is one.
    pub fn get(&self, idx: usize) -> (r: Option<DescriptorSet>)
        ensures
            idx < self.ids().len() ==> r is Some && r->Some_0.id_spec() == self.ids()[idx as int],
            idx >= self.ids().len() ==> r is None,
    {
        if idx < self.inner.len() {
            Some(self.inner[idx])
        } else {
            None
        }
    }

    /// The handles of the sets from index `from` up to, not including, `to`.
    pub fn ids_in(&self, from: usize, to: usize) -> (r: Vec<u64>)
        requires
            from <= to <= self.ids().len(),
        ensures
            r@ == self.ids().subrange(from as int, to as int),
    {
        let mut r: Vec<u64> = Vec::new();
        let mut i: usize = from;
        while i < to
            invariant
                from <= i <= to,
                to <= self.inner@.len(),
                r@ == self.ids().subrange(from as int, i as int),
            decreases to - i,
        {
            r.push(self.inner[i].id);
            proof {
                assert(self.ids()[i as int] == self.inner@[i as int].id);
                assert(r@ == self.ids().subrange(from as int, i + 1));
            }
            i = i + 1;
        }
        r
    }

    /// The pool the sets were taken from.
    pub fn pool(&self) -> (r: &DescriptorPool)
        ensures
            r == self.pool_spec(),
    {
        &self.pool
    }

    /// The device.
    pub fn device(&self) -> (r: &Device)
        ensures
            *r == self.pool_spec().device_spec(),
    {
        self.pool.device()
    }

    /// The writes to make for an update: the given ones, numbered by their place in order.
    pub fn update(&self, writes: &Vec<WriteDescriptorSet>) -> (r: Vec<WriteDescriptorSet>)
        requires
            writes@.len() <= u32::MAX,
        ensures
            r@.len() == writes@.len(),
            forall|i: int| 0 <= i < writes@.len() ==> #[trigger] r@[i] == (WriteDescriptorSet { binding: i as u32, ..writes@[i] }),
    {
        let mut r: Vec<WriteDescriptorSet> = Vec::new();
        let mut i: usize = 0;
        while i < writes.len()
            invariant
                i <= writes@.len(),
                writes@.len() <= u32::MAX,
                r@.len() == i,
                forall|j: int| 0 <= j < i ==> #[trigger] r@[j] == (WriteDescriptorSet { binding: j as u32, ..writes@[j] }),
            decreases writes@.len() - i,
        {
            let w = writes[i];
            r.push(WriteDescriptorSet { binding: i as u32, ..w });
            i = i + 1;
        }
        r
    }
}

} // verus!
