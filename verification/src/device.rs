use vstd::prelude::*;
use crate::error::{Error, SUCCESS, INCOMPLETE, ERROR_UNKNOWN, ERROR_INITIALIZATION_FAILED};
use crate::flags::QueueFlags;

verus! {

/// The major, minor and patch numbers packed in a Vulkan version number.
pub open spec fn version_parts(ver: u32) -> (u32, u32, u32) {
    (ver >> 22u32, (ver >> 12u32) & 0x3ffu32, ver & 0xfffu32)
}

/// The Vulkan version number packing `major`, `minor` and `patch`.
pub open spec fn version_number(major: u32, minor: u32, patch: u32) -> u32 {
    (major << 22u32) | (minor << 12u32) | patch
}

/// Calls `vulkan_bindings::get_version`, which unpacks a version number into its major
/// (the top 10 bits), minor (the next 10) and patch (the low 12) numbers.
#[verifier::external_body]
fn vk_get_version(ver: u32) -> (r: (u32, u32, u32))
    ensures
        r == version_parts(ver),
{
    vulkan_bindings::get_version(ver)
}

/// Calls `vulkan_bindings::make_version`, which packs `major << 22 | minor << 12 | patch`.
#[verifier::external_body]
fn vk_make_version(major: u32, minor: u32, patch: u32) -> (r: u32)
    ensures
        r == version_number(major, minor, patch),
{
    vulkan_bindings::make_version(major, minor, patch)
}

/// The Vulkan version number packing `major`, `minor` and `patch`.
pub fn make_version(major: u32, minor: u32, patch: u32) -> (r: u32)
    ensures
        r == version_number(major, minor, patch),
{
    vk_make_version(major, minor, patch)
}

/// The major, minor and patch numbers packed in the Vulkan version number `ver`.
pub fn version_of(ver: u32) -> (r: (u32, u32, u32))
    ensures
        r == version_parts(ver),
{
    vk_get_version(ver)
}

/// A Vulkan call's result code turned into a `Result`: success is `Ok`, any other code an
/// error carrying it.
pub fn tri(code: i32) -> (r: Result<(), Error>)
    ensures
        code == SUCCESS ==> r is Ok,
        code != SUCCESS ==> r == Err::<(), Error>(Error::Vulkan(code)),
{
    if code == SUCCESS {
        Ok(())
    } else {
        Err(Error::Vulkan(code))
    }
}

/// A physical device: the driver's non-null handle for it.
#[derive(Clone, Copy, PartialEq, Eq, Structural, Debug, Hash)]
pub struct PhysicalDevice {
    inner: u64,
}

impl PhysicalDevice {
    #[verifier::type_invariant]
    spec fn handle_not_null(self) -> bool {
        self.inner != 0
    }

    /// The driver's handle for the device.
    pub closed spec fn id_spec(self) -> u64 {
        self.inner
    }

    /// The device with the driver's handle `handle`, which must not be null.
    pub fn from_handle(handle: u64) -> (d: Self)
        requires
            handle != 0,
        ensures
            d.id_spec() == handle,
    {
        PhysicalDevice { inner: handle }
    }

    /// The first device, from what enumerating one device answered: its result code (success
    /// and "incomplete" both count as success) and the handle written; a null handle is an
    /// unknown error.
    pub fn first(result: i32, handle: u64) -> (r: Result<PhysicalDevice, Error>)
        ensures
            result != SUCCESS && result != INCOMPLETE ==> r == Err::<PhysicalDevice, Error>(Error::Vulkan(result)),
            (result == SUCCESS || result == INCOMPLETE) && handle == 0 ==> r == Err::<PhysicalDevice, Error>(Error::Vulkan(ERROR_UNKNOWN)),
            (result == SUCCESS || result == INCOMPLETE) && handle != 0 ==> r is Ok && r->Ok_0.id_spec() == handle,
    {
        if result != SUCCESS && result != INCOMPLETE {
            return Err(Error::Vulkan(result));
        }
        if handle != 0 {
            Ok(PhysicalDevice { inner: handle })
        } else {
            Err(Error::Vulkan(ERROR_UNKNOWN))
        }
    }

    /// All devices, from what enumerating them answered: the result code of the call that
    /// counted them, that of the call that listed them, and the handles listed (none null).
    pub fn get_all(count_result: i32, list_result: i32, handles: &Vec<u64>) -> (r: Result<Vec<PhysicalDevice>, Error>)
        requires
            forall|i: int| 0 <= i < handles@.len() ==> #[trigger] handles@[i] != 0,
        ensures
            count_result != SUCCESS ==> r == Err::<Vec<PhysicalDevice>, Error>(Error::Vulkan(count_result)),
            count_result == SUCCESS && list_result != SUCCESS ==> r == Err::<Vec<PhysicalDevice>, Error>(Error::Vulkan(list_result)),
            count_result == SUCCESS && list_result == SUCCESS ==> {
                &&& r is Ok
                &&& r->Ok_0@.len() == handles@.len()
                &&& forall|i: int| 0 <= i < handles@.len() ==> (#[trigger] r->Ok_0@[i]).id_spec() == handles@[i]
            },
    {
        tri(count_result)?;
        tri(list_result)?;
        let mut devices: Vec<PhysicalDevice> = Vec::new();
        let mut i: usize = 0;
        while i < handles.len()
            invariant
                i <= handles@.len(),
                devices@.len() == i,
                forall|j: int| 0 <= j < handles@.len() ==> #[trigger] handles@[j] != 0,
                forall|j: int| 0 <= j < i ==> (#[trigger] devices@[j]).id_spec() == handles@[j],
            decreases handles@.len() - i,
        {
            devices.push(PhysicalDevice { inner: handles[i] });
            i = i + 1;
        }
        Ok(devices)
    }

    /// The driver's handle for the device; never zero.
    pub fn id(self) -> (r: u64)
        ensures
            r == self.id_spec(),
            r != 0,
    {
        proof {
            use_type_invariant(&self);
        }
        self.inner
    }

    /// The device's queue families, from the flags and queue count the driver reported for
    /// each: the family at position `i` gets the index `i`.
    pub fn queue_families(self, raw: &Vec<(u32, u32)>) -> (r: Vec<QueueFamily>)
        requires
            raw@.len() <= u32::MAX,
        ensures
            r@.len() == raw@.len(),
            forall|i: int| 0 <= i < raw@.len() ==> {
                &&& (#[trigger] r@[i]).idx_spec() == i
                &&& r@[i].parent_spec() == self
                &&& r@[i].raw_flags() == raw@[i].0
                &&& r@[i].queue_count() == raw@[i].1
            },
    {
        let mut families: Vec<QueueFamily> = Vec::new();
        let mut i: usize = 0;
        while i < raw.len()
            invariant
                i <= raw@.len(),
                raw@.len() <= u32::MAX,
                families@.len() == i,
                forall|j: int| 0 <= j < i ==> {
                    &&& (#[trigger] families@[j]).idx_spec() == j
                    &&& families@[j].parent_spec() == self
                    &&& families@[j].raw_flags() == raw@[j].0
                    &&& families@[j].queue_count() == raw@[j].1
                },
            decreases raw@.len() - i,
        {
            let (flags, count) = raw[i];
            families.push(QueueFamily { idx: i as u32, flags, count, parent: self });
            i = i + 1;
        }
        families
    }
}

/// The kind of a physical device.
#[derive(Clone, Copy, PartialEq, Eq, Structural, Debug, Hash)]
pub enum Type {
    /// None of the other kinds.
    Other,
    /// Embedded in, or tightly coupled with, the host.
    IntegratedGpu,
    /// A separate processor connected to the host.
    DiscreteGpu,
    /// A virtual node in a virtualized environment.
    VirtualGpu,
    /// Running on the host's processors.
    Cpu,
}

/// The kind a Vulkan device-type code names; unknown codes are `Other`.
pub open spec fn type_of_code(code: i32) -> Type {
    if code == 1 {
        Type::IntegratedGpu
    } else if code == 2 {
        Type::DiscreteGpu
    } else if code == 3 {
        Type::VirtualGpu
    } else if code == 4 {
        Type::Cpu
    } else {
        Type::Other
    }
}

/// Vulkan's `VK_PHYSICAL_DEVICE_TYPE_OTHER`.
pub const PHYSICAL_DEVICE_TYPE_OTHER: i32 = 0;

/// Vulkan's `VK_PHYSICAL_DEVICE_TYPE_INTEGRATED_GPU`.
pub const PHYSICAL_DEVICE_TYPE_INTEGRATED_GPU: i32 = 1;

/// Vulkan's `VK_PHYSICAL_DEVICE_TYPE_DISCRETE_GPU`.
pub const PHYSICAL_DEVICE_TYPE_DISCRETE_GPU: i32 = 2;

/// Vulkan's `VK_PHYSICAL_DEVICE_TYPE_VIRTUAL_GPU`.
pub const PHYSICAL_DEVICE_TYPE_VIRTUAL_GPU: i32 = 3;

/// Vulkan's `VK_PHYSICAL_DEVICE_TYPE_CPU`.
pub const PHYSICAL_DEVICE_TYPE_CPU: i32 = 4;

/// Each kind of device is named by exactly the Vulkan code of the same name, and every other
/// code (`VK_PHYSICAL_DEVICE_TYPE_OTHER` and codes Vulkan does not define) is `Other`.
pub proof fn lemma_device_type_codes(code: i32)
    ensures
        type_of_code(code) == Type::IntegratedGpu <==> code == PHYSICAL_DEVICE_TYPE_INTEGRATED_GPU,
        type_of_code(code) == Type::DiscreteGpu <==> code == PHYSICAL_DEVICE_TYPE_DISCRETE_GPU,
        type_of_code(code) == Type::VirtualGpu <==> code == PHYSICAL_DEVICE_TYPE_VIRTUAL_GPU,
        type_of_code(code) == Type::Cpu <==> code == PHYSICAL_DEVICE_TYPE_CPU,
        type_of_code(code) == Type::Other <==> (code != PHYSICAL_DEVICE_TYPE_INTEGRATED_GPU
            && code != PHYSICAL_DEVICE_TYPE_DISCRETE_GPU && code != PHYSICAL_DEVICE_TYPE_VIRTUAL_GPU
            && code != PHYSICAL_DEVICE_TYPE_CPU),
        type_of_code(PHYSICAL_DEVICE_TYPE_OTHER) == Type::Other,
{
}

impl Type {
    /// The Vulkan device-type code of the kind.
    pub fn raw(self) -> (r: i32)
        ensures
            type_of_code(r) == self,
            0 <= r <= 4,
            self == Type::Other ==> r == PHYSICAL_DEVICE_TYPE_OTHER,
    {
        match self {
            Type::Other => 0,
            Type::IntegratedGpu => 1,
            Type::DiscreteGpu => 2,
            Type::VirtualGpu => 3,
            Type::Cpu => 4,
        }
    }
}

/// The limits of a physical device that this library reads.
#[derive(Clone, Copy, PartialEq, Eq, Structural, Debug, Hash)]
pub struct Limits {
    pub max_memory_allocation_count: u32,
}

/// What the driver reports about a physical device, as far as this library reads it.
#[derive(Clone, Copy, PartialEq, Eq, Structural, Debug, Hash)]
pub struct Properties {
    pub api_version: u32,
    pub driver_version: u32,
    pub vendor_id: u32,
    pub device_id: u32,
    pub device_type: i32,
    pub limits: Limits,
    pub max_per_set_descriptors: u32,
    pub max_memory_allocation_size: u64,
}

impl Properties {
    /// The Vulkan version the device supports, as major, minor and patch numbers.
    pub fn api_version(&self) -> (r: (u32, u32, u32))
        ensures
            r == version_parts(self.api_version),
    {
        vk_get_version(self.api_version)
    }

    /// The driver's version, as major, minor and patch numbers.
    pub fn driver_version(&self) -> (r: (u32, u32, u32))
        ensures
            r == version_parts(self.driver_version),
    {
        vk_get_version(self.driver_version)
    }

    /// The vendor's identifier.
    pub fn vendor_id(&self) -> (r: u32)
        ensures
            r == self.vendor_id,
    {
        self.vendor_id
    }

    /// The device's identifier.
    pub fn device_id(&self) -> (r: u32)
        ensures
            r == self.device_id,
    {
        self.device_id
    }

    /// The kind of device.
    pub fn ty(&self) -> (r: Type)
        ensures
            r == type_of_code(self.device_type),
    {
        if self.device_type == 1 {
            Type::IntegratedGpu
        } else if self.device_type == 2 {
            Type::DiscreteGpu
        } else if self.device_type == 3 {
            Type::VirtualGpu
        } else if self.device_type == 4 {
            Type::Cpu
        } else {
            Type::Other
        }
    }

    /// The device's limits.
    pub fn limits(&self) -> (r: &Limits)
        ensures
            *r == self.limits,
    {
        &self.limits
    }

    /// The most descriptors a descriptor set may hold.
    pub fn max_descriptors_per_set(&self) -> (r: u32)
        ensures
            r == self.max_per_set_descriptors,
    {
        self.max_per_set_descriptors
    }

    /// The largest single allocation the device allows, in bytes.
    pub fn max_allocation_size(&self) -> (r: u64)
        ensures
            r == self.max_memory_allocation_size,
    {
        self.max_memory_allocation_size
    }
}

/// A queue family of a physical device: its index, its capability bits and its queue count.
#[derive(Clone, Copy, Debug)]
pub struct QueueFamily {
    idx: u32,
    flags: u32,
    count: u32,
    parent: PhysicalDevice,
}

impl QueueFamily {
    /// The family's index on its device.
    pub closed spec fn idx_spec(self) -> u32 {
        self.idx
    }

    /// The device the family belongs to.
    pub closed spec fn parent_spec(self) -> PhysicalDevice {
        self.parent
    }

    /// The capability bits the driver reported.
    pub closed spec fn raw_flags(self) -> u32 {
        self.flags
    }

    /// The number of queues in the family.
    pub closed spec fn queue_count(self) -> u32 {
        self.count
    }

    /// The device the family belongs to.
    pub fn parent(self) -> (r: PhysicalDevice)
        ensures
            r == self.parent_spec(),
    {
        self.parent
    }

    /// The family's index on its device.
    pub fn idx(self) -> (r: u32)
        ensures
            r == self.idx_spec(),
    {
        self.idx
    }

    /// The family's capabilities; the driver must report only known bits.
    pub fn queue_flags(&self) -> (r: QueueFlags)
        requires
            self.raw_flags() & !crate::flags::QUEUE_FLAGS_ALL == 0,
        ensures
            r@ == self.raw_flags(),
    {
        match QueueFlags::from_bits(self.flags) {
            Some(f) => f,
            None => QueueFlags::from_bits_truncate(self.flags),
        }
    }

    /// Whether two families are the same family of the same device.
    pub fn same_as(&self, other: &QueueFamily) -> (r: bool)
        ensures
            r == (self.idx_spec() == other.idx_spec() && self.parent_spec() == other.parent_spec()),
    {
        self.idx == other.idx && self.parent == other.parent
    }
}

/// A logical device: the driver's non-null handle for it, and the physical device it runs on.
#[derive(Clone, Copy, PartialEq, Eq, Structural, Debug, Hash)]
pub struct Device {
    inner: u64,
    parent: PhysicalDevice,
}

impl Device {
    #[verifier::type_invariant]
    spec fn handle_not_null(self) -> bool {
        self.inner != 0
    }

    /// The driver's handle for the device.
    pub closed spec fn id_spec(self) -> u64 {
        self.inner
    }

    /// The physical device it runs on.
    pub closed spec fn parent_spec(self) -> PhysicalDevice {
        self.parent
    }

    /// The device on `parent` that creating one answered: the result code and the handle
    /// written; a null handle is an unknown error.
    pub fn from_created(result: i32, handle: u64, parent: PhysicalDevice) -> (r: Result<Device, Error>)
        ensures
            result != SUCCESS ==> r == Err::<Device, Error>(Error::Vulkan(result)),
            result == SUCCESS && handle == 0 ==> r == Err::<Device, Error>(Error::Vulkan(ERROR_UNKNOWN)),
            result == SUCCESS && handle != 0 ==> r is Ok && r->Ok_0.id_spec() == handle && r->Ok_0.parent_spec() == parent,
    {
        tri(result)?;
        if handle != 0 {
            Ok(Device { inner: handle, parent })
        } else {
            Err(Error::Vulkan(ERROR_UNKNOWN))
        }
    }

    /// A device builder on the physical device `parent`.
    pub fn builder(parent: PhysicalDevice) -> (b: Builder)
        ensures
            b.parent_spec() == parent,
            b.queue_infos()@.len() == 0,
            b.flags_spec() == 0,
            b.extensions_spec().len() == 0,
    {
        Builder::new(parent)
    }

    /// The driver's handle for the device; never zero.
    pub fn id(&self) -> (r: u64)
        ensures
            r == self.id_spec(),
            r != 0,
    {
        proof {
            use_type_invariant(self);
        }
        self.inner
    }

    /// The physical device it runs on.
    pub fn physical(&self) -> (r: PhysicalDevice)
        ensures
            r == self.parent_spec(),
    {
        self.parent
    }
}

/// One group of queues a device is to be created with: the family it is taken from and how
/// many queues (one per priority given for it).
#[derive(Clone, Copy, PartialEq, Eq, Structural, Debug, Hash)]
pub struct QueueInfo {
    pub family_index: u32,
    pub queue_count: u32,
}

/// What a logical device is to be created with: its physical device, its creation flags and
/// its groups of queues.
pub struct Builder {
    parent: PhysicalDevice,
    flags: u32,
    queue_infos: Vec<QueueInfo>,
    extensions: Vec<String>,
}

impl Builder {
    /// The physical device.
    pub closed spec fn parent_spec(&self) -> PhysicalDevice {
        self.parent
    }

    /// The creation flags.
    pub closed spec fn flags_spec(&self) -> u32 {
        self.flags
    }

    /// The groups of queues so far.
    pub closed spec fn queue_infos(&self) -> Vec<QueueInfo> {
        self.queue_infos
    }

    /// The device extensions to enable.
    pub closed spec fn extensions_spec(&self) -> Seq<Seq<char>> {
        self.extensions@.map_values(|s: String| s@)
    }

    /// A builder on `parent`, with no flags and no queues.
    pub fn new(parent: PhysicalDevice) -> (b: Self)
        ensures
            b.parent_spec() == parent,
            b.queue_infos()@.len() == 0,
            b.flags_spec() == 0,
            b.extensions_spec().len() == 0,
    {
        let b = Builder { parent, flags: 0, queue_infos: Vec::new(), extensions: Vec::new() };
        proof {
            assert(b.extensions_spec().len() == 0);
        }
        b
    }

    /// Sets the creation flags.
    pub fn flags(self, flags: u32) -> (b: Self)
        ensures
            b.flags_spec() == flags,
            b.parent_spec() == self.parent_spec(),
            b.queue_infos()@ == self.queue_infos()@,
            b.extensions_spec() == self.extensions_spec(),
    {
        Builder { flags, ..self }
    }

    /// Starts a group of one queue per priority (`priority_count` of them), from family 0
    /// until told otherwise.
    pub fn queues(self, priority_count: usize) -> (q: QueueBuilder)
        requires
            priority_count <= u32::MAX,
        ensures
            q.builder().parent_spec() == self.parent_spec(),
            q.builder().flags_spec() == self.flags_spec(),
            q.builder().extensions_spec() == self.extensions_spec(),
            q.builder().queue_infos()@ == self.queue_infos()@.push(QueueInfo { family_index: 0, queue_count: priority_count as u32 }),
    {
        QueueBuilder::new(self, priority_count)
    }

    /// Sets the device extensions to enable; their number must fit the driver's 32-bit
    /// count.
    pub fn extensions(self, ext: Vec<String>) -> (b: Self)
        requires
            ext@.len() <= u32::MAX,
        ensures
            b.extensions_spec() == ext@.map_values(|s: String| s@),
            b.parent_spec() == self.parent_spec(),
            b.flags_spec() == self.flags_spec(),
            b.queue_infos()@ == self.queue_infos()@,
    {
        Builder { extensions: ext, ..self }
    }

    /// The device extensions to enable.
    pub fn extension_names(&self) -> (r: &Vec<String>)
        ensures
            r@.map_values(|s: String| s@) == self.extensions_spec(),
    {
        &self.extensions
    }

    /// The queue groups, in order.
    pub fn queue_info_list(&self) -> (r: &Vec<QueueInfo>)
        ensures
            r@ == self.queue_infos()@,
    {
        &self.queue_infos
    }

    /// The device that creating one from this builder answered (see `Device::from_created`).
    pub fn build(self, result: i32, handle: u64) -> (r: Result<Device, Error>)
        ensures
            result != SUCCESS ==> r == Err::<Device, Error>(Error::Vulkan(result)),
            result == SUCCESS && handle == 0 ==> r == Err::<Device, Error>(Error::Vulkan(ERROR_UNKNOWN)),
            result == SUCCESS && handle != 0 ==> r is Ok && r->Ok_0.id_spec() == handle && r->Ok_0.parent_spec() == self.parent_spec(),
    {
        Device::from_created(result, handle, self.parent)
    }

    /// The number of queue groups.
    pub fn queue_info_count(&self) -> (r: usize)
        ensures
            r == self.queue_infos()@.len(),
    {
        self.queue_infos.len()
    }
}

/// A builder whose last group of queues is being set up.
pub struct QueueBuilder {
    parent: Builder,
}

impl QueueBuilder {
    /// The device builder, with the group being set up as its last.
    pub closed spec fn builder(&self) -> Builder {
        self.parent
    }

    /// Adds a group of `priority_count` queues from family 0 to `parent`.
    pub fn new(parent: Builder, priority_count: usize) -> (q: Self)
        requires
            priority_count <= u32::MAX,
        ensures
            q.builder().parent_spec() == parent.parent_spec(),
            q.builder().flags_spec() == parent.flags_spec(),
            q.builder().extensions_spec() == parent.extensions_spec(),
            q.builder().queue_infos()@ == parent.queue_infos()@.push(QueueInfo { family_index: 0, queue_count: priority_count as u32 }),
    {
        let mut parent = parent;
        parent.queue_infos.push(QueueInfo { family_index: 0, queue_count: priority_count as u32 });
        QueueBuilder { parent }
    }

    /// Takes the group's queues from `family`, which must belong to the builder's physical
    /// device (otherwise: the unknown error).
    pub fn family(self, family: &QueueFamily) -> (r: Result<Self, Error>)
        requires
            self.builder().queue_infos()@.len() > 0,
        ensures
            family.parent_spec() != self.builder().parent_spec() ==> r is Err && r->Err_0 == Error::Vulkan(ERROR_UNKNOWN),
            family.parent_spec() == self.builder().parent_spec() ==> {
                let infos = self.builder().queue_infos()@;
                let last = infos.len() - 1;
                &&& r is Ok
                &&& r->Ok_0.builder().parent_spec() == self.builder().parent_spec()
                &&& r->Ok_0.builder().flags_spec() == self.builder().flags_spec()
                &&& r->Ok_0.builder().extensions_spec() == self.builder().extensions_spec()
                &&& r->Ok_0.builder().queue_infos()@ == infos.update(last, QueueInfo { family_index: family.idx_spec(), queue_count: infos[last].queue_count })
            },
    {
        if family.parent() != self.parent.parent {
            return Err(Error::Vulkan(ERROR_UNKNOWN));
        }
        self.family_index(family.idx())
    }

    /// Takes the group's queues from the family with index `family`.
    pub fn family_index(self, family: u32) -> (r: Result<Self, Error>)
        requires
            self.builder().queue_infos()@.len() > 0,
        ensures
            ({
                let infos = self.builder().queue_infos()@;
                let last = infos.len() - 1;
                &&& r is Ok
                &&& r->Ok_0.builder().parent_spec() == self.builder().parent_spec()
                &&& r->Ok_0.builder().flags_spec() == self.builder().flags_spec()
                &&& r->Ok_0.builder().extensions_spec() == self.builder().extensions_spec()
                &&& r->Ok_0.builder().queue_infos()@ == infos.update(last, QueueInfo { family_index: family, queue_count: infos[last].queue_count })
            }),
    {
        let mut parent = self.parent;
        let last = parent.queue_infos.len() - 1;
        let count = parent.queue_infos[last].queue_count;
        parent.queue_infos.set(last, QueueInfo { family_index: family, queue_count: count });
        Ok(QueueBuilder { parent })
    }

    /// Replaces the group's priorities by `priority_count` new ones; their number must equal
    /// the group's queue count (otherwise: the initialization-failed error).
    pub fn priorities(self, priority_count: usize) -> (r: Result<Self, Error>)
        requires
            self.builder().queue_infos()@.len() > 0,
        ensures
            ({
                let infos = self.builder().queue_infos()@;
                if priority_count != infos[infos.len() - 1].queue_count {
                    r is Err && r->Err_0 == Error::Vulkan(ERROR_INITIALIZATION_FAILED)
                } else {
                    r is Ok && r->Ok_0.builder() == self.builder()
                }
            }),
    {
        let last = self.parent.queue_infos.len() - 1;
        if priority_count != self.parent.queue_infos[last].queue_count as usize {
            return Err(Error::Vulkan(ERROR_INITIALIZATION_FAILED));
        }
        Ok(self)
    }

    /// Ends the group, giving the device builder back.
    pub fn build(self) -> (b: Builder)
        ensures
            b == self.builder(),
    {
        self.parent
    }
}

} // verus!
