use vstd::prelude::*;
use crate::device::{Builder, Device, PhysicalDevice, QueueInfo, tri};
use crate::error::{Error, SUCCESS, ERROR_UNKNOWN};
use crate::flags::QueueFlags;

verus! {

/// A queue family as a context uses it: what its queues can do, the command pool and the
/// command buffer it records on, and its queues' handles.
pub struct ContextFamily {
    pub flags: QueueFlags,
    pub pool: u64,
    pub buffer: u64,
    pub queues: Vec<u64>,
}

/// A logical device with, for each of its queue families, a command pool, a command buffer
/// and the family's queues.
pub struct Context {
    device: Device,
    families: Vec<ContextFamily>,
}

/// The handle a creation call answered: the result code and the handle written; a null
/// handle is an unknown error.
pub fn handle_created(code: i32, handle: u64) -> (r: Result<u64, Error>)
    ensures
        code != SUCCESS ==> r == Err::<u64, Error>(Error::Vulkan(code)),
        code == SUCCESS && handle == 0 ==> r == Err::<u64, Error>(Error::Vulkan(ERROR_UNKNOWN)),
        code == SUCCESS && handle != 0 ==> r == Ok::<u64, Error>(handle),
{
    tri(code)?;
    if handle != 0 {
        Ok(handle)
    } else {
        Err(Error::Vulkan(ERROR_UNKNOWN))
    }
}

/// The index of the first family whose queues can do everything `flags` names.
pub open spec fn first_family_with(fs: Seq<QueueFlags>, flags: QueueFlags) -> Option<int> {
    if exists|i: int| 0 <= i < fs.len() && fs[i]@ & flags@ == flags@ {
        Some(choose|i: int| 0 <= i < fs.len() && fs[i]@ & flags@ == flags@
            && forall|j: int| 0 <= j < i ==> fs[j]@ & flags@ != flags@)
    } else {
        None
    }
}

impl Context {
    /// The device.
    pub closed spec fn device_spec(&self) -> Device {
        self.device
    }

    /// What the families' queues can do, in family order.
    pub closed spec fn family_flags(&self) -> Seq<QueueFlags> {
        self.families@.map_values(|f: ContextFamily| f.flags)
    }

    /// The families' command pools, in family order.
    pub closed spec fn family_pools(&self) -> Seq<u64> {
        self.families@.map_values(|f: ContextFamily| f.pool)
    }

    /// The families' command buffers, in family order.
    pub closed spec fn family_buffers(&self) -> Seq<u64> {
        self.families@.map_values(|f: ContextFamily| f.buffer)
    }

    /// The handles of each family's queues, in family order.
    pub closed spec fn family_queues(&self) -> Seq<Seq<u64>> {
        self.families@.map_values(|f: ContextFamily| f.queues@)
    }

    /// The device to make for a context on `phy`, whose queue families have the given queue
    /// counts: every queue of every family, one group per family, in family order.
    pub fn device_builder(phy: PhysicalDevice, queue_counts: &Vec<u32>) -> (b: Builder)
        ensures
            b.parent_spec() == phy,
            b.flags_spec() == 0,
            b.queue_infos()@.len() == queue_counts@.len(),
            forall|i: int| 0 <= i < queue_counts@.len() ==> #[trigger] b.queue_infos()@[i]
                == (QueueInfo { family_index: i as u32, queue_count: queue_counts@[i] }),
    {
        let mut builder = Device::builder(phy);
        let mut i: usize = 0;
        while i < queue_counts.len()
            invariant
                i <= queue_counts@.len(),
                builder.parent_spec() == phy,
                builder.flags_spec() == 0,
                builder.queue_infos()@.len() == i,
                forall|j: int| 0 <= j < i ==> #[trigger] builder.queue_infos()@[j]
                    == (QueueInfo { family_index: j as u32, queue_count: queue_counts@[j] }),
            decreases queue_counts@.len() - i,
        {
            let count = queue_counts[i];
            let ghost before = builder.queue_infos()@;
            let group = builder.queues(count as usize);
            let group = match group.family_index(i as u32) {
                Ok(g) => g,
                Err(_) => {
                    proof {
                        assert(false);
                    }
                    return Device::builder(phy);
                },
            };
            builder = group.build();
            proof {
                assert forall|j: int| 0 <= j < i + 1 implies #[trigger] builder.queue_infos()@[j]
                    == (QueueInfo { family_index: j as u32, queue_count: queue_counts@[j] }) by {
                    if j < i {
                        assert(builder.queue_infos()@[j] == before[j]);
                    }
                }
            }
            i = i + 1;
        }
        builder
    }

    /// A family of the context: its flags are the known bits of `queue_flags`; every queue
    /// handle must be non-null (otherwise: the unknown error).
    pub fn family(queue_flags: u32, pool: u64, buffer: u64, queues: Vec<u64>) -> (r: Result<ContextFamily, Error>)
        ensures
            queues@.contains(0u64) ==> r == Err::<ContextFamily, Error>(Error::Vulkan(ERROR_UNKNOWN)),
            !queues@.contains(0u64) ==> r is Ok
                && r->Ok_0.flags@ == queue_flags & crate::flags::QUEUE_FLAGS_ALL
                && r->Ok_0.pool == pool
                && r->Ok_0.buffer == buffer
                && r->Ok_0.queues@ == queues@,
    {
        let mut i: usize = 0;
        while i < queues.len()
            invariant
                i <= queues@.len(),
                forall|j: int| 0 <= j < i ==> #[trigger] queues@[j] != 0,
            decreases queues@.len() - i,
        {
            if queues[i] == 0 {
                return Err(Error::Vulkan(ERROR_UNKNOWN));
            }
            i = i + 1;
        }
        proof {
            assert(!queues@.contains(0u64)) by {
                if queues@.contains(0u64) {
                    let k = choose|k: int| 0 <= k < queues@.len() && queues@[k] == 0u64;
                    assert(queues@[k] != 0);
                }
            }
        }
        Ok(ContextFamily { flags: QueueFlags::from_bits_truncate(queue_flags), pool, buffer, queues })
    }

    /// A context on `device` with the given families, in family order.
    pub fn new(device: Device, families: Vec<ContextFamily>) -> (c: Self)
        ensures
            c.device_spec() == device,
            c.family_flags() == families@.map_values(|f: ContextFamily| f.flags),
            c.family_pools() == families@.map_values(|f: ContextFamily| f.pool),
            c.family_buffers() == families@.map_values(|f: ContextFamily| f.buffer),
            c.family_queues() == families@.map_values(|f: ContextFamily| f.queues@),
    {
        Context { device, families }
    }

    /// The device.
    pub fn device(&self) -> (r: &Device)
        ensures
            *r == self.device_spec(),
    {
        &self.device
    }

    /// The number of families.
    pub fn family_count(&self) -> (r: usize)
        ensures
            r == self.family_flags().len(),
    {
        self.families.len()
    }

    /// The family a command needing `flags` is recorded on: the first whose queues can do
    /// all of it, `None` when no family can.
    pub fn select_family(&self, flags: QueueFlags) -> (r: Option<usize>)
        ensures
            r matches Some(i) ==> first_family_with(self.family_flags(), flags) == Some(i as int),
            r is None ==> first_family_with(self.family_flags(), flags) is None,
    {
        let ghost fs = self.family_flags();
        let mut i: usize = 0;
        while i < self.families.len()
            invariant
                i <= self.families@.len(),
                fs == self.family_flags(),
                fs.len() == self.families@.len(),
                forall|j: int| 0 <= j < i ==> #[trigger] fs[j]@ & flags@ != flags@,
            decreases self.families@.len() - i,
        {
            if self.families[i].flags.contains(flags) {
                proof {
                    assert(fs[i as int] == self.families@[i as int].flags);
                    let k = choose|k: int| 0 <= k < fs.len() && fs[k]@ & flags@ == flags@
                        && forall|j: int| 0 <= j < k ==> fs[j]@ & flags@ != flags@;
                    assert(k == i) by {
                        if k < i {
                            assert(fs[k]@ & flags@ != flags@);
                        }
                        if k > i {
                            assert(fs[i as int]@ & flags@ != flags@);
                        }
                    }
                }
                return Some(i);
            }
            proof {
                assert(fs[i as int] == self.families@[i as int].flags);
            }
            i = i + 1;
        }
        proof {
            assert(!exists|k: int| 0 <= k < fs.len() && fs[k]@ & flags@ == flags@) by {
                if exists|k: int| 0 <= k < fs.len() && fs[k]@ & flags@ == flags@ {
                    let k = choose|k: int| 0 <= k < fs.len() && fs[k]@ & flags@ == flags@;
                    assert(fs[k]@ & flags@ != flags@);
                }
            }
        }
        None
    }

    /// The command pool and command buffer of the family at `idx`.
    pub fn pool_buffer(&self, idx: usize) -> (r: (u64, u64))
        requires
            idx < self.family_flags().len(),
        ensures
            r == (self.family_pools()[idx as int], self.family_buffers()[idx as int]),
    {
        (self.families[idx].pool, self.families[idx].buffer)
    }
}

} // verus!
