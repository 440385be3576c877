use gamesim::context::{handle_created, Context};
use gamesim::device::{make_version, tri, version_of, Device, Limits, PhysicalDevice, Properties, QueueInfo, Type};
use gamesim::error::{
    result_name, Error, ERROR_DEVICE_LOST, ERROR_INITIALIZATION_FAILED, ERROR_UNKNOWN, INCOMPLETE, SUCCESS, TIMEOUT,
};
use gamesim::flags::{MemoryFlags, QueueFlags};
use gamesim::instance::{extension_props, Builder as InstanceBuilder, ExtensionProperty, INSTANCE_CREATE_ENUMERATE_PORTABILITY};

#[test]
fn result_names() {
    assert_eq!(result_name(SUCCESS), Some("SUCCESS"));
    assert_eq!(result_name(TIMEOUT), Some("TIMEOUT"));
    assert_eq!(result_name(ERROR_DEVICE_LOST), Some("ERROR_DEVICE_LOST"));
    assert_eq!(result_name(-1000069000), Some("ERROR_OUT_OF_POOL_MEMORY"));
    assert_eq!(result_name(12345), None);
    assert_eq!(Error::Vulkan(ERROR_UNKNOWN).name(), Some("ERROR_UNKNOWN"));
    assert_eq!(Error::from(-4), Error::Vulkan(ERROR_DEVICE_LOST));
}

#[test]
fn result_codes_match_bindings() {
    assert_eq!(SUCCESS, vulkan_bindings::SUCCESS);
    assert_eq!(TIMEOUT, vulkan_bindings::TIMEOUT);
    assert_eq!(INCOMPLETE, vulkan_bindings::INCOMPLETE);
    assert_eq!(ERROR_DEVICE_LOST, vulkan_bindings::ERROR_DEVICE_LOST);
    assert_eq!(ERROR_UNKNOWN, vulkan_bindings::ERROR_UNKNOWN);
    assert_eq!(ERROR_INITIALIZATION_FAILED, vulkan_bindings::ERROR_INITIALIZATION_FAILED);
}

#[test]
fn tri_turns_codes_into_results() {
    assert_eq!(tri(SUCCESS), Ok(()));
    assert_eq!(tri(ERROR_DEVICE_LOST), Err(Error::Vulkan(ERROR_DEVICE_LOST)));
    assert_eq!(tri(TIMEOUT), Err(Error::Vulkan(TIMEOUT)));
}

#[test]
fn versions_pack_and_unpack() {
    assert_eq!(make_version(1, 3, 238), (1 << 22) | (3 << 12) | 238);
    assert_eq!(make_version(1, 2, 0), 4_202_496);
    assert_eq!(version_of(make_version(1, 3, 238)), (1, 3, 238));
    assert_eq!(version_of(0), (0, 0, 0));
    assert_eq!(make_version(1, 3, 238), vulkan_bindings::make_version(1, 3, 238));
}

#[test]
fn first_physical_device() {
    assert_eq!(PhysicalDevice::first(SUCCESS, 42).unwrap().id(), 42);
    assert_eq!(PhysicalDevice::first(INCOMPLETE, 43).unwrap().id(), 43);
    assert_eq!(PhysicalDevice::first(SUCCESS, 0), Err(Error::Vulkan(ERROR_UNKNOWN)));
    assert_eq!(PhysicalDevice::first(ERROR_DEVICE_LOST, 42), Err(Error::Vulkan(ERROR_DEVICE_LOST)));
}

#[test]
fn all_physical_devices() {
    let all = PhysicalDevice::get_all(SUCCESS, SUCCESS, &vec![5, 6]).unwrap();
    assert_eq!(all.iter().map(|d| d.id()).collect::<Vec<_>>(), vec![5, 6]);
    assert_eq!(PhysicalDevice::get_all(-1, SUCCESS, &vec![5]), Err(Error::Vulkan(-1)));
    assert_eq!(PhysicalDevice::get_all(SUCCESS, INCOMPLETE, &vec![5]), Err(Error::Vulkan(INCOMPLETE)));
}

#[test]
fn queue_families_are_numbered() {
    let phy = PhysicalDevice::from_handle(9);
    let families = phy.queue_families(&vec![(0x7, 2), (0x4, 1)]);
    assert_eq!(families.len(), 2);
    assert_eq!(families[0].idx(), 0);
    assert_eq!(families[1].idx(), 1);
    assert_eq!(families[1].parent(), phy);
    assert_eq!(families[0].queue_flags().bits(), 0x7);
    assert!(families[0].same_as(&families[0]));
    assert!(!families[0].same_as(&families[1]));
}

#[test]
fn properties_read_back() {
    let props = Properties {
        api_version: make_version(1, 3, 0),
        driver_version: make_version(2, 1, 7),
        vendor_id: 0x10de,
        device_id: 0x2204,
        device_type: 2,
        limits: Limits { max_memory_allocation_count: 4096 },
        max_per_set_descriptors: 1024,
        max_memory_allocation_size: 1 << 32,
    };
    assert_eq!(props.api_version(), (1, 3, 0));
    assert_eq!(props.driver_version(), (2, 1, 7));
    assert_eq!(props.vendor_id(), 0x10de);
    assert_eq!(props.device_id(), 0x2204);
    assert_eq!(props.ty(), Type::DiscreteGpu);
    assert_eq!(props.limits().max_memory_allocation_count, 4096);
    assert_eq!(props.max_descriptors_per_set(), 1024);
    assert_eq!(props.max_allocation_size(), 1 << 32);
    let other = Properties { device_type: 77, ..props };
    assert_eq!(other.ty(), Type::Other);
    assert_eq!(Type::Cpu.raw(), vulkan_bindings::PHYSICAL_DEVICE_TYPE_CPU);
    assert_eq!(Type::IntegratedGpu.raw(), vulkan_bindings::PHYSICAL_DEVICE_TYPE_INTEGRATED_GPU);
}

#[test]
fn device_builder_queue_groups() {
    let phy = PhysicalDevice::from_handle(9);
    let families = phy.queue_families(&vec![(0x7, 2)]);
    let builder = Device::builder(phy).flags(0).queues(2).family(&families[0]).unwrap().priorities(2).unwrap().build();
    assert_eq!(builder.queue_info_count(), 1);
    let other = PhysicalDevice::from_handle(10).queue_families(&vec![(0x7, 2)]);
    let refused = Device::builder(phy).queues(2).family(&other[0]);
    assert!(matches!(refused, Err(Error::Vulkan(ERROR_UNKNOWN))));
    let wrong = Device::builder(phy).queues(2).priorities(3);
    assert!(matches!(wrong, Err(Error::Vulkan(ERROR_INITIALIZATION_FAILED))));
}

#[test]
fn device_from_created() {
    let phy = PhysicalDevice::from_handle(9);
    let device = Device::from_created(SUCCESS, 77, phy).unwrap();
    assert_eq!(device.id(), 77);
    assert_eq!(device.physical(), phy);
    assert_eq!(Device::from_created(SUCCESS, 0, phy), Err(Error::Vulkan(ERROR_UNKNOWN)));
    assert_eq!(Device::from_created(-3, 77, phy), Err(Error::Vulkan(-3)));
}

#[test]
fn context_asks_for_every_queue() {
    let phy = PhysicalDevice::from_handle(9);
    let builder = Context::device_builder(phy, &vec![3, 1, 2]);
    assert_eq!(builder.queue_info_count(), 3);
    assert_eq!(
        builder.queue_info_list().clone(),
        vec![
            QueueInfo { family_index: 0, queue_count: 3 },
            QueueInfo { family_index: 1, queue_count: 1 },
            QueueInfo { family_index: 2, queue_count: 2 },
        ]
    );
    let builder = builder.extensions(vec!["VK_KHR_swapchain".to_string()]);
    assert_eq!(builder.extension_names().len(), 1);
    let device = builder.build(SUCCESS, 12).unwrap();
    assert_eq!((device.id(), device.physical()), (12, phy));
}

#[test]
fn context_family_checks_queues() {
    let family = Context::family(0x3 | 0x400, 5, 6, vec![11, 12]).unwrap();
    assert_eq!(family.flags.bits(), 0x3);
    assert_eq!(family.pool, 5);
    assert_eq!(family.buffer, 6);
    assert_eq!(family.queues, vec![11, 12]);
    assert!(matches!(Context::family(0x3, 5, 6, vec![11, 0]), Err(Error::Vulkan(ERROR_UNKNOWN))));
}

#[test]
fn context_selects_first_capable_family() {
    let device = Device::from_created(SUCCESS, 77, PhysicalDevice::from_handle(9)).unwrap();
    let graphics = Context::family(QueueFlags::GRAPHICS, 1, 2, vec![3]).unwrap();
    let compute = Context::family(QueueFlags::COMPUTE | QueueFlags::TRANSFER, 4, 5, vec![6]).unwrap();
    let all = Context::family(0x7, 7, 8, vec![9]).unwrap();
    let ctx = Context::new(device, vec![graphics, compute, all]);
    assert_eq!(ctx.family_count(), 3);
    assert_eq!(ctx.device().id(), 77);
    let want_compute = QueueFlags::from_bits_truncate(QueueFlags::COMPUTE);
    assert_eq!(ctx.select_family(want_compute), Some(1));
    assert_eq!(ctx.pool_buffer(1), (4, 5));
    let want_graphics_transfer = QueueFlags::from_bits_truncate(QueueFlags::GRAPHICS | QueueFlags::TRANSFER);
    assert_eq!(ctx.select_family(want_graphics_transfer), Some(2));
    let want_sparse = QueueFlags::from_bits_truncate(QueueFlags::SPARSE_BINDING);
    assert_eq!(ctx.select_family(want_sparse), None);
}

#[test]
fn handles_created() {
    assert_eq!(handle_created(SUCCESS, 4), Ok(4));
    assert_eq!(handle_created(SUCCESS, 0), Err(Error::Vulkan(ERROR_UNKNOWN)));
    assert_eq!(handle_created(-2, 4), Err(Error::Vulkan(-2)));
}

#[test]
fn flags_sets() {
    let mapable = MemoryFlags::from_bits_truncate(MemoryFlags::MAPABLE);
    let local = MemoryFlags::from_bits_truncate(MemoryFlags::DEVICE_LOCAL);
    assert!(mapable.contains(local));
    assert!(!local.contains(mapable));
    assert_eq!(MemoryFlags::from_bits_truncate(0xffff_ffff).bits(), 0x1ff);
    assert_eq!(MemoryFlags::empty().bits(), 0);
    assert_eq!(MemoryFlags::default().bits(), MemoryFlags::DEVICE_LOCAL);
    assert_eq!(local.union(MemoryFlags::from_bits_truncate(MemoryFlags::HOST_VISIBLE)).bits(), 0x3);
    assert_eq!(QueueFlags::from_bits(0x2).map(|f| f.bits()), Some(0x2));
    assert!(QueueFlags::from_bits(0x200).is_none());
    assert_eq!(QueueFlags::from_bits_truncate(0x201).bits(), 0x1);
    assert_eq!(MemoryFlags::DEVICE_LOCAL, vulkan_bindings::MEMORY_PROPERTY_DEVICE_LOCAL_BIT);
    assert_eq!(QueueFlags::COMPUTE, vulkan_bindings::QUEUE_COMPUTE_BIT);
}

#[test]
fn instance_builder_settings() {
    let b = InstanceBuilder::new(1, 3, 0);
    assert_eq!(b.api_version(), make_version(1, 3, 0));
    assert_eq!(b.flags_bits(), INSTANCE_CREATE_ENUMERATE_PORTABILITY);
    assert_eq!(b.application_version(), 0);
    let b = b
        .application("gamesim".to_string(), 0, 1, 0)
        .engine("engine".to_string(), 2, 0, 1)
        .extensions(vec!["VK_KHR_portability_enumeration".to_string()])
        .layers(vec![])
        .flags(0);
    assert_eq!(b.application_version(), make_version(0, 1, 0));
    assert_eq!(b.engine_version(), make_version(2, 0, 1));
    assert_eq!(b.extension_names().len(), 1);
    assert_eq!(b.layer_names().len(), 0);
    assert_eq!(b.flags_bits(), 0);
    assert_eq!(InstanceBuilder::created(SUCCESS, 3), Ok(3));
    assert_eq!(InstanceBuilder::created(SUCCESS, 0), Err(Error::Vulkan(ERROR_INITIALIZATION_FAILED)));
    assert_eq!(InstanceBuilder::created(-9, 3), Err(Error::Vulkan(-9)));
}

#[test]
fn extension_properties() {
    let p = ExtensionProperty { name: "VK_KHR_surface".to_string(), spec_version: make_version(0, 0, 25) };
    assert_eq!(p.version(), (0, 0, 25));
    assert!(p == ExtensionProperty { name: "VK_KHR_surface".to_string(), spec_version: make_version(0, 0, 25) });
    assert!(p != ExtensionProperty { name: "VK_KHR_surface".to_string(), spec_version: 1 });
    let listed = extension_props(SUCCESS, SUCCESS, vec![p]).unwrap();
    assert_eq!(listed.len(), 1);
    assert!(matches!(extension_props(-1, SUCCESS, vec![]), Err(Error::Vulkan(-1))));
    assert!(matches!(extension_props(SUCCESS, INCOMPLETE, vec![]), Err(Error::Vulkan(INCOMPLETE))));
}
