use gamesim::buffer::{Buffer, DescriptorBufferInfo};
use gamesim::compute::{ComputeCommand, ComputeOp};
use gamesim::descriptor::{
    Builder as PoolBuilder, DescriptorPool, DescriptorSets, DescriptorType, PoolSize, WriteDescriptorSet,
    DESCRIPTOR_TYPE_STORAGE_BUFFER, WHOLE_SIZE,
};
use gamesim::device::{Device, PhysicalDevice};
use gamesim::error::{Error, ERROR_INITIALIZATION_FAILED, ERROR_UNKNOWN, SUCCESS};
use gamesim::memory::{Bound, MemoryPtr, RawInfo};
use gamesim::pipeline::{BuildCall, BuildStage, BuildStep, BuiltPipeline, ComputeBuilder, Pipeline, Release};
use gamesim::shader::{Builder as ShaderBuilder, LayoutBinding, SHADER_STAGE_COMPUTE};
use gamesim::transfer::{BufferCopy, BufferCopyRegion, TransferCommand, TransferOp};

fn device() -> Device {
    Device::from_created(SUCCESS, 77, PhysicalDevice::from_handle(9)).unwrap()
}

#[test]
fn descriptor_type_codes_match_bindings() {
    assert_eq!(DescriptorType::Sampler.raw(), vulkan_bindings::DESCRIPTOR_TYPE_SAMPLER);
    assert_eq!(DescriptorType::StorageBuffer.raw(), vulkan_bindings::DESCRIPTOR_TYPE_STORAGE_BUFFER);
    assert_eq!(DescriptorType::UniformBuffer.raw(), vulkan_bindings::DESCRIPTOR_TYPE_UNIFORM_BUFFER);
    assert_eq!(DescriptorType::InlineUniformBlock.raw(), vulkan_bindings::DESCRIPTOR_TYPE_INLINE_UNIFORM_BLOCK);
    assert_eq!(DescriptorType::MutableValve.raw(), vulkan_bindings::DESCRIPTOR_TYPE_MUTABLE_VALVE);
    assert_eq!(DescriptorType::BlockMatchImageQcom.raw(), vulkan_bindings::DESCRIPTOR_TYPE_BLOCK_MATCH_IMAGE_QCOM);
    assert_eq!(DESCRIPTOR_TYPE_STORAGE_BUFFER, vulkan_bindings::DESCRIPTOR_TYPE_STORAGE_BUFFER);
    assert_eq!(WHOLE_SIZE, vulkan_bindings::WHOLE_SIZE);
    assert_eq!(SHADER_STAGE_COMPUTE, vulkan_bindings::SHADER_STAGE_COMPUTE_BIT);
}

#[test]
fn compute_builder_counts_pool_room_per_type() {
    let b = ComputeBuilder::new(device())
        .binding(DescriptorType::StorageBuffer, 1)
        .binding(DescriptorType::UniformBuffer, 3)
        .binding(DescriptorType::StorageBuffer, 5);
    assert_eq!(
        b.bindings().clone(),
        vec![
            LayoutBinding { binding: 0, ty: 7, count: 1, stages: SHADER_STAGE_COMPUTE },
            LayoutBinding { binding: 1, ty: 6, count: 3, stages: SHADER_STAGE_COMPUTE },
            LayoutBinding { binding: 2, ty: 7, count: 5, stages: SHADER_STAGE_COMPUTE },
        ]
    );
    // One descriptor of room per binding, whatever the binding's own count.
    assert_eq!(b.pool_sizes().clone(), vec![PoolSize { ty: 7, count: 2 }, PoolSize { ty: 6, count: 1 }]);
    assert_eq!(b.entry_name(), "main");
    assert_eq!(b.device().id(), 77);
}

fn finish(build: &mut gamesim::pipeline::ComputeBuild, code: i32, handle: u64) -> BuildStep {
    build.step(code, handle)
}

#[test]
fn compute_build_happy_path() {
    let builder = ComputeBuilder::new(device())
        .entry("generate_people".to_string())
        .binding(DescriptorType::StorageBuffer, 1)
        .flags(0)
        .layout_flags(0)
        .cache_flags(0);
    let (mut build, first) = builder.build();
    assert_eq!(first, BuildCall::CreateDescriptorSetLayout);
    assert!(matches!(finish(&mut build, SUCCESS, 10), BuildStep::Call(BuildCall::CreateShaderModule)));
    assert!(matches!(finish(&mut build, SUCCESS, 11), BuildStep::Call(BuildCall::CreatePipelineCache { flags: 0 })));
    assert!(matches!(
        finish(&mut build, SUCCESS, 12),
        BuildStep::Call(BuildCall::CreatePipelineLayout { set_layout: 10, flags: 0 })
    ));
    assert!(matches!(
        finish(&mut build, SUCCESS, 13),
        BuildStep::Call(BuildCall::CreateComputePipeline { cache: 12, layout: 13, module: 11, flags: 0 })
    ));
    assert!(matches!(finish(&mut build, SUCCESS, 14), BuildStep::Call(BuildCall::CreateDescriptorPool)));
    assert!(matches!(
        finish(&mut build, SUCCESS, 15),
        BuildStep::Call(BuildCall::AllocateDescriptorSet { pool: 15, set_layout: 10 })
    ));
    match finish(&mut build, SUCCESS, 16) {
        BuildStep::Done { result, releases } => {
            let built = result.unwrap();
            assert_eq!(built, BuiltPipeline { pipeline: 14, layout: 13, pool: 15, set: 16 });
            assert_eq!(
                releases,
                vec![Release::PipelineCache(12), Release::ShaderModule(11), Release::DescriptorSetLayout(10)]
            );
            let pipeline = Pipeline::new(built, device());
            assert_eq!(pipeline.id(), 14);
            assert_eq!(pipeline.layout(), 13);
            assert_eq!(pipeline.pool().id(), 15);
            assert_eq!(pipeline.sets().len(), 1);
            assert_eq!(pipeline.device().id(), 77);
        }
        _ => panic!("expected the end of the build"),
    }
    assert_eq!(build.stage(), BuildStage::Done);
}

#[test]
fn compute_build_without_cache_skips_it() {
    let (mut build, _) = ComputeBuilder::new(device()).binding(DescriptorType::StorageBuffer, 1).build();
    let _ = build.step(SUCCESS, 10);
    assert!(matches!(
        build.step(SUCCESS, 11),
        BuildStep::Call(BuildCall::CreatePipelineLayout { set_layout: 10, flags: 0 })
    ));
    assert!(matches!(
        build.step(SUCCESS, 13),
        BuildStep::Call(BuildCall::CreateComputePipeline { cache: 0, layout: 13, module: 11, flags: 0 })
    ));
}

#[test]
fn compute_build_failures_release_what_was_made() {
    // The set layout fails: nothing to release.
    let (mut build, _) = ComputeBuilder::new(device()).build();
    match build.step(-2, 0) {
        BuildStep::Done { result, releases } => {
            assert_eq!(result, Err(Error::Vulkan(-2)));
            assert!(releases.is_empty());
        }
        _ => panic!("expected a failure"),
    }

    // The shader module comes back null: the set layout is destroyed.
    let (mut build, _) = ComputeBuilder::new(device()).build();
    let _ = build.step(SUCCESS, 10);
    match build.step(SUCCESS, 0) {
        BuildStep::Done { result, releases } => {
            assert_eq!(result, Err(Error::Vulkan(ERROR_INITIALIZATION_FAILED)));
            assert_eq!(releases, vec![Release::DescriptorSetLayout(10)]);
        }
        _ => panic!("expected a failure"),
    }

    // The pipeline fails: its layout, then the module and the set layout.
    let (mut build, _) = ComputeBuilder::new(device()).build();
    let _ = build.step(SUCCESS, 10);
    let _ = build.step(SUCCESS, 11);
    let _ = build.step(SUCCESS, 13);
    match build.step(-3, 0) {
        BuildStep::Done { result, releases } => {
            assert_eq!(result, Err(Error::Vulkan(-3)));
            assert_eq!(
                releases,
                vec![Release::PipelineLayout(13), Release::ShaderModule(11), Release::DescriptorSetLayout(10)]
            );
        }
        _ => panic!("expected a failure"),
    }

    // The descriptor pool comes back null: the pipeline, the module and the set layout.
    let (mut build, _) = ComputeBuilder::new(device()).build();
    let _ = build.step(SUCCESS, 10);
    let _ = build.step(SUCCESS, 11);
    let _ = build.step(SUCCESS, 13);
    let _ = build.step(SUCCESS, 14);
    match build.step(SUCCESS, 0) {
        BuildStep::Done { result, releases } => {
            assert_eq!(result, Err(Error::Vulkan(ERROR_UNKNOWN)));
            assert_eq!(
                releases,
                vec![Release::Pipeline(14), Release::ShaderModule(11), Release::DescriptorSetLayout(10)]
            );
        }
        _ => panic!("expected a failure"),
    }
}

#[test]
fn shader_builder_and_creation() {
    let b = ShaderBuilder::new(device(), SHADER_STAGE_COMPUTE)
        .binding(DescriptorType::StorageBuffer, 2)
        .flags(1)
        .entry("population_stats".to_string());
    assert_eq!(b.bindings().clone(), vec![LayoutBinding { binding: 0, ty: 7, count: 2, stages: SHADER_STAGE_COMPUTE }]);
    assert_eq!(ShaderBuilder::layout_created(SUCCESS, 4), Ok(4));
    assert_eq!(ShaderBuilder::layout_created(SUCCESS, 0), Err(Error::Vulkan(ERROR_UNKNOWN)));
    let shader = b.module_created(4, SUCCESS, 5).ok().unwrap();
    assert_eq!(shader.module(), 5);
    assert_eq!(shader.layout(), 4);
    assert_eq!(shader.device().id(), 77);
    let failed = ShaderBuilder::new(device(), SHADER_STAGE_COMPUTE).module_created(4, SUCCESS, 0);
    assert!(matches!(
        failed,
        Err((Error::Vulkan(ERROR_INITIALIZATION_FAILED), Release::DescriptorSetLayout(4)))
    ));
}

#[test]
fn descriptor_pool_and_sets() {
    let b = PoolBuilder::new(device(), 2).pool_size(DescriptorType::StorageBuffer, 4).flags(1);
    assert_eq!(b.pool_sizes().clone(), vec![PoolSize { ty: 7, count: 4 }]);
    let pool = b.build(SUCCESS, 30).ok().unwrap();
    assert_eq!(pool.id(), 30);
    assert!(DescriptorPool::new(SUCCESS, 0, device()).is_err());
    let sets = DescriptorSets::new(pool, SUCCESS, vec![31, 32]).ok().unwrap();
    assert_eq!(sets.len(), 2);
    assert_eq!(sets.ids_in(0, 2), vec![31, 32]);
    let set = sets.get(1).unwrap();
    assert_eq!(set.id(), 32);
    let write = set.write_descriptor(99);
    assert_eq!(
        write,
        WriteDescriptorSet { set: 32, binding: 0, ty: 7, count: 1, buffer: 99, offset: 0, range: WHOLE_SIZE }
    );
    let numbered = sets.update(&vec![write, write]);
    assert_eq!(numbered[0].binding, 0);
    assert_eq!(numbered[1].binding, 1);
    let pool = DescriptorPool::new(SUCCESS, 40, device()).ok().unwrap();
    match DescriptorSets::new(pool, SUCCESS, vec![1, 0]) {
        Err((Error::Vulkan(code), pool)) => {
            assert_eq!(code, ERROR_UNKNOWN);
            assert_eq!(pool.id(), 40);
        }
        Ok(_) => panic!("a null set must be refused"),
    }
}

#[test]
fn compute_command_records_binds_and_dispatch() {
    let pipeline = Pipeline::new(BuiltPipeline { pipeline: 14, layout: 13, pool: 15, set: 16 }, device());
    let cmd = ComputeCommand::new(3, &pipeline, Bound::Unbounded, Bound::Unbounded).ok().unwrap();
    let cmd = cmd.push_contant(16).dispatch(100, 1, 1);
    assert_eq!(cmd.buffer(), 3);
    let ops = cmd.ops();
    assert_eq!(ops.len(), 4);
    assert!(matches!(ops[0], ComputeOp::BindPipeline { pipeline: 14 }));
    match &ops[1] {
        ComputeOp::BindDescriptorSets { layout, first_set, sets } => {
            assert_eq!(*layout, 13);
            assert_eq!(*first_set, 0);
            assert_eq!(sets.clone(), vec![16]);
        }
        _ => panic!("expected the sets to be bound"),
    }
    assert!(matches!(ops[2], ComputeOp::PushConstants { layout: 13, stages: 32, offset: 0, size: 16 }));
    assert!(matches!(ops[3], ComputeOp::Dispatch { x: 100, y: 1, z: 1 }));
    let none = ComputeCommand::new(3, &pipeline, Bound::Included(1), Bound::Unbounded).ok().unwrap();
    match &none.ops()[1] {
        ComputeOp::BindDescriptorSets { first_set, sets, .. } => {
            assert_eq!(*first_set, 1);
            assert!(sets.is_empty());
        }
        _ => panic!("expected the sets to be bound"),
    }
}

#[test]
fn buffer_copy_regions() {
    let r = BufferCopyRegion::new(None, Bound::Included(2), Bound::Excluded(6));
    assert_eq!(r.src_offset, Bound::Included(2));
    // An included destination start begins after its element.
    assert_eq!(r.into_buffer_copy(4, 100), BufferCopy { src_offset: 8, dst_offset: 12, size: 12 });
    let r = BufferCopyRegion::new(Some(Bound::Excluded(0)), Bound::Excluded(1), Bound::Unbounded);
    assert_eq!(r.into_buffer_copy(4, 100), BufferCopy { src_offset: 4, dst_offset: 4, size: 96 });
    let r = BufferCopyRegion::new(Some(Bound::Unbounded), Bound::Unbounded, Bound::Included(3));
    assert_eq!(r.into_buffer_copy(8, 100), BufferCopy { src_offset: 0, dst_offset: 0, size: 32 });
}

#[test]
fn transfer_write_needs_whole_words() {
    let t = TransferCommand::new(5);
    let t = t.buffer_write(3, 70, 2, 4).ok().unwrap();
    let t = match t.buffer_write(3, 70, 1, 2) {
        Err(t) => t,
        Ok(_) => panic!("an offset of 2 bytes is not a whole word"),
    };
    let t = match t.buffer_write(3, 70, 4, 1) {
        Err(t) => t,
        Ok(_) => panic!("a size of 3 bytes is not a whole word"),
    };
    let t = t.buffer_copy(60, 70, 100, 4, &vec![BufferCopyRegion::new(None, Bound::Excluded(0), Bound::Excluded(5))]);
    assert_eq!(t.buffer(), 5);
    let ops = t.ops();
    assert_eq!(ops.len(), 2);
    assert!(matches!(ops[0], TransferOp::UpdateBuffer { dst: 70, offset: 8, size: 12 }));
    match &ops[1] {
        TransferOp::CopyBuffer { src, dst, regions } => {
            assert_eq!((*src, *dst), (60, 70));
            assert_eq!(regions.clone(), vec![BufferCopy { src_offset: 4, dst_offset: 0, size: 20 }]);
        }
        _ => panic!("expected a copy"),
    }
}

#[test]
fn buffer_sizes_bounds_and_descriptor() {
    assert_eq!(Buffer::<RawInfo>::byte_size(10, 12), 120);
    assert_eq!(Buffer::<RawInfo>::created(SUCCESS, 4), Ok(4));
    assert_eq!(Buffer::<RawInfo>::created(SUCCESS, 0), Err(Error::Vulkan(ERROR_INITIALIZATION_FAILED)));
    let memory = MemoryPtr::new(8, RawInfo { size: 120 });
    assert!(Buffer::new(4, MemoryPtr::new(8, RawInfo { size: 120 }), 120, 12, device(), -2).is_err());
    let buffer = Buffer::new(4, memory, 120, 12, device(), SUCCESS).ok().unwrap();
    assert_eq!(buffer.id(), 4);
    assert_eq!(buffer.size(), 120);
    assert_eq!(buffer.len(), 10);
    assert_eq!(buffer.memory().id(), 8);
    assert_eq!(buffer.descriptor(), DescriptorBufferInfo { buffer: 4, offset: 0, range: WHOLE_SIZE });
    assert_eq!(buffer.map_bounds(Bound::Included(2), Bound::Unbounded), (Bound::Included(24), Bound::Excluded(120)));
    assert_eq!(buffer.map_bounds(Bound::Unbounded, Bound::Excluded(3)), (Bound::Unbounded, Bound::Excluded(36)));
    assert_eq!(buffer.mapped_len(40), 3);
    let bytes = buffer.transmute(1);
    assert_eq!(bytes.len(), 120);
    let (id, memory) = bytes.into_parts();
    assert_eq!((id, memory.id()), (4, 8));
}

#[test]
fn transfer_write_at_most_one_update_size() {
    let t = TransferCommand::new(5);
    let t = t.buffer_write(65536, 70, 0, 1).ok().unwrap();
    let t = match t.buffer_write(65540, 70, 0, 1) {
        Err(t) => t,
        Ok(_) => panic!("65540 bytes is more than one update may write"),
    };
    assert_eq!(t.ops().len(), 1);
}
