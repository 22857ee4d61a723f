//! The BLAS/TLAS build pipeline against the host device model.

use tracer_render::accel::{
    AccelerationStructureGeometryInfo, AccelerationStructureInstance, BlasInput,
    INSTANCE_RECORD_SIZE,
};
use tracer_render::buffer::BufferInfo;
use tracer_render::builder::RaytracingBuilder;
use tracer_render::commands::{BuildMode, Command};
use tracer_render::device::Device;
use tracer_render::error::RenderError;
use tracer_render::flags;
use tracer_render::resource::BufferResource;
use tracer_render::vertex::Vertex;

fn upload_bytes(device: &mut Device, bytes: &[u8], usage: u32) -> BufferResource {
    let info = BufferInfo {
        align: 255,
        size: bytes.len() as u64,
        usage_flags: usage | flags::BUFFER_USAGE_SHADER_DEVICE_ADDRESS,
        allocation_flags: flags::MEMORY_USAGE_DEVICE_ADDRESS | flags::MEMORY_USAGE_HOST_ACCESS,
    };
    let mut buffer = device.create_buffer(info).unwrap();
    buffer.store(bytes).unwrap();
    buffer
}

fn triangle_vertices() -> Vec<Vertex> {
    vec![
        Vertex { position: [0, 0, 0] },
        Vertex { position: [0x3f800000, 0, 0] },
        Vertex { position: [0, 0x3f800000, 0] },
    ]
}

fn build_one_triangle_blas(device: &mut Device, builder: &mut RaytracingBuilder) {
    let vertices = triangle_vertices();
    let vertex_bytes = vec![0u8; 36];
    let vertex_buffer = upload_bytes(device, &vertex_bytes, flags::BUFFER_USAGE_VERTEX_BUFFER);
    let indices: [u16; 3] = [0, 1, 2];
    let index_bytes = vec![0u8, 0, 1, 0, 2, 0];
    let index_buffer = upload_bytes(device, &index_bytes, flags::BUFFER_USAGE_INDEX_BUFFER);
    let input = BlasInput::new(&vertices, &vertex_buffer, &indices, &index_buffer);
    builder
        .build_blas(device, vec![input], flags::BUILD_PREFER_FAST_TRACE)
        .unwrap();
}

#[test]
fn single_triangle_blas_matches_the_size_query() {
    let mut device = Device::new();
    let mut builder = RaytracingBuilder::new(0);
    build_one_triangle_blas(&mut device, &mut builder);

    assert_eq!(builder.blas_container.len(), 1);
    let entry = &builder.blas_container[0];
    let accel = entry.acceleration_structure.as_ref().unwrap();
    assert_ne!(accel.handle, 0);
    assert_ne!(accel.address.0, 0);

    // the storage buffer is sized exactly as the query for the same geometry
    let sizing = [AccelerationStructureGeometryInfo::Triangles {
        max_primitive_count: 1,
        max_vertex_count: 3,
        vertex_format: flags::FORMAT_R32G32B32_SFLOAT,
        index_type: flags::INDEX_TYPE_UINT16,
    }];
    let sizes = device.get_acceleration_structure_build_sizes(
        tracer_render::accel::AccelerationStructureLevel::Bottom,
        flags::BUILD_PREFER_FAST_TRACE,
        &sizing,
    );
    assert_eq!(accel.buffer.info.size, sizes.acceleration_structure_size);
}

#[test]
fn blas_batch_records_build_then_barrier_and_waits() {
    let mut device = Device::new();
    let mut builder = RaytracingBuilder::new(3);
    build_one_triangle_blas(&mut device, &mut builder);

    assert_eq!(device.submissions.len(), 1);
    assert_eq!(device.completed, 1);
    let batch = &device.submissions[0];
    assert_eq!(batch.queue_family_index, 3);
    assert_eq!(batch.buffers.len(), 1);
    let commands = &batch.buffers[0].commands;
    assert_eq!(commands.len(), 2);
    match &commands[0] {
        Command::BuildAccelerationStructures(build) => {
            assert!(matches!(build.mode, BuildMode::Build));
            assert_eq!(build.src, 0);
            assert_eq!(
                build.dst,
                builder.blas_container[0].acceleration_structure.as_ref().unwrap().handle
            );
            assert_eq!(build.ranges[0].primitive_count, 1);
        }
        other => panic!("expected a build command, found {:?}", other),
    }
    match &commands[1] {
        Command::PipelineBarrier { src_stage, dst_stage, src_access, dst_access } => {
            assert_eq!(*src_stage, flags::STAGE_ACCELERATION_STRUCTURE_BUILD);
            assert_eq!(*dst_stage, flags::STAGE_ACCELERATION_STRUCTURE_BUILD);
            assert_eq!(*src_access, flags::ACCESS_ACCELERATION_STRUCTURE_WRITE);
            assert_eq!(*dst_access, flags::ACCESS_ACCELERATION_STRUCTURE_READ);
        }
        other => panic!("expected a barrier, found {:?}", other),
    }
    // the transient pool and the scratch buffer are gone again
    assert_eq!(device.command_pools.count(), 0);
}

#[test]
fn second_blas_batch_is_rejected() {
    let mut device = Device::new();
    let mut builder = RaytracingBuilder::new(0);
    build_one_triangle_blas(&mut device, &mut builder);
    let submissions = device.submissions.len();
    let result = builder.build_blas(&mut device, vec![], 0);
    assert_eq!(result, Err(RenderError::AlreadyBuilt));
    assert_eq!(device.submissions.len(), submissions);
    assert_eq!(builder.blas_container.len(), 1);
}

#[test]
fn tlas_build_produces_a_stable_nonzero_address() {
    let mut device = Device::new();
    let mut builder = RaytracingBuilder::new(0);
    build_one_triangle_blas(&mut device, &mut builder);

    let instance = AccelerationStructureInstance::new(0);
    builder
        .build_tlas(&mut device, vec![instance], flags::BUILD_PREFER_FAST_TRACE, false)
        .unwrap();

    let tlas = builder.tlas.acceleration_structure.as_ref().unwrap();
    assert_ne!(tlas.address.0, 0);
    let first = tlas.address;
    let second = builder.tlas.acceleration_structure.as_ref().unwrap().address;
    assert_eq!(first, second);
    // the instance buffer holds one encoded record
    let ib = builder.tlas.instances_buffer.as_ref().unwrap();
    assert_eq!(ib.info.size, INSTANCE_RECORD_SIZE);
    assert_eq!(ib.bytes.len() as u64, INSTANCE_RECORD_SIZE);
}

#[test]
fn tlas_batch_records_barrier_then_update_mode_build() {
    let mut device = Device::new();
    let mut builder = RaytracingBuilder::new(0);
    build_one_triangle_blas(&mut device, &mut builder);
    let instance = AccelerationStructureInstance::new(0);
    builder.build_tlas(&mut device, vec![instance], 0, false).unwrap();
    builder
        .build_tlas(&mut device, vec![AccelerationStructureInstance::new(0)], 0, true)
        .unwrap();

    let batch = device.submissions.last().unwrap();
    assert_eq!(batch.buffers.len(), 1);
    let commands = &batch.buffers[0].commands;
    assert_eq!(commands.len(), 2);
    match &commands[0] {
        Command::PipelineBarrier { src_stage, dst_stage, src_access, dst_access } => {
            assert_eq!(*src_stage, flags::STAGE_TRANSFER);
            assert_eq!(*dst_stage, flags::STAGE_ACCELERATION_STRUCTURE_BUILD);
            assert_eq!(*src_access, flags::ACCESS_TRANSFER_WRITE);
            assert_eq!(*dst_access, flags::ACCESS_ACCELERATION_STRUCTURE_WRITE);
        }
        other => panic!("expected a barrier, found {:?}", other),
    }
    match &commands[1] {
        Command::BuildAccelerationStructures(build) => {
            assert!(matches!(build.mode, BuildMode::Update));
            let handle = builder.tlas.acceleration_structure.as_ref().unwrap().handle;
            assert_eq!(build.src, handle);
            assert_eq!(build.dst, handle);
        }
        other => panic!("expected a build command, found {:?}", other),
    }
}

#[test]
fn second_fresh_tlas_build_is_rejected_and_update_replaces_the_instance_buffer() {
    let mut device = Device::new();
    let mut builder = RaytracingBuilder::new(0);
    build_one_triangle_blas(&mut device, &mut builder);
    let instance = AccelerationStructureInstance::new(0);
    builder.build_tlas(&mut device, vec![instance], 0, false).unwrap();

    // a second fresh build fails with AlreadyBuilt and changes nothing
    let live_before = device.allocator.live_count();
    let result = builder.build_tlas(&mut device, vec![instance], 0, false);
    assert_eq!(result, Err(RenderError::AlreadyBuilt));
    assert_eq!(device.allocator.live_count(), live_before);

    // an update succeeds and destroys the previous instance buffer exactly once
    let old_block_id = builder.tlas.instances_buffer.as_ref().unwrap().block.id;
    builder.build_tlas(&mut device, vec![instance], 0, true).unwrap();
    assert!(device.allocator.live.iter().all(|b| b.id != old_block_id));
    let new_block_id = builder.tlas.instances_buffer.as_ref().unwrap().block.id;
    assert_ne!(new_block_id, old_block_id);
    // no leak: one block died, one was born
    assert_eq!(device.allocator.live_count(), live_before);
}

#[test]
fn update_without_a_tlas_is_rejected() {
    let mut device = Device::new();
    let mut builder = RaytracingBuilder::new(0);
    build_one_triangle_blas(&mut device, &mut builder);
    let result = builder.build_tlas(&mut device, vec![], 0, true);
    assert_eq!(result, Err(RenderError::NotBuilt));
}

#[test]
fn out_of_range_blas_id_fails_before_any_device_call() {
    let mut device = Device::new();
    let mut builder = RaytracingBuilder::new(0);
    build_one_triangle_blas(&mut device, &mut builder);

    let submissions = device.submissions.len();
    let buffers = device.buffers.live.len();
    let structures = device.acceleration_structures.live.len();
    let blocks = device.allocator.live_count();

    let stray = AccelerationStructureInstance::new(1);
    let result = builder.build_tlas(&mut device, vec![stray], 0, false);
    assert_eq!(result, Err(RenderError::BlasIdOutOfRange));

    // zero device calls: no submission, no handle, no allocation
    assert_eq!(device.submissions.len(), submissions);
    assert_eq!(device.buffers.live.len(), buffers);
    assert_eq!(device.acceleration_structures.live.len(), structures);
    assert_eq!(device.allocator.live_count(), blocks);
    assert!(builder.tlas.acceleration_structure.is_none());
}

#[test]
fn empty_instance_list_builds_an_empty_tlas() {
    let mut device = Device::new();
    let mut builder = RaytracingBuilder::new(0);
    build_one_triangle_blas(&mut device, &mut builder);
    builder.build_tlas(&mut device, vec![], 0, false).unwrap();
    let ib = builder.tlas.instances_buffer.as_ref().unwrap();
    assert_eq!(ib.info.size, 0);
    assert_eq!(ib.bytes.len(), 0);
}

#[test]
fn builder_teardown_releases_every_owned_block() {
    let mut device = Device::new();
    let mut builder = RaytracingBuilder::new(0);
    build_one_triangle_blas(&mut device, &mut builder);
    builder
        .build_tlas(&mut device, vec![AccelerationStructureInstance::new(0)], 0, false)
        .unwrap();
    // vertex + index uploads stay with the caller; the builder owns the rest
    let blas_block = builder.blas_container[0]
        .acceleration_structure
        .as_ref()
        .unwrap()
        .buffer
        .block
        .id;
    let live_before = device.allocator.live_count();
    builder.destroy(&mut device);
    assert_eq!(device.allocator.live_count(), live_before - 3);
    assert!(device.allocator.live.iter().all(|b| b.id != blas_block));
}

#[test]
fn multi_entry_batch_shares_one_scratch_address() {
    let mut device = Device::new();
    let mut builder = RaytracingBuilder::new(0);

    let vertices = triangle_vertices();
    let vertex_buffer = upload_bytes(&mut device, &vec![0u8; 36], flags::BUFFER_USAGE_VERTEX_BUFFER);
    let index_buffer = upload_bytes(&mut device, &vec![0u8; 6], flags::BUFFER_USAGE_INDEX_BUFFER);
    let indices: [u16; 3] = [0, 1, 2];
    let small = BlasInput::new(&vertices, &vertex_buffer, &indices, &index_buffer);
    let large_indices: Vec<u16> = (0..30u16).map(|i| i % 3).collect();
    let large = BlasInput::new(&vertices, &vertex_buffer, &large_indices, &index_buffer);

    builder
        .build_blas(&mut device, vec![small, large], 0)
        .unwrap();
    assert_eq!(builder.blas_container.len(), 2);

    let batch = device.submissions.last().unwrap();
    assert_eq!(batch.buffers.len(), 2);
    let scratch_of = |k: usize| match &batch.buffers[k].commands[0] {
        Command::BuildAccelerationStructures(build) => build.scratch,
        other => panic!("expected a build command, found {:?}", other),
    };
    assert_eq!(scratch_of(0), scratch_of(1));
    // each entry is sized by its own geometry
    let size_of = |k: usize| {
        builder.blas_container[k]
            .acceleration_structure
            .as_ref()
            .unwrap()
            .buffer
            .info
            .size
    };
    assert!(size_of(1) > size_of(0));
}

#[test]
fn resolve_distinguishes_out_of_range_from_unbuilt() {
    let mut device = Device::new();
    let vertices = triangle_vertices();
    let vertex_buffer = upload_bytes(&mut device, &vec![0u8; 36], flags::BUFFER_USAGE_VERTEX_BUFFER);
    let index_buffer = upload_bytes(&mut device, &vec![0u8; 6], flags::BUFFER_USAGE_INDEX_BUFFER);
    let indices: [u16; 3] = [0, 1, 2];
    let input = BlasInput::new(&vertices, &vertex_buffer, &indices, &index_buffer);
    let container = vec![tracer_render::accel::BlasEntry::new(input)];

    let in_range = AccelerationStructureInstance::new(0);
    assert_eq!(in_range.resolve(&container).err(), Some(RenderError::BlasNotBuilt));
    let past_the_end = AccelerationStructureInstance::new(1);
    assert_eq!(past_the_end.resolve(&container).err(), Some(RenderError::BlasIdOutOfRange));
}

#[test]
fn blas_batch_creates_storage_per_entry_and_one_max_sized_scratch() {
    let mut device = Device::new();
    let mut builder = RaytracingBuilder::new(0);

    let vertices = triangle_vertices();
    let vertex_buffer = upload_bytes(&mut device, &vec![0u8; 36], flags::BUFFER_USAGE_VERTEX_BUFFER);
    let index_buffer = upload_bytes(&mut device, &vec![0u8; 6], flags::BUFFER_USAGE_INDEX_BUFFER);
    let small_indices: [u16; 3] = [0, 1, 2];
    let large_indices: Vec<u16> = (0..30u16).map(|i| i % 3).collect();
    let small = BlasInput::new(&vertices, &vertex_buffer, &small_indices, &index_buffer);
    let large = BlasInput::new(&vertices, &vertex_buffer, &large_indices, &index_buffer);

    let created_before = device.created_buffers.len();
    builder.build_blas(&mut device, vec![small, large], 0).unwrap();

    // one storage buffer per entry, then exactly one scratch buffer
    assert_eq!(device.created_buffers.len(), created_before + 3);
    let storage_small = &device.created_buffers[created_before];
    let storage_large = &device.created_buffers[created_before + 1];
    let scratch = &device.created_buffers[created_before + 2];
    let size_of = |k: usize| {
        builder.blas_container[k]
            .acceleration_structure
            .as_ref()
            .unwrap()
            .buffer
            .info
            .size
    };
    assert_eq!(storage_small.size, size_of(0));
    assert_eq!(storage_large.size, size_of(1));

    // the scratch is sized to the larger of the two build-scratch queries
    let query = |prims: u32| {
        let sizing = [AccelerationStructureGeometryInfo::Triangles {
            max_primitive_count: prims,
            max_vertex_count: 3,
            vertex_format: flags::FORMAT_R32G32B32_SFLOAT,
            index_type: flags::INDEX_TYPE_UINT16,
        }];
        device
            .get_acceleration_structure_build_sizes(
                tracer_render::accel::AccelerationStructureLevel::Bottom,
                0,
                &sizing,
            )
            .build_scratch_size
    };
    assert_eq!(scratch.size, query(1).max(query(10)));
}

#[test]
fn tlas_build_logs_instance_storage_and_query_sized_scratch() {
    let mut device = Device::new();
    let mut builder = RaytracingBuilder::new(0);
    build_one_triangle_blas(&mut device, &mut builder);

    let sizing = [AccelerationStructureGeometryInfo::Instances { max_primitive_count: 1 }];
    let sizes = device.get_acceleration_structure_build_sizes(
        tracer_render::accel::AccelerationStructureLevel::Top,
        0,
        &sizing,
    );

    let created_before = device.created_buffers.len();
    let instance = AccelerationStructureInstance::new(0);
    builder.build_tlas(&mut device, vec![instance], 0, false).unwrap();
    // instance records, structure storage, then build-sized scratch
    assert_eq!(device.created_buffers.len(), created_before + 3);
    assert_eq!(device.created_buffers[created_before].size, INSTANCE_RECORD_SIZE);
    assert_eq!(
        device.created_buffers[created_before + 1].size,
        sizes.acceleration_structure_size
    );
    assert_eq!(device.created_buffers[created_before + 2].size, sizes.build_scratch_size);

    // an update uploads new records and takes update-sized scratch instead
    let updated_before = device.created_buffers.len();
    builder
        .build_tlas(&mut device, vec![AccelerationStructureInstance::new(0)], 0, true)
        .unwrap();
    assert_eq!(device.created_buffers.len(), updated_before + 2);
    assert_eq!(device.created_buffers[updated_before].size, INSTANCE_RECORD_SIZE);
    assert_eq!(device.created_buffers[updated_before + 1].size, sizes.update_scratch_size);
}
