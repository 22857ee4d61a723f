//! The device: shader modules, size queries, descriptor creation, teardown.

use tracer_render::accel::AccelerationStructureGeometryInfo;
use tracer_render::accel::AccelerationStructureLevel;
use tracer_render::commands::{CommandBufferLevel, CommandPool};
use tracer_render::descriptor::{
    DescriptorSetInfo, DescriptorSetLayoutBinding, DescriptorSetLayoutInfo, DescriptorType,
    DESCRIPTOR_POOL_UPDATE_AFTER_BIND, DESCRIPTOR_SET_LAYOUT_UPDATE_AFTER_BIND_POOL,
};
use tracer_render::device::Device;
use tracer_render::error::RenderError;
use tracer_render::flags;
use tracer_render::shader::{ShaderLanguage, ShaderModuleInfo};

fn spirv_blob() -> Vec<u8> {
    // magic word first, then one more word
    vec![0x03, 0x02, 0x23, 0x07, 0x01, 0x00, 0x00, 0x00]
}

#[test]
fn valid_spirv_compiles_to_a_module() {
    let mut device = Device::new();
    let info = ShaderModuleInfo::new(spirv_blob(), ShaderLanguage::SPIRV);
    let module = device.create_shader_module(info).unwrap();
    assert_ne!(module.handle(), 0);
    assert_eq!(device.shader_modules.count(), 1);
}

#[test]
fn glsl_is_rejected_as_unsupported() {
    let mut device = Device::new();
    let info = ShaderModuleInfo::new(spirv_blob(), ShaderLanguage::GLSL);
    assert_eq!(
        device.create_shader_module(info).err(),
        Some(RenderError::UnsupportedShaderLanguage)
    );
}

#[test]
fn malformed_spirv_is_rejected() {
    let mut device = Device::new();
    // wrong magic
    let bad_magic = ShaderModuleInfo::new(vec![0, 0, 0, 0], ShaderLanguage::SPIRV);
    assert_eq!(
        device.create_shader_module(bad_magic).err(),
        Some(RenderError::InvalidShaderCode)
    );
    // not whole words
    let ragged = ShaderModuleInfo::new(vec![0x03, 0x02, 0x23, 0x07, 1], ShaderLanguage::SPIRV);
    assert_eq!(device.create_shader_module(ragged).err(), Some(RenderError::InvalidShaderCode));
    // empty
    let empty = ShaderModuleInfo::new(vec![], ShaderLanguage::SPIRV);
    assert_eq!(device.create_shader_module(empty).err(), Some(RenderError::InvalidShaderCode));
    assert_eq!(device.shader_modules.count(), 0);
}

#[test]
fn build_sizes_are_deterministic_and_grow_with_the_geometry() {
    let device = Device::new();
    let small = [AccelerationStructureGeometryInfo::Instances { max_primitive_count: 1 }];
    let large = [AccelerationStructureGeometryInfo::Instances { max_primitive_count: 100 }];
    let a = device.get_acceleration_structure_build_sizes(AccelerationStructureLevel::Top, 0, &small);
    let b = device.get_acceleration_structure_build_sizes(AccelerationStructureLevel::Top, 0, &small);
    let c = device.get_acceleration_structure_build_sizes(AccelerationStructureLevel::Top, 0, &large);
    assert_eq!(a, b);
    assert!(c.acceleration_structure_size > a.acceleration_structure_size);
    assert!(c.build_scratch_size > a.build_scratch_size);
    assert!(a.acceleration_structure_size > 0);
}

#[test]
fn descriptor_set_pool_follows_the_layout_flags() {
    let mut device = Device::new();
    let bindings = vec![DescriptorSetLayoutBinding {
        binding: 0,
        descriptor_type: DescriptorType::AccelerationStructure,
        count: 1,
        stages: 0,
        flags: 0,
    }];
    let layout = device.create_descriptor_set_layout(DescriptorSetLayoutInfo {
        bindings,
        flags: DESCRIPTOR_SET_LAYOUT_UPDATE_AFTER_BIND_POOL,
    });
    assert_ne!(layout.handle, 0);
    assert_eq!(layout.sizes.count(), 1);
    let set = device.create_descriptor_set(DescriptorSetInfo { layout });
    assert_eq!(set.pool_flags, DESCRIPTOR_POOL_UPDATE_AFTER_BIND);
    assert_eq!(device.descriptor_pools.count(), 1);

    let plain_layout = device.create_descriptor_set_layout(DescriptorSetLayoutInfo {
        bindings: Vec::new(),
        flags: 0,
    });
    let plain_set = device.create_descriptor_set(DescriptorSetInfo { layout: plain_layout });
    assert_eq!(plain_set.pool_flags, 0);
}

#[test]
fn cleanup_destroys_every_live_handle() {
    let mut device = Device::new();
    let info = tracer_render::buffer::BufferInfo {
        align: 255,
        size: 32,
        usage_flags: flags::BUFFER_USAGE_TRANSFER_DST,
        allocation_flags: flags::MEMORY_USAGE_HOST_ACCESS,
    };
    let _buffer = device.create_buffer(info).unwrap();
    let module_info = ShaderModuleInfo::new(spirv_blob(), ShaderLanguage::SPIRV);
    let _module = device.create_shader_module(module_info).unwrap();
    assert_eq!(device.buffers.count(), 1);
    assert_eq!(device.shader_modules.count(), 1);
    device.cleanup();
    assert_eq!(device.buffers.count(), 0);
    assert_eq!(device.shader_modules.count(), 0);
    assert_eq!(device.allocator.live_count(), 0);
    assert_eq!(device.completed, device.submissions.len());
}

#[test]
fn buffer_with_data_lands_in_upload_memory_holding_the_bytes() {
    let mut device = Device::new();
    let info = tracer_render::buffer::BufferInfo {
        align: 255,
        size: 8,
        usage_flags: flags::BUFFER_USAGE_VERTEX_BUFFER,
        allocation_flags: flags::MEMORY_USAGE_FAST_DEVICE_ACCESS,
    };
    let data = [9u8, 8, 7, 6];
    let buffer = device.create_buffer_with_data(info, &data).unwrap();
    assert_eq!(buffer.info.allocation_flags, flags::MEMORY_USAGE_UPLOAD);
    assert!(buffer.block.host_visible);
    assert_eq!(buffer.read_back().unwrap(), data);
    let too_big = [0u8; 9];
    assert_eq!(
        device.create_buffer_with_data(info, &too_big).err(),
        Some(RenderError::StoreTooLarge)
    );
}

#[test]
fn memory_requirements_sum_the_size_queries() {
    let device = Device::new();
    let one = [AccelerationStructureGeometryInfo::Instances { max_primitive_count: 2 }];
    let two = [AccelerationStructureGeometryInfo::Instances { max_primitive_count: 7 }];
    let a = device.get_acceleration_structure_build_sizes(AccelerationStructureLevel::Top, 0, &one);
    let b = device.get_acceleration_structure_build_sizes(AccelerationStructureLevel::Top, 0, &two);
    let total = tracer_render::accel::get_memory_requirements(&[a, b]);
    assert_eq!(
        total.acceleration_structure_size,
        a.acceleration_structure_size + b.acceleration_structure_size
    );
    assert_eq!(total.build_scratch_size, a.build_scratch_size + b.build_scratch_size);
    assert_eq!(total.update_scratch_size, a.update_scratch_size + b.update_scratch_size);
}

#[test]
fn submit_without_wait_leaves_the_queue_busy() {
    let mut device = Device::new();
    let mut pool = CommandPool::new(&mut device, 2, flags::COMMAND_POOL_TRANSIENT);
    let mut buffers = pool.create_command_buffers(CommandBufferLevel::Primary, 2);
    for cb in buffers.iter_mut() {
        cb.begin();
    }
    pool.submit(&mut device, buffers);
    assert_eq!(device.submissions.len(), 1);
    assert_eq!(device.submissions[0].queue_family_index, 2);
    assert_eq!(device.submissions[0].buffers.len(), 2);
    assert_eq!(device.completed, 0);
    device.wait_idle();
    assert_eq!(device.completed, 1);
    pool.destroy(&mut device);
    assert_eq!(device.command_pools.count(), 0);
}

#[test]
fn command_buffers_from_one_pool_are_distinct() {
    let mut device = Device::new();
    let mut pool = CommandPool::new(&mut device, 0, flags::COMMAND_POOL_TRANSIENT);
    let buffers = pool.create_command_buffers(CommandBufferLevel::Primary, 4);
    assert_eq!(buffers.len(), 4);
    for i in 0..buffers.len() {
        for j in 0..buffers.len() {
            if i != j {
                assert_ne!(buffers[i].handle, buffers[j].handle);
            }
        }
    }
    let more = pool.create_command_buffers(CommandBufferLevel::Primary, 2);
    assert_ne!(more[0].handle, buffers[3].handle);
}
