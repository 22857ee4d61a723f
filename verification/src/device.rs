//! The device: the central owner of native handles, the memory allocator,
//! and the log of submitted command batches.
//!
//! Handles live in registries (arena + index); device addresses are opaque
//! non-zero tokens; the build-size query is a deterministic worst-case sizing
//! model. The submission log and the `completed` watermark let contracts say
//! exactly which device work an operation performed — and that a rejected
//! operation performed none.

use vstd::prelude::*;

use crate::accel::{
    AccelerationStructure, AccelerationStructureBuildSizesInfo, AccelerationStructureGeometryInfo,
    AccelerationStructureInfo, AccelerationStructureLevel,
};
use crate::address::DeviceAddress;
use crate::buffer::{align_up, lemma_align_up_bounds, spec_align_up, BufferInfo};
use crate::commands::CommandBuffer;
use crate::error::RenderError;
use crate::flags;
use crate::image::{spec_image_memory_usage, get_allocator_memory_usage, Image, ImageInfo};
use crate::memory::{
    spec_has_compatible_type, MemoryAllocator, MemoryBlock, MemoryRequest, MemoryType,
};
use crate::registry::HandleRegistry;
use crate::resource::BufferResource;
use crate::shader::{is_valid_spirv, spec_valid_spirv, ShaderLanguage, ShaderModule, ShaderModuleInfo};

verus! {

/// One batch of command buffers handed to a queue in a single submission.
#[derive(Clone, Debug)]
pub struct SubmittedBatch {
    /// The queue family the batch was submitted to.
    pub queue_family_index: u32,
    /// The command buffers of the batch, in submission order.
    pub buffers: Vec<CommandBuffer>,
}

/// Saturating 64-bit addition.
pub open spec fn spec_sat_add(a: u64, b: u64) -> u64 {
    if a + b > u64::MAX {
        u64::MAX
    } else {
        (a + b) as u64
    }
}

/// Executable twin of `spec_sat_add`.
pub fn sat_add(a: u64, b: u64) -> (r: u64)
    ensures
        r == spec_sat_add(a, b),
{
    if a > u64::MAX - b {
        u64::MAX
    } else {
        a + b
    }
}

/// Saturating 64-bit multiplication.
pub open spec fn spec_sat_mul(a: u64, b: u64) -> u64 {
    if a * b > u64::MAX {
        u64::MAX
    } else {
        (a * b) as u64
    }
}

/// Executable twin of `spec_sat_mul`.
pub fn sat_mul(a: u64, b: u64) -> (r: u64)
    ensures
        r == spec_sat_mul(a, b),
{
    match a.checked_mul(b) {
        Some(v) => v,
        None => u64::MAX,
    }
}

/// Structure-storage bytes one geometry contributes to the sizing model.
pub open spec fn spec_geometry_structure_size(g: AccelerationStructureGeometryInfo) -> u64 {
    match g {
        AccelerationStructureGeometryInfo::Triangles { max_primitive_count, .. } => (128
            * max_primitive_count) as u64,
        AccelerationStructureGeometryInfo::Instances { max_primitive_count } => (64
            * max_primitive_count) as u64,
    }
}

/// Build-scratch bytes one geometry contributes to the sizing model.
pub open spec fn spec_geometry_build_scratch(g: AccelerationStructureGeometryInfo) -> u64 {
    match g {
        AccelerationStructureGeometryInfo::Triangles { max_primitive_count, .. } => (64
            * max_primitive_count) as u64,
        AccelerationStructureGeometryInfo::Instances { max_primitive_count } => (32
            * max_primitive_count) as u64,
    }
}

/// Update-scratch bytes one geometry contributes to the sizing model.
pub open spec fn spec_geometry_update_scratch(g: AccelerationStructureGeometryInfo) -> u64 {
    match g {
        AccelerationStructureGeometryInfo::Triangles { max_primitive_count, .. } => (32
            * max_primitive_count) as u64,
        AccelerationStructureGeometryInfo::Instances { max_primitive_count } => (16
            * max_primitive_count) as u64,
    }
}

/// The sizing model of the build-size query: a fixed header plus a
/// per-geometry contribution proportional to the worst-case primitive count,
/// saturating at the address-space limit. Deterministic in the geometry
/// description alone, as the query contract demands.
pub open spec fn spec_build_sizes(
    geometry: Seq<AccelerationStructureGeometryInfo>,
) -> AccelerationStructureBuildSizesInfo
    decreases geometry.len(),
{
    if geometry.len() == 0 {
        AccelerationStructureBuildSizesInfo {
            acceleration_structure_size: 256,
            update_scratch_size: 64,
            build_scratch_size: 64,
        }
    } else {
        let rest = spec_build_sizes(geometry.drop_last());
        let g = geometry.last();
        AccelerationStructureBuildSizesInfo {
            acceleration_structure_size: spec_sat_add(
                rest.acceleration_structure_size,
                spec_geometry_structure_size(g),
            ),
            update_scratch_size: spec_sat_add(
                rest.update_scratch_size,
                spec_geometry_update_scratch(g),
            ),
            build_scratch_size: spec_sat_add(
                rest.build_scratch_size,
                spec_geometry_build_scratch(g),
            ),
        }
    }
}

/// The device: registries of native handles, the memory allocator, a device
/// address counter, and the log of submitted command batches with the
/// watermark of how many have completed.
pub struct Device {
    /// The memory allocator.
    pub allocator: MemoryAllocator,
    /// Registry of buffer handles.
    pub buffers: HandleRegistry,
    /// Registry of acceleration-structure handles.
    pub acceleration_structures: HandleRegistry,
    /// Registry of image handles.
    pub images: HandleRegistry,
    /// Registry of command-pool handles.
    pub command_pools: HandleRegistry,
    /// Registry of descriptor-set-layout handles.
    pub descriptor_set_layouts: HandleRegistry,
    /// Registry of descriptor-pool handles.
    pub descriptor_pools: HandleRegistry,
    /// Registry of shader-module handles.
    pub shader_modules: HandleRegistry,
    /// Next device address to hand out; never zero.
    pub next_address: u64,
    /// The descriptions of every buffer created so far, in creation order.
    pub created_buffers: Vec<BufferInfo>,
    /// Every batch submitted so far, in order.
    pub submissions: Vec<SubmittedBatch>,
    /// Batches with index below this have completed on the device.
    pub completed: usize,
}

impl Device {
    /// The device's invariant.
    pub open spec fn wf(self) -> bool {
        &&& self.allocator.wf()
        &&& self.next_address >= 1
        &&& self.completed <= self.submissions@.len()
    }

    /// The memory request `create_buffer` derives from a buffer description:
    /// the size rounded up under the alignment mask, any memory type.
    pub open spec fn spec_buffer_request(info: BufferInfo) -> MemoryRequest {
        MemoryRequest {
            size: spec_align_up(info.align, info.size),
            align_mask: info.align,
            usage: info.allocation_flags,
            memory_types: 0xffffffffu32,
        }
    }

    /// Everything `create_buffer` needs to succeed: a valid description, a
    /// compatible memory type, and no exhausted counter.
    pub open spec fn spec_can_create_buffer(self, info: BufferInfo) -> bool {
        &&& info.spec_valid()
        &&& spec_has_compatible_type(self.allocator.types@, Self::spec_buffer_request(info))
        &&& self.allocator.next_block_id < u64::MAX
        &&& self.allocator.next_memory_handle < u64::MAX
        &&& self.next_address < u64::MAX
        &&& self.buffers.live@.len() < usize::MAX
    }

    /// A fresh device with two memory types: device-local, and host-visible.
    pub fn new() -> (r: Device)
        ensures
            r.wf(),
            r.allocator.types@.len() == 2,
            r.allocator.types@[0] == (MemoryType { host_visible: false, device_local: true }),
            r.allocator.types@[1] == (MemoryType { host_visible: true, device_local: false }),
            r.allocator.live@.len() == 0,
            r.buffers.live@.len() == 0,
            r.acceleration_structures.live@.len() == 0,
            r.images.live@.len() == 0,
            r.command_pools.live@.len() == 0,
            r.descriptor_set_layouts.live@.len() == 0,
            r.descriptor_pools.live@.len() == 0,
            r.shader_modules.live@.len() == 0,
            r.submissions@.len() == 0,
            r.completed == 0,
            r.created_buffers@.len() == 0,
    {
        let mut types: Vec<MemoryType> = Vec::new();
        types.push(MemoryType { host_visible: false, device_local: true });
        types.push(MemoryType { host_visible: true, device_local: false });
        Device {
            allocator: MemoryAllocator::new(types),
            buffers: HandleRegistry::new(),
            acceleration_structures: HandleRegistry::new(),
            images: HandleRegistry::new(),
            command_pools: HandleRegistry::new(),
            descriptor_set_layouts: HandleRegistry::new(),
            descriptor_pools: HandleRegistry::new(),
            shader_modules: HandleRegistry::new(),
            next_address: 4096,
            created_buffers: Vec::new(),
            submissions: Vec::new(),
            completed: 0,
        }
    }

    /// Blocks until the queue is idle: every submitted batch has completed.
    pub fn wait_idle(&mut self)
        ensures
            *final(self) == (Device { completed: final(self).completed, ..*old(self) }),
            final(self).completed == final(self).submissions@.len(),
    {
        self.completed = self.submissions.len();
    }

    /// Creates a buffer of exactly `info.size` bytes: rejects an invalid
    /// description before any device work, binds a fresh memory block sized
    /// and aligned to the (rounded-up) requirements, and assigns a device
    /// address exactly when the allocation asks for one. All-or-nothing: on
    /// failure no handle and no block stays live, and the device is unchanged.
    pub fn create_buffer(&mut self, info: BufferInfo) -> (r: Result<BufferResource, RenderError>)
        requires
            old(self).wf(),
        ensures
            final(self).wf(),
            (r is Ok) == old(self).spec_can_create_buffer(info),
            (r == Err::<BufferResource, RenderError>(RenderError::InvalidBufferInfo)) <==> !info.spec_valid(),
            r is Err ==> *final(self) == *old(self) && (r == Err::<BufferResource, RenderError>(
                RenderError::InvalidBufferInfo,
            ) || r == Err::<BufferResource, RenderError>(RenderError::OutOfMemory)),
            r matches Ok(b) ==> b.wf() && b.info == info && b.index == old(self).buffers.live@.len() && b.bytes@.len() == 0 && b.block.size == spec_align_up(
                info.align,
                info.size,
            ) && final(self).buffers.live@ == old(self).buffers.live@.push(true) && final(self).allocator.live@ == old(self).allocator.live@.push(b.block) && final(self).allocator.spec_is_live(b.block.id) && !old(self).allocator.spec_is_live(b.block.id)
                && final(self).allocator.types@ == old(self).allocator.types@
                && b.block.id == old(self).allocator.next_block_id
                && final(self).allocator.next_block_id == old(self).allocator.next_block_id + 1
                && final(self).next_address == old(self).next_address + (
            if info.spec_wants_device_address() {
                1int
            } else {
                0int
            }) && final(self).created_buffers@ == old(self).created_buffers@.push(info)
                && *final(self) == (
            Device {
                allocator: final(self).allocator,
                buffers: final(self).buffers,
                next_address: final(self).next_address,
                created_buffers: final(self).created_buffers,
                ..*old(self)
            }),
            final(self).allocator.next_memory_handle <= old(self).allocator.next_memory_handle
                + 1,
            final(self).allocator.next_memory_handle >= old(self).allocator.next_memory_handle,
    {
        if !info.is_valid() {
            return Err(RenderError::InvalidBufferInfo);
        }
        if self.next_address == u64::MAX || self.buffers.live.len() == usize::MAX {
            return Err(RenderError::OutOfMemory);
        }
        let aligned = match align_up(info.align, info.size) {
            Some(a) => a,
            None => {
                return Err(RenderError::OutOfMemory);  // unreachable: validity bounds the sum
            },
        };
        let request = MemoryRequest {
            size: aligned,
            align_mask: info.align,
            usage: info.allocation_flags,
            memory_types: 0xffffffffu32,
        };
        let block = match self.allocator.allocate(request) {
            Ok(b) => b,
            Err(e) => {
                return Err(e);
            },
        };
        let device_address = if flags::has_flags(
            info.allocation_flags,
            flags::MEMORY_USAGE_DEVICE_ADDRESS,
        ) {
            let addr = self.next_address;
            self.next_address = self.next_address + 1;
            Some(DeviceAddress(addr))
        } else {
            None
        };
        let index = self.buffers.insert();
        self.created_buffers.push(info);
        proof {
            lemma_align_up_bounds(info.align, info.size);
        }
        Ok(
            BufferResource {
                info,
                handle: index as u64 + 1,
                index,
                device_address,
                block,
                bytes: Vec::new(),
            },
        )
    }

    /// Creates an upload buffer and fills it with the given bytes in one
    /// step: the allocation hint is forced to the upload heap, and the mapped
    /// content afterwards is exactly `data`.
    pub fn create_buffer_with_data(&mut self, info: BufferInfo, data: &[u8]) -> (r: Result<
        BufferResource,
        RenderError,
    >)
        requires
            old(self).wf(),
        ensures
            final(self).wf(),
            ({
                let upload = (BufferInfo {
                    allocation_flags: flags::MEMORY_USAGE_UPLOAD,
                    ..info
                });
                &&& (r is Ok) == (old(self).spec_can_create_buffer(upload)
                    && data@.len() <= info.size)
                &&& (r matches Ok(b) ==> b.wf() && b.info == upload && b.bytes@ == data@
                    && final(self).allocator.spec_is_live(b.block.id))
            }),
            r is Err ==> *final(self) == *old(self),
    {
        let upload = BufferInfo {
            align: info.align,
            size: info.size,
            usage_flags: info.usage_flags,
            allocation_flags: flags::MEMORY_USAGE_UPLOAD,
        };
        if data.len() as u64 > info.size {
            return Err(RenderError::StoreTooLarge);
        }
        let mut buffer = match self.create_buffer(upload) {
            Ok(b) => b,
            Err(e) => {
                return Err(e);
            },
        };
        proof {
            assert(flags::MEMORY_USAGE_UPLOAD & flags::MEMORY_USAGE_NEEDS_HOST_VISIBLE != 0)
                by (bit_vector);
        }
        let _ = buffer.store(data);
        Ok(buffer)
    }

    /// Destroys a buffer: destroys the native handle, then releases the
    /// memory block back to the allocator. Consuming the resource makes a
    /// second destroy impossible.
    pub fn destroy_buffer(&mut self, buffer: BufferResource)
        requires
            old(self).wf(),
            old(self).allocator.spec_is_live(buffer.block.id),
            buffer.index < old(self).buffers.live@.len(),
        ensures
            final(self).wf(),
            *final(self) == (Device {
                allocator: final(self).allocator,
                buffers: final(self).buffers,
                ..*old(self)
            }),
            final(self).buffers.live@ == old(self).buffers.live@.update(buffer.index as int, false),
            final(self).allocator.types@ == old(self).allocator.types@,
            final(self).allocator.next_block_id == old(self).allocator.next_block_id,
            final(self).allocator.next_memory_handle == old(self).allocator.next_memory_handle,
            final(self).allocator.live@.len() == old(self).allocator.live@.len() - 1,
            forall|id: u64|
                final(self).allocator.spec_is_live(id) == (old(self).allocator.spec_is_live(id)
                    && id != buffer.block.id),
    {
        let _ = self.allocator.release(buffer.block);
        self.buffers.remove(buffer.index);
    }

    /// The build-size query: reports the storage and scratch sizes a build of
    /// the given worst-case geometry will need. Deterministic in the geometry
    /// description alone, so a later build of the same description can rely
    /// on the earlier answer.
    pub fn get_acceleration_structure_build_sizes(
        &self,
        _level: AccelerationStructureLevel,
        _build_flags: u32,
        geometry: &[AccelerationStructureGeometryInfo],
    ) -> (r: AccelerationStructureBuildSizesInfo)
        ensures
            r == spec_build_sizes(geometry@),
    {
        let mut acc = AccelerationStructureBuildSizesInfo {
            acceleration_structure_size: 256,
            update_scratch_size: 64,
            build_scratch_size: 64,
        };
        let n = geometry.len();
        let mut i: usize = 0;
        proof {
            assert(geometry@.subrange(0, 0) =~= Seq::<AccelerationStructureGeometryInfo>::empty());
        }
        while i < n
            invariant
                n == geometry@.len(),
                i <= n,
                acc == spec_build_sizes(geometry@.subrange(0, i as int)),
            decreases n - i,
        {
            let g = geometry[i];
            let structure = match g {
                AccelerationStructureGeometryInfo::Triangles { max_primitive_count, .. } => 128
                    * (max_primitive_count as u64),
                AccelerationStructureGeometryInfo::Instances { max_primitive_count } => 64 * (
                max_primitive_count as u64),
            };
            let build_scratch = match g {
                AccelerationStructureGeometryInfo::Triangles { max_primitive_count, .. } => 64 * (
                max_primitive_count as u64),
                AccelerationStructureGeometryInfo::Instances { max_primitive_count } => 32 * (
                max_primitive_count as u64),
            };
            let update_scratch = match g {
                AccelerationStructureGeometryInfo::Triangles { max_primitive_count, .. } => 32 * (
                max_primitive_count as u64),
                AccelerationStructureGeometryInfo::Instances { max_primitive_count } => 16 * (
                max_primitive_count as u64),
            };
            acc = AccelerationStructureBuildSizesInfo {
                acceleration_structure_size: sat_add(acc.acceleration_structure_size, structure),
                update_scratch_size: sat_add(acc.update_scratch_size, update_scratch),
                build_scratch_size: sat_add(acc.build_scratch_size, build_scratch),
            };
            proof {
                assert(geometry@.subrange(0, i + 1 as int).drop_last() =~= geometry@.subrange(
                    0,
                    i as int,
                ));
                assert(geometry@.subrange(0, i + 1 as int).last() == geometry@[i as int]);
            }
            i = i + 1;
        }
        proof {
            assert(geometry@.subrange(0, n as int) =~= geometry@);
        }
        acc
    }

    /// Creates an acceleration structure bound to the given storage region at
    /// offset zero. The structure takes ownership of the storage buffer; its
    /// device address is the buffer's, so it requires an addressed buffer.
    pub fn create_acceleration_structure(&mut self, info: AccelerationStructureInfo) -> (r: Result<
        AccelerationStructure,
        RenderError,
    >)
        requires
            old(self).wf(),
            old(self).acceleration_structures.live@.len() < usize::MAX,
        ensures
            final(self).wf(),
            (r is Ok) == (info.region.buffer.device_address is Some),
            r is Err ==> *final(self) == *old(self) && r == Err::<
                AccelerationStructure,
                RenderError,
            >(RenderError::MissingDeviceAddress),
            r matches Ok(a) ==> a.index == old(self).acceleration_structures.live@.len() && a.handle
                == a.index + 1 && a.level == info.level && a.buffer == info.region.buffer
                && Some(a.address) == info.region.buffer.device_address && *final(self) == (Device {
                acceleration_structures: final(self).acceleration_structures,
                ..*old(self)
            }) && final(self).acceleration_structures.live@ == old(self).acceleration_structures.live@.push(true),
    {
        let address = match info.region.buffer.device_address() {
            Some(a) => a,
            None => {
                return Err(RenderError::MissingDeviceAddress);
            },
        };
        let index = self.acceleration_structures.insert();
        Ok(
            AccelerationStructure {
                handle: index as u64 + 1,
                index,
                address,
                level: info.level,
                buffer: info.region.buffer,
            },
        )
    }

    /// Destroys an acceleration structure: the native handle, then its
    /// storage buffer.
    pub fn destroy_acceleration_structure(&mut self, accel: AccelerationStructure)
        requires
            old(self).wf(),
            old(self).allocator.spec_is_live(accel.buffer.block.id),
            accel.buffer.index < old(self).buffers.live@.len(),
            accel.index < old(self).acceleration_structures.live@.len(),
        ensures
            final(self).wf(),
            *final(self) == (Device {
                allocator: final(self).allocator,
                buffers: final(self).buffers,
                acceleration_structures: final(self).acceleration_structures,
                ..*old(self)
            }),
            final(self).acceleration_structures.live@ == old(self).acceleration_structures.live@.update(accel.index as int, false),
            final(self).buffers.live@ == old(self).buffers.live@.update(
                accel.buffer.index as int,
                false,
            ),
            final(self).allocator.types@ == old(self).allocator.types@,
            final(self).allocator.next_block_id == old(self).allocator.next_block_id,
            final(self).allocator.next_memory_handle == old(self).allocator.next_memory_handle,
            final(self).allocator.live@.len() == old(self).allocator.live@.len() - 1,
            forall|id: u64|
                final(self).allocator.spec_is_live(id) == (old(self).allocator.spec_is_live(id)
                    && id != accel.buffer.block.id),
    {
        self.acceleration_structures.remove(accel.index);
        self.destroy_buffer(accel.buffer);
    }

    /// The sizing model for image memory: four bytes per texel of the base
    /// level, times layers and samples, saturating at the address-space
    /// limit.
    pub open spec fn spec_image_bytes(info: ImageInfo) -> u64 {
        spec_sat_mul(
            spec_sat_mul(info.extent.width as u64, info.extent.height as u64),
            spec_sat_mul(4, spec_sat_mul(info.layers as u64, info.samples as u64)),
        )
    }

    /// The memory request an image creation derives from its description.
    pub open spec fn spec_image_request(info: ImageInfo) -> MemoryRequest {
        MemoryRequest {
            size: Self::spec_image_bytes(info),
            align_mask: 255,
            usage: spec_image_memory_usage(info.usage),
            memory_types: 0xffffffffu32,
        }
    }

    /// Creates an image and binds it to a fresh memory block sized by the
    /// sizing model; transient attachments take the transient memory hint.
    pub fn create_image(&mut self, info: ImageInfo) -> (r: Result<Image, RenderError>)
        requires
            old(self).wf(),
        ensures
            final(self).wf(),
            (r is Ok) == (spec_has_compatible_type(
                old(self).allocator.types@,
                Self::spec_image_request(info),
            ) && old(self).allocator.next_block_id < u64::MAX && old(
                self,
            ).allocator.next_memory_handle < u64::MAX && old(self).images.live@.len() < usize::MAX),
            r is Err ==> *final(self) == *old(self) && r == Err::<Image, RenderError>(
                RenderError::OutOfMemory,
            ),
            r matches Ok(img) ==> img.info == info && img.index == old(self).images.live@.len()
                && img.handle == img.index + 1 && img.block.size == Self::spec_image_bytes(info)
                && final(self).images.live@ == old(self).images.live@.push(true)
                && final(self).allocator.spec_is_live(img.block.id)
                && *final(self) == (Device {
                allocator: final(self).allocator,
                images: final(self).images,
                ..*old(self)
            }),
    {
        if self.images.live.len() == usize::MAX {
            return Err(RenderError::OutOfMemory);
        }
        let texels = sat_mul(info.extent.width as u64, info.extent.height as u64);
        let per_texel = sat_mul(4, sat_mul(info.layers as u64, info.samples as u64));
        let request = MemoryRequest {
            size: sat_mul(texels, per_texel),
            align_mask: 255,
            usage: get_allocator_memory_usage(info.usage),
            memory_types: 0xffffffffu32,
        };
        let block = match self.allocator.allocate(request) {
            Ok(b) => b,
            Err(e) => {
                return Err(e);
            },
        };
        let index = self.images.insert();
        Ok(Image { info, handle: index as u64 + 1, index, block })
    }

    /// Destroys an image: the native handle, then its memory block.
    pub fn destroy_image(&mut self, image: Image)
        requires
            old(self).wf(),
            old(self).allocator.spec_is_live(image.block.id),
            image.index < old(self).images.live@.len(),
        ensures
            final(self).wf(),
            *final(self) == (Device {
                allocator: final(self).allocator,
                images: final(self).images,
                ..*old(self)
            }),
            final(self).images.live@ == old(self).images.live@.update(image.index as int, false),
            final(self).allocator.live@.len() == old(self).allocator.live@.len() - 1,
            forall|id: u64|
                final(self).allocator.spec_is_live(id) == (old(self).allocator.spec_is_live(id)
                    && id != image.block.id),
    {
        let _ = self.allocator.release(image.block);
        self.images.remove(image.index);
    }

    /// Compiles validated SPIR-V bytes into a shader module. Anything but
    /// SPIR-V is rejected as unsupported; a malformed blob is rejected before
    /// any handle is created.
    pub fn create_shader_module(&mut self, info: ShaderModuleInfo) -> (r: Result<
        ShaderModule,
        RenderError,
    >)
        requires
            old(self).wf(),
            old(self).shader_modules.live@.len() < usize::MAX,
        ensures
            final(self).wf(),
            (r is Ok) == (info.language == ShaderLanguage::SPIRV && spec_valid_spirv(info.code@)),
            (r == Err::<ShaderModule, RenderError>(RenderError::UnsupportedShaderLanguage)) <==> (
            info.language != ShaderLanguage::SPIRV),
            (r == Err::<ShaderModule, RenderError>(RenderError::InvalidShaderCode)) <==> (
            info.language == ShaderLanguage::SPIRV && !spec_valid_spirv(info.code@)),
            r is Err ==> *final(self) == *old(self),
            r matches Ok(m) ==> m.info == info && m.index == old(self).shader_modules.live@.len() && m.handle == m.index + 1 && *final(self) == (Device {
                shader_modules: final(self).shader_modules,
                ..*old(self)
            }) && final(self).shader_modules.live@ == old(self).shader_modules.live@.push(true),
    {
        match info.language {
            ShaderLanguage::GLSL => Err(RenderError::UnsupportedShaderLanguage),
            ShaderLanguage::SPIRV => {
                if !is_valid_spirv(info.code.as_slice()) {
                    return Err(RenderError::InvalidShaderCode);
                }
                let index = self.shader_modules.insert();
                Ok(ShaderModule { info, handle: index as u64 + 1, index })
            },
        }
    }

    /// Creates a descriptor set layout and derives its per-type pool sizes
    /// from the bindings.
    pub fn create_descriptor_set_layout(
        &mut self,
        info: crate::descriptor::DescriptorSetLayoutInfo,
    ) -> (r: crate::descriptor::DescriptorSetLayout)
        requires
            old(self).wf(),
            old(self).descriptor_set_layouts.live@.len() < usize::MAX,
            forall|ti: int|
                0 <= ti < crate::descriptor::DESCRIPTOR_TYPES_COUNT
                    ==> crate::descriptor::spec_type_count(info.bindings@, ti) <= u32::MAX,
        ensures
            final(self).wf(),
            *final(self) == (Device {
                descriptor_set_layouts: final(self).descriptor_set_layouts,
                ..*old(self)
            }),
            final(self).descriptor_set_layouts.live@ == old(
                self,
            ).descriptor_set_layouts.live@.push(true),
            r.index == old(self).descriptor_set_layouts.live@.len(),
            r.handle == r.index + 1,
            r.info == info,
            r.sizes.sizes@ == crate::descriptor::spec_pool_entries(
                crate::descriptor::spec_descriptor_counts(info.bindings@),
                0,
            ),
    {
        let sizes = crate::descriptor::DescriptorSizes::from_bindings(info.bindings.as_slice());
        let index = self.descriptor_set_layouts.insert();
        crate::descriptor::DescriptorSetLayout { info, handle: index as u64 + 1, index, sizes }
    }

    /// Allocates a descriptor set from a dedicated pool sized by the layout.
    /// The pool allows update-after-bind exactly when the layout was created
    /// for it.
    pub fn create_descriptor_set(
        &mut self,
        info: crate::descriptor::DescriptorSetInfo,
    ) -> (r: crate::descriptor::DescriptorSet)
        requires
            old(self).wf(),
            old(self).descriptor_pools.live@.len() < usize::MAX,
        ensures
            final(self).wf(),
            *final(self) == (Device {
                descriptor_pools: final(self).descriptor_pools,
                ..*old(self)
            }),
            final(self).descriptor_pools.live@ == old(self).descriptor_pools.live@.push(true),
            r.pool_index == old(self).descriptor_pools.live@.len(),
            r.pool_handle == r.pool_index + 1,
            r.handle == r.pool_handle,
            r.pool_flags == (if flags::spec_has_flags(
                info.layout.info.flags,
                crate::descriptor::DESCRIPTOR_SET_LAYOUT_UPDATE_AFTER_BIND_POOL,
            ) {
                crate::descriptor::DESCRIPTOR_POOL_UPDATE_AFTER_BIND
            } else {
                0u32
            }),
    {
        let pool_flags = if flags::has_flags(
            info.layout.info.flags,
            crate::descriptor::DESCRIPTOR_SET_LAYOUT_UPDATE_AFTER_BIND_POOL,
        ) {
            crate::descriptor::DESCRIPTOR_POOL_UPDATE_AFTER_BIND
        } else {
            0u32
        };
        let pool_index = self.descriptor_pools.insert();
        let pool_handle = pool_index as u64 + 1;
        crate::descriptor::DescriptorSet {
            handle: pool_handle,
            pool_handle,
            pool_index,
            pool_flags,
        }
    }

    /// Bulk teardown: waits for the device to go idle, then destroys every
    /// live handle in dependency order — pools and layouts before modules,
    /// structures before the buffers that back them, buffers before their
    /// memory — and finally frees all device memory.
    pub fn cleanup(&mut self)
        requires
            old(self).wf(),
        ensures
            final(self).wf(),
            final(self).completed == final(self).submissions@.len(),
            crate::registry::spec_count_live(final(self).command_pools.live@) == 0,
            crate::registry::spec_count_live(final(self).descriptor_pools.live@) == 0,
            crate::registry::spec_count_live(final(self).descriptor_set_layouts.live@) == 0,
            crate::registry::spec_count_live(final(self).shader_modules.live@) == 0,
            crate::registry::spec_count_live(final(self).acceleration_structures.live@) == 0,
            crate::registry::spec_count_live(final(self).images.live@) == 0,
            crate::registry::spec_count_live(final(self).buffers.live@) == 0,
            final(self).allocator.live@.len() == 0,
    {
        self.wait_idle();
        self.command_pools.clear();
        self.descriptor_pools.clear();
        self.descriptor_set_layouts.clear();
        self.shader_modules.clear();
        self.acceleration_structures.clear();
        self.images.clear();
        self.buffers.clear();
        self.allocator.release_all();
    }
}

} // verus!
