//! The acceleration-structure builder: a one-time batch build of bottom-level
//! structures, then a single top-level structure over instances of them.
//!
//! Builds run synchronously: the builder sizes every structure with the
//! device's build-size query, allocates storage sized exactly to the answer
//! and one shared scratch buffer sized to the largest per-entry scratch need
//! (entries are submitted in one batch and never overlap in time), records
//! one build plus a write-to-read barrier per entry, submits, and blocks
//! until the device is idle. Configuration errors are rejected before any
//! device work.

use vstd::prelude::*;

use crate::accel::{
    encode_instances, spec_encode_instances, spec_resolved_record, AccelerationStructure,
    AccelerationStructureGeometry, AccelerationStructureGeometryInfo, AccelerationStructureInfo,
    AccelerationStructureInstance, AccelerationStructureLevel, BlasEntry, BlasInput,
    BuildRangeInfo, Tlas, TlasInstanceRecord, INSTANCE_RECORD_SIZE,
};
use crate::buffer::BufferInfo;
use crate::commands::{
    BuildCommand, BuildMode, Command, CommandBuffer, CommandBufferLevel, CommandPool,
};
use crate::device::{spec_build_sizes, Device};
use crate::error::RenderError;
use crate::flags;
use crate::registry::spec_count_live;
use crate::resource::{BufferRegion, BufferResource};

verus! {

/// A buffer is a live resource of the device: well-formed, its block live in
/// the allocator, its registry slot in range.
pub open spec fn spec_buffer_live_in(b: BufferResource, device: Device) -> bool {
    &&& b.wf()
    &&& device.allocator.spec_is_live(b.block.id)
    &&& b.block.id < device.allocator.next_block_id
    &&& b.index < device.buffers.live@.len()
}

/// An acceleration structure is a live resource of the device, and so is the
/// storage buffer it owns.
pub open spec fn spec_accel_live_in(a: AccelerationStructure, device: Device) -> bool {
    &&& a.wf()
    &&& spec_buffer_live_in(a.buffer, device)
    &&& a.index < device.acceleration_structures.live@.len()
}

/// The device `d1` is `d0` evolved by builder work: the invariant holds, the
/// memory types are unchanged, block ids only grew, every block live in `d0`
/// is live in `d1`, and no registry shrank.
pub open spec fn spec_device_evolved(d0: Device, d1: Device) -> bool {
    &&& d1.wf()
    &&& d1.allocator.types@ == d0.allocator.types@
    &&& d1.allocator.next_block_id >= d0.allocator.next_block_id
    &&& forall|id: u64| d0.allocator.spec_is_live(id) ==> d1.allocator.spec_is_live(id)
    &&& d1.buffers.live@.len() >= d0.buffers.live@.len()
    &&& d1.acceleration_structures.live@.len() >= d0.acceleration_structures.live@.len()
}

/// The sizing-time description of one build-time geometry: the worst-case
/// counts a build of exactly this geometry needs. Triangle geometry built by
/// this renderer is 16-bit indexed.
pub open spec fn spec_sizing_info_of(
    g: AccelerationStructureGeometry,
    range: BuildRangeInfo,
) -> AccelerationStructureGeometryInfo {
    match g {
        AccelerationStructureGeometry::Triangles { vertex_format, vertex_count, .. } => {
            AccelerationStructureGeometryInfo::Triangles {
                max_primitive_count: range.primitive_count,
                max_vertex_count: vertex_count,
                vertex_format,
                index_type: flags::INDEX_TYPE_UINT16,
            }
        },
        AccelerationStructureGeometry::Instances { .. } => {
            AccelerationStructureGeometryInfo::Instances {
                max_primitive_count: range.primitive_count,
            }
        },
    }
}

/// The sizing-time description of a whole BLAS input.
pub open spec fn spec_input_sizing(input: BlasInput) -> Seq<AccelerationStructureGeometryInfo> {
    Seq::new(
        input.as_geometry@.len(),
        |i: int| spec_sizing_info_of(input.as_geometry@[i], input.as_build_offset_info@[i]),
    )
}

/// The sizes the device reports for one BLAS input.
pub open spec fn spec_blas_sizes(input: BlasInput) -> crate::accel::AccelerationStructureBuildSizesInfo {
    spec_build_sizes(spec_input_sizing(input))
}

/// The storage-buffer description for a structure of the given size.
pub open spec fn spec_structure_storage_info(size: u64) -> BufferInfo {
    BufferInfo {
        align: 255,
        size,
        usage_flags: flags::BUFFER_USAGE_ACCELERATION_STRUCTURE_STORAGE
            | flags::BUFFER_USAGE_SHADER_DEVICE_ADDRESS,
        allocation_flags: flags::MEMORY_USAGE_FAST_DEVICE_ACCESS
            | flags::MEMORY_USAGE_DEVICE_ADDRESS,
    }
}

/// The device can satisfy allocations with these usage hints: some memory
/// type accepts them, whatever the size.
pub open spec fn spec_memory_usage_supported(d: Device, usage: u32) -> bool {
    crate::memory::spec_has_compatible_type(
        d.allocator.types@,
        crate::memory::MemoryRequest {
            size: 0,
            align_mask: 0,
            usage,
            memory_types: 0xffffffffu32,
        },
    )
}

/// The device has headroom for a build that creates at most `new_buffers`
/// buffers, `new_structures` structures and one transient command pool: no
/// counter or registry would be exhausted along the way.
pub open spec fn spec_build_headroom(d: Device, new_buffers: int, new_structures: int) -> bool {
    &&& d.allocator.next_block_id + new_buffers <= u64::MAX
    &&& d.allocator.next_memory_handle + new_buffers <= u64::MAX
    &&& d.next_address + new_buffers <= u64::MAX
    &&& d.buffers.live@.len() + new_buffers <= usize::MAX
    &&& d.acceleration_structures.live@.len() + new_structures <= usize::MAX
    &&& d.command_pools.live@.len() < usize::MAX
}

/// When a BLAS batch build is owed success: the container is empty, fast
/// device memory exists, the device has headroom for the batch, and no size
/// query saturates the address space.
pub open spec fn spec_blas_build_succeeds(
    b: RaytracingBuilder,
    d: Device,
    inputs: Seq<BlasInput>,
) -> bool {
    &&& b.blas_container@.len() == 0
    &&& spec_memory_usage_supported(
        d,
        flags::MEMORY_USAGE_FAST_DEVICE_ACCESS | flags::MEMORY_USAGE_DEVICE_ADDRESS,
    )
    &&& spec_build_headroom(d, inputs.len() + 1 as int, inputs.len() as int)
    &&& forall|i: int|
        0 <= i < inputs.len() ==> spec_blas_sizes(#[trigger] inputs[i]).acceleration_structure_size
            <= u64::MAX - 255 && spec_blas_sizes(inputs[i]).build_scratch_size <= u64::MAX - 255
}

/// The storage-buffer descriptions a BLAS batch creates, one per input, each
/// sized exactly to that input's size query.
pub open spec fn spec_blas_storage_infos(inputs: Seq<BlasInput>) -> Seq<BufferInfo> {
    Seq::new(
        inputs.len(),
        |i: int|
            spec_structure_storage_info(spec_blas_sizes(inputs[i]).acceleration_structure_size),
    )
}

/// The sizing-time description of a TLAS over `count` instances.
pub open spec fn spec_tlas_sizing(count: int) -> Seq<AccelerationStructureGeometryInfo> {
    seq![AccelerationStructureGeometryInfo::Instances { max_primitive_count: count as u32 }]
}

/// The instance-record buffer a TLAS build creates: 16-byte aligned, one
/// record per instance, addressed and host-visible.
pub open spec fn spec_instance_buffer_info(count: int) -> BufferInfo {
    BufferInfo {
        align: 15,
        size: (INSTANCE_RECORD_SIZE * count) as u64,
        usage_flags: flags::BUFFER_USAGE_SHADER_DEVICE_ADDRESS,
        allocation_flags: flags::MEMORY_USAGE_DEVICE_ADDRESS | flags::MEMORY_USAGE_HOST_ACCESS,
    }
}

/// The scratch buffer a TLAS build creates: sized to the queried build
/// scratch, or to the update scratch when refitting.
pub open spec fn spec_tlas_scratch_info(
    sizes: crate::accel::AccelerationStructureBuildSizesInfo,
    update: bool,
) -> BufferInfo {
    BufferInfo {
        align: 255,
        size: if update {
            sizes.update_scratch_size
        } else {
            sizes.build_scratch_size
        },
        usage_flags: flags::BUFFER_USAGE_SHADER_DEVICE_ADDRESS,
        allocation_flags: flags::MEMORY_USAGE_FAST_DEVICE_ACCESS
            | flags::MEMORY_USAGE_DEVICE_ADDRESS,
    }
}

/// When a TLAS build is owed success: the update mode matches the builder's
/// state, every instance id is in range, the count fits the build range,
/// both memory kinds exist, and the device has headroom for the build.
pub open spec fn spec_tlas_build_succeeds(
    b: RaytracingBuilder,
    d: Device,
    instances: Seq<AccelerationStructureInstance>,
    update: bool,
) -> bool {
    &&& update == (b.tlas.acceleration_structure is Some)
    &&& forall|i: int|
        0 <= i < instances.len() ==> (#[trigger] instances[i]).blas_id < b.blas_container@.len()
    &&& instances.len() <= u32::MAX
    &&& spec_memory_usage_supported(
        d,
        flags::MEMORY_USAGE_FAST_DEVICE_ACCESS | flags::MEMORY_USAGE_DEVICE_ADDRESS,
    )
    &&& spec_memory_usage_supported(
        d,
        flags::MEMORY_USAGE_DEVICE_ADDRESS | flags::MEMORY_USAGE_HOST_ACCESS,
    )
    &&& spec_build_headroom(d, 3, 1)
}

/// No size a TLAS query reports for a representable instance count comes
/// near the address-space limit.
proof fn lemma_tlas_sizes_bounded(count: int)
    requires
        0 <= count <= u32::MAX,
    ensures
        spec_build_sizes(spec_tlas_sizing(count)).acceleration_structure_size <= u64::MAX - 255,
        spec_build_sizes(spec_tlas_sizing(count)).build_scratch_size <= u64::MAX - 255,
        spec_build_sizes(spec_tlas_sizing(count)).update_scratch_size <= u64::MAX - 255,
{
    assert(spec_tlas_sizing(count).drop_last() =~= Seq::<
        AccelerationStructureGeometryInfo,
    >::empty());
    assert(spec_build_sizes(Seq::<AccelerationStructureGeometryInfo>::empty())
        == (crate::accel::AccelerationStructureBuildSizesInfo {
        acceleration_structure_size: 256,
        update_scratch_size: 64,
        build_scratch_size: 64,
    }));
}

/// The largest build-scratch size any of the inputs needs: the one shared
/// scratch buffer is sized to it, which is sound because the batch is
/// submitted as one fenced unit and entries never run concurrently.
pub open spec fn spec_max_build_scratch(inputs: Seq<BlasInput>) -> u64
    decreases inputs.len(),
{
    if inputs.len() == 0 {
        0u64
    } else {
        let rest = spec_max_build_scratch(inputs.drop_last());
        let s = spec_blas_sizes(inputs.last()).build_scratch_size;
        if s > rest {
            s
        } else {
            rest
        }
    }
}

/// The largest build-scratch need is bounded by any bound on each input's.
proof fn lemma_max_build_scratch_bounded(inputs: Seq<BlasInput>, bound: u64)
    requires
        forall|i: int|
            0 <= i < inputs.len() ==> spec_blas_sizes(#[trigger] inputs[i]).build_scratch_size
                <= bound,
    ensures
        spec_max_build_scratch(inputs) <= bound,
    decreases inputs.len(),
{
    if inputs.len() > 0 {
        lemma_max_build_scratch_bounded(inputs.drop_last(), bound);
    }
}

/// The build command recorded for one BLAS entry.
pub open spec fn spec_blas_build_command_ok(
    c: Command,
    input: BlasInput,
    dst: u64,
    build_flags: u32,
    scratch: crate::address::DeviceAddress,
) -> bool {
    &&& c matches Command::BuildAccelerationStructures(b)
    &&& b.level == AccelerationStructureLevel::Bottom
    &&& b.mode == BuildMode::Build
    &&& b.src == 0
    &&& b.dst == dst
    &&& b.flags == build_flags
    &&& b.geometries@ == input.as_geometry@
    &&& b.ranges@ == input.as_build_offset_info@
    &&& b.scratch == scratch
}

/// The barrier recorded after each BLAS build: its writes are made available
/// to acceleration-structure reads, both scoped to the build stage.
pub open spec fn spec_blas_barrier() -> Command {
    Command::PipelineBarrier {
        src_stage: flags::STAGE_ACCELERATION_STRUCTURE_BUILD,
        dst_stage: flags::STAGE_ACCELERATION_STRUCTURE_BUILD,
        src_access: flags::ACCESS_ACCELERATION_STRUCTURE_WRITE,
        dst_access: flags::ACCESS_ACCELERATION_STRUCTURE_READ,
    }
}

/// The batch a BLAS build submits: one command buffer per entry, each holding
/// that entry's build command followed by the write-to-read barrier, all
/// sharing one scratch address.
pub open spec fn spec_blas_batch_ok(
    batch: crate::device::SubmittedBatch,
    inputs: Seq<BlasInput>,
    container: Seq<BlasEntry>,
    build_flags: u32,
    scratch: crate::address::DeviceAddress,
) -> bool {
    &&& batch.buffers@.len() == inputs.len()
    &&& forall|i: int|
        0 <= i < inputs.len() ==> (#[trigger] batch.buffers@[i]).commands@.len() == 2
            && spec_blas_build_command_ok(
            batch.buffers@[i].commands@[0],
            inputs[i],
            container[i].acceleration_structure->Some_0.handle,
            build_flags,
            scratch,
        ) && batch.buffers@[i].commands@[1] == spec_blas_barrier()
}

/// The builder of the scene's acceleration structures. One batch of
/// bottom-level structures may be built once per builder; after that, one
/// top-level structure over instances of them, rebuilt only through the
/// explicit update mode.
pub struct RaytracingBuilder {
    /// The built bottom-level structures, indexed by the ids instances use.
    pub blas_container: Vec<BlasEntry>,
    /// The single top-level structure.
    pub tlas: Tlas,
    /// The queue family builds are submitted to.
    pub queue_index: u32,
}

impl RaytracingBuilder {
    /// Every container entry is built, a live resource of the device, and no
    /// two owned resources share a memory block; the top-level structure and
    /// the instance buffer, when present, are live and disjoint from the rest.
    pub open spec fn wf_in(self, device: Device) -> bool {
        &&& forall|i: int|
            0 <= i < self.blas_container@.len() ==> (
            #[trigger] self.blas_container@[i]).acceleration_structure is Some
                && spec_accel_live_in(
                self.blas_container@[i].acceleration_structure->Some_0,
                device,
            ) && self.blas_container@[i].acceleration_structure->Some_0.level
                == AccelerationStructureLevel::Bottom
        &&& forall|i: int, j: int|
            0 <= i < self.blas_container@.len() && 0 <= j < self.blas_container@.len() && i != j
                ==> (#[trigger] self.blas_container@[i]).acceleration_structure->Some_0.buffer.block.id != (
            #[trigger] self.blas_container@[j]).acceleration_structure->Some_0.buffer.block.id
        &&& (self.tlas.instances_buffer is Some ==> self.tlas.acceleration_structure is Some)
        &&& (self.tlas.acceleration_structure matches Some(a) ==> spec_accel_live_in(a, device)
            && a.level == AccelerationStructureLevel::Top && (
        forall|i: int|
            0 <= i < self.blas_container@.len() ==> a.buffer.block.id != (
            #[trigger] self.blas_container@[i]).acceleration_structure->Some_0.buffer.block.id))
        &&& (self.tlas.instances_buffer matches Some(b) ==> spec_buffer_live_in(b, device) && (
        forall|i: int|
            0 <= i < self.blas_container@.len() ==> b.block.id != (
            #[trigger] self.blas_container@[i]).acceleration_structure->Some_0.buffer.block.id) && (
        self.tlas.acceleration_structure matches Some(a) ==> b.block.id != a.buffer.block.id))
    }

    /// A fresh builder for the given queue family: no structures built.
    pub fn new(queue_index: u32) -> (r: RaytracingBuilder)
        ensures
            r.blas_container@.len() == 0,
            r.tlas.acceleration_structure is None,
            r.tlas.instances_buffer is None,
            r.tlas.flags == 0,
            r.queue_index == queue_index,
            forall|device: Device| r.wf_in(device),
    {
        RaytracingBuilder { blas_container: Vec::new(), tlas: Tlas::default(), queue_index }
    }
}

/// A builder stays well-formed when the device only gains resources: no live
/// block disappears, no registry shrinks, and block ids keep growing.
pub proof fn lemma_builder_wf_monotone(b: RaytracingBuilder, d0: Device, d1: Device)
    requires
        b.wf_in(d0),
        d1.allocator.next_block_id >= d0.allocator.next_block_id,
        forall|id: u64| d0.allocator.spec_is_live(id) ==> d1.allocator.spec_is_live(id),
        d1.buffers.live@.len() >= d0.buffers.live@.len(),
        d1.acceleration_structures.live@.len() >= d0.acceleration_structures.live@.len(),
    ensures
        b.wf_in(d1),
{
}

/// The builder owns the block with this id: it backs one of its BLAS
/// entries, its TLAS, or its instance buffer.
pub open spec fn spec_owns_id(b: RaytracingBuilder, id: u64) -> bool {
    ||| exists|i: int|
        0 <= i < b.blas_container@.len() && (
        #[trigger] b.blas_container@[i]).acceleration_structure->Some_0.buffer.block.id == id
    ||| (b.tlas.acceleration_structure matches Some(a) && a.buffer.block.id == id)
    ||| (b.tlas.instances_buffer matches Some(ib) && ib.block.id == id)
}

/// A builder stays well-formed when every block it owns stays live and no
/// registry shrinks, whatever happens to other blocks.
proof fn lemma_wf_in_owned(b: RaytracingBuilder, d0: Device, d1: Device)
    requires
        b.wf_in(d0),
        d1.allocator.next_block_id >= d0.allocator.next_block_id,
        d1.buffers.live@.len() >= d0.buffers.live@.len(),
        d1.acceleration_structures.live@.len() >= d0.acceleration_structures.live@.len(),
        forall|id: u64|
            #[trigger] spec_owns_id(b, id) && d0.allocator.spec_is_live(id)
                ==> d1.allocator.spec_is_live(id),
    ensures
        b.wf_in(d1),
{
    assert forall|i: int| 0 <= i < b.blas_container@.len() implies (
    #[trigger] b.blas_container@[i]).acceleration_structure is Some && spec_accel_live_in(
        b.blas_container@[i].acceleration_structure->Some_0,
        d1,
    ) by {
        let a = b.blas_container@[i].acceleration_structure->Some_0;
        assert(spec_owns_id(b, a.buffer.block.id));
        assert(d1.allocator.spec_is_live(a.buffer.block.id));
    }
    match b.tlas.acceleration_structure {
        Some(a) => {
            assert(spec_owns_id(b, a.buffer.block.id));
            assert(d1.allocator.spec_is_live(a.buffer.block.id));
        },
        None => {},
    }
    match b.tlas.instances_buffer {
        Some(ib) => {
            assert(spec_owns_id(b, ib.block.id));
            assert(d1.allocator.spec_is_live(ib.block.id));
        },
        None => {},
    }
}

/// The facts recorded about one structure built for a BLAS entry.
pub open spec fn spec_built_entry_ok(e: BlasEntry, input: BlasInput, build_flags: u32) -> bool {
    &&& e.input.as_geometry@ == input.as_geometry@
    &&& e.input.as_build_offset_info@ == input.as_build_offset_info@
    &&& e.flags == build_flags
    &&& e.acceleration_structure matches Some(a)
    &&& a.level == AccelerationStructureLevel::Bottom
    &&& a.handle != 0
    &&& a.address.0 != 0
    &&& a.buffer.info == spec_structure_storage_info(
        spec_blas_sizes(input).acceleration_structure_size,
    )
}

/// The sizing-time descriptions of one BLAS input, as handed to the device's
/// build-size query.
fn sizing_infos_of(input: &BlasInput) -> (r: Vec<AccelerationStructureGeometryInfo>)
    requires
        input.spec_wf(),
    ensures
        r@ == spec_input_sizing(*input),
{
    let mut out: Vec<AccelerationStructureGeometryInfo> = Vec::new();
    let n = input.as_geometry.len();
    let mut i: usize = 0;
    while i < n
        invariant
            input.spec_wf(),
            n == input.as_geometry@.len(),
            i <= n,
            out@.len() == i,
            forall|k: int|
                0 <= k < i ==> out@[k] == spec_sizing_info_of(
                    input.as_geometry@[k],
                    input.as_build_offset_info@[k],
                ),
        decreases n - i,
    {
        let range = input.as_build_offset_info[i];
        let info = match input.as_geometry[i] {
            AccelerationStructureGeometry::Triangles { vertex_format, vertex_count, .. } => {
                AccelerationStructureGeometryInfo::Triangles {
                    max_primitive_count: range.primitive_count,
                    max_vertex_count: vertex_count,
                    vertex_format,
                    index_type: flags::INDEX_TYPE_UINT16,
                }
            },
            AccelerationStructureGeometry::Instances { .. } => {
                AccelerationStructureGeometryInfo::Instances {
                    max_primitive_count: range.primitive_count,
                }
            },
        };
        out.push(info);
        i = i + 1;
    }
    proof {
        assert(out@ =~= spec_input_sizing(*input));
    }
    out
}

impl RaytracingBuilder {
    /// Builds one bottom-level structure per input, all-or-nothing: the batch
    /// is rejected with `AlreadyBuilt` while any entries exist; each entry's
    /// storage is sized exactly to the device's size query for its geometry;
    /// one shared scratch buffer is sized to the largest per-entry scratch
    /// need; one command buffer per entry records the build and then the
    /// write-to-read barrier; the batch is submitted once and awaited; the
    /// scratch buffer and the transient pool are then torn down. Success is
    /// owed whenever `spec_blas_build_succeeds` holds of the inputs and the
    /// device on entry. On failure nothing is submitted, the builder is
    /// unchanged, and every structure created for the batch is destroyed
    /// again.
    pub fn build_blas(
        &mut self,
        device: &mut Device,
        inputs: Vec<BlasInput>,
        build_flags: u32,
    ) -> (r: Result<(), RenderError>)
        requires
            old(device).wf(),
            old(self).wf_in(*old(device)),
            forall|i: int| 0 <= i < inputs@.len() ==> (#[trigger] inputs@[i]).spec_wf(),
        ensures
            final(device).wf(),
            final(self).wf_in(*final(device)),
            final(self).queue_index == old(self).queue_index,
            spec_device_evolved(*old(device), *final(device)),
            (r == Err::<(), RenderError>(RenderError::AlreadyBuilt)) <==> old(self).blas_container@.len() > 0,
            r == Err::<(), RenderError>(RenderError::AlreadyBuilt) ==> *final(self) == *old(self)
                && *final(device) == *old(device),
            spec_blas_build_succeeds(*old(self), *old(device), inputs@) ==> r is Ok,
            r is Err ==> *final(self) == *old(self) && final(device).submissions@ == old(device).submissions@ && final(device).completed == old(device).completed,
            r is Ok ==> ({
                &&& final(self).tlas == old(self).tlas
                &&& final(self).blas_container@.len() == inputs@.len()
                &&& forall|i: int|
                    0 <= i < inputs@.len() ==> spec_built_entry_ok(
                        #[trigger] final(self).blas_container@[i],
                        inputs@[i],
                        build_flags,
                    )
                &&& final(device).submissions@.len() == old(device).submissions@.len() + 1
                &&& forall|i: int|
                    0 <= i < old(device).submissions@.len() ==> final(device).submissions@[i]
                        == old(device).submissions@[i]
                &&& final(device).submissions@.last().queue_family_index == old(self).queue_index
                &&& exists|scratch: crate::address::DeviceAddress|
                    spec_blas_batch_ok(
                        final(device).submissions@.last(),
                        inputs@,
                        final(self).blas_container@,
                        build_flags,
                        scratch,
                    )
                &&& final(device).completed == final(device).submissions@.len()
                &&& final(device).allocator.live@.len() == old(device).allocator.live@.len()
                    + inputs@.len()
                &&& final(device).created_buffers@ == old(device).created_buffers@
                    + spec_blas_storage_infos(inputs@) + seq![
                    spec_structure_storage_info(spec_max_build_scratch(inputs@)),
                ]
                &&& spec_count_live(final(device).command_pools.live@) == spec_count_live(
                    old(device).command_pools.live@,
                )
            }),
    {
        if self.blas_container.len() > 0 {
            return Err(RenderError::AlreadyBuilt);
        }
        let n = inputs.len();
        // capacity prechecks, so the whole batch can be created before any submission
        if device.command_pools.live.len() == usize::MAX {
            return Err(RenderError::OutOfMemory);
        }
        if n > usize::MAX - device.acceleration_structures.live.len() {
            return Err(RenderError::OutOfMemory);
        }
        if n as u64 == u64::MAX {
            proof {
                if spec_blas_build_succeeds(*old(self), *old(device), inputs@) {
                    assert(old(device).buffers.live@.len() + (inputs@.len() + 1) <= usize::MAX);
                    assert(false);
                }
            }
            return Err(RenderError::OutOfMemory);
        }
        let ghost d0 = *device;

        // create per-entry storage and structure handles, tracking the
        // largest scratch requirement
        let mut built: Vec<AccelerationStructure> = Vec::new();
        let mut max_scratch: u64 = 0;
        let mut i: usize = 0;
        proof {
            assert(inputs@.subrange(0, 0) =~= Seq::<BlasInput>::empty());
            assert(spec_blas_storage_infos(inputs@.subrange(0, 0)) =~= Seq::<BufferInfo>::empty());
            assert(device.created_buffers@ =~= d0.created_buffers@ + spec_blas_storage_infos(
                inputs@.subrange(0, 0),
            ));
        }
        while i < n
            invariant
                n == inputs@.len(),
                i <= n,
                built@.len() == i,
                d0 == *old(device),
                *self == *old(self),
                self.blas_container@.len() == 0,
                old(self).wf_in(d0),
                device.wf(),
                forall|k: int| 0 <= k < inputs@.len() ==> (#[trigger] inputs@[k]).spec_wf(),
                max_scratch == spec_max_build_scratch(inputs@.subrange(0, i as int)),
                spec_device_evolved(d0, *device),
                device.submissions@ == d0.submissions@,
                device.completed == d0.completed,
                device.command_pools == d0.command_pools,
                device.allocator.live@.len() == d0.allocator.live@.len() + i,
                device.acceleration_structures.live@.len()
                    == d0.acceleration_structures.live@.len() + i,
                d0.acceleration_structures.live@.len() + n <= usize::MAX,
                device.allocator.next_block_id == d0.allocator.next_block_id + i,
                device.allocator.next_memory_handle <= d0.allocator.next_memory_handle + i,
                device.next_address == d0.next_address + i,
                device.buffers.live@.len() == d0.buffers.live@.len() + i,
                device.created_buffers@ == d0.created_buffers@ + spec_blas_storage_infos(
                    inputs@.subrange(0, i as int),
                ),
                forall|k: int| 0 <= k < i ==> spec_accel_live_in(#[trigger] built@[k], *device),
                forall|k: int|
                    0 <= k < i ==> !d0.allocator.spec_is_live(
                        (#[trigger] built@[k]).buffer.block.id,
                    ),
                forall|k1: int, k2: int|
                    0 <= k1 < i && 0 <= k2 < i && k1 != k2 ==> (
                    #[trigger] built@[k1]).buffer.block.id != (
                    #[trigger] built@[k2]).buffer.block.id,
                forall|k: int|
                    0 <= k < i ==> (#[trigger] built@[k]).level
                        == AccelerationStructureLevel::Bottom && built@[k].handle == built@[k].index
                        + 1 && built@[k].address.0 != 0 && built@[k].buffer.info
                        == spec_structure_storage_info(
                        spec_blas_sizes(inputs@[k]).acceleration_structure_size,
                    ),
            decreases n - i,
        {
            let sizing = sizing_infos_of(&inputs[i]);
            let sizes = device.get_acceleration_structure_build_sizes(
                AccelerationStructureLevel::Bottom,
                build_flags,
                sizing.as_slice(),
            );
            let storage_info = BufferInfo {
                align: 255,
                size: sizes.acceleration_structure_size,
                usage_flags: flags::BUFFER_USAGE_ACCELERATION_STRUCTURE_STORAGE
                    | flags::BUFFER_USAGE_SHADER_DEVICE_ADDRESS,
                allocation_flags: flags::MEMORY_USAGE_FAST_DEVICE_ACCESS
                    | flags::MEMORY_USAGE_DEVICE_ADDRESS,
            };
            let ghost d_before = *device;
            let storage = match device.create_buffer(storage_info) {
                Ok(b) => b,
                Err(e) => {
                    proof {
                        if spec_blas_build_succeeds(*old(self), d0, inputs@) {
                            assert(spec_blas_sizes(
                                inputs@[i as int],
                            ).acceleration_structure_size <= u64::MAX - 255);
                            assert(255u64 != u64::MAX && (((255u64 + 1) as u64) & 255u64) == 0)
                                by (bit_vector);
                            crate::memory::lemma_compatibility_ignores_size(
                                d0.allocator.types@,
                                Device::spec_buffer_request(storage_info),
                                crate::memory::MemoryRequest {
                                    size: 0,
                                    align_mask: 0,
                                    usage: flags::MEMORY_USAGE_FAST_DEVICE_ACCESS
                                        | flags::MEMORY_USAGE_DEVICE_ADDRESS,
                                    memory_types: 0xffffffffu32,
                                },
                            );
                            assert(d_before.spec_can_create_buffer(storage_info));
                            assert(false);
                        }
                    }
                    let ghost built_ids = built@;
                    rollback_structures(device, built);
                    proof {
                        lemma_live_outside_survives(d0, *device, built_ids);
                        lemma_builder_wf_monotone(*self, d0, *device);
                    }
                    return Err(e);
                },
            };
            proof {
                assert((flags::MEMORY_USAGE_FAST_DEVICE_ACCESS
                    | flags::MEMORY_USAGE_DEVICE_ADDRESS) & flags::MEMORY_USAGE_DEVICE_ADDRESS
                    == flags::MEMORY_USAGE_DEVICE_ADDRESS) by (bit_vector);
                assert(storage.device_address is Some);
            }
            let accel = match device.create_acceleration_structure(
                AccelerationStructureInfo {
                    level: AccelerationStructureLevel::Bottom,
                    region: BufferRegion::whole(storage),
                },
            ) {
                Ok(a) => a,
                Err(e) => {
                    let ghost built_ids = built@;
                    rollback_structures(device, built);
                    proof {
                        lemma_live_outside_survives(d0, *device, built_ids);
                        lemma_builder_wf_monotone(*self, d0, *device);
                    }
                    return Err(e);
                },
            };
            if sizes.build_scratch_size > max_scratch {
                max_scratch = sizes.build_scratch_size;
            }
            built.push(accel);
            proof {
                crate::memory::lemma_is_live_prefix(d_before.allocator, device.allocator);
                assert(inputs@.subrange(0, i + 1 as int).drop_last() =~= inputs@.subrange(
                    0,
                    i as int,
                ));
                assert(inputs@.subrange(0, i + 1 as int).last() == inputs@[i as int]);
                assert(storage_info == spec_structure_storage_info(
                    spec_blas_sizes(inputs@[i as int]).acceleration_structure_size,
                ));
                assert(spec_blas_storage_infos(inputs@.subrange(0, i + 1 as int))
                    =~= spec_blas_storage_infos(inputs@.subrange(0, i as int)).push(storage_info));
                assert(device.created_buffers@ =~= d0.created_buffers@ + spec_blas_storage_infos(
                    inputs@.subrange(0, i + 1 as int),
                ));
            }
            i = i + 1;
        }
        proof {
            assert(inputs@.subrange(0, n as int) =~= inputs@);
        }

        let ghost built0 = built@;
        let ghost d_built = *device;

        // one shared scratch buffer, sized to the largest per-entry need
        let scratch_info = BufferInfo {
            align: 255,
            size: max_scratch,
            usage_flags: flags::BUFFER_USAGE_ACCELERATION_STRUCTURE_STORAGE
                | flags::BUFFER_USAGE_SHADER_DEVICE_ADDRESS,
            allocation_flags: flags::MEMORY_USAGE_FAST_DEVICE_ACCESS
                | flags::MEMORY_USAGE_DEVICE_ADDRESS,
        };
        let scratch = match device.create_buffer(scratch_info) {
            Ok(b) => b,
            Err(e) => {
                proof {
                    if spec_blas_build_succeeds(*old(self), d0, inputs@) {
                        lemma_max_build_scratch_bounded(inputs@, (u64::MAX - 255) as u64);
                        assert(255u64 != u64::MAX && (((255u64 + 1) as u64) & 255u64) == 0)
                            by (bit_vector);
                        crate::memory::lemma_compatibility_ignores_size(
                            d0.allocator.types@,
                            Device::spec_buffer_request(scratch_info),
                            crate::memory::MemoryRequest {
                                size: 0,
                                align_mask: 0,
                                usage: flags::MEMORY_USAGE_FAST_DEVICE_ACCESS
                                    | flags::MEMORY_USAGE_DEVICE_ADDRESS,
                                memory_types: 0xffffffffu32,
                            },
                        );
                        assert(d_built.spec_can_create_buffer(scratch_info));
                        assert(false);
                    }
                }
                let ghost built_ids = built@;
                rollback_structures(device, built);
                proof {
                    lemma_live_outside_survives(d0, *device, built_ids);
                    lemma_builder_wf_monotone(*self, d0, *device);
                }
                return Err(e);
            },
        };
        proof {
            assert((flags::MEMORY_USAGE_FAST_DEVICE_ACCESS | flags::MEMORY_USAGE_DEVICE_ADDRESS)
                & flags::MEMORY_USAGE_DEVICE_ADDRESS == flags::MEMORY_USAGE_DEVICE_ADDRESS)
                by (bit_vector);
        }
        let scratch_addr = scratch.device_address().unwrap();
        let ghost d_scratch = *device;

        // record one command buffer per entry: the build, then the barrier
        let mut pool = CommandPool::new(device, self.queue_index, flags::COMMAND_POOL_TRANSIENT);
        let mut buffers = pool.create_command_buffers(CommandBufferLevel::Primary, n);
        let mut recorded: Vec<CommandBuffer> = Vec::new();
        let mut j: usize = 0;
        while j < n
            invariant
                n == inputs@.len(),
                j <= n,
                built@ == built0,
                built@.len() == n,
                forall|k: int| 0 <= k < inputs@.len() ==> (#[trigger] inputs@[k]).spec_wf(),
                buffers@.len() == n - j,
                forall|k: int|
                    0 <= k < n - j ==> (#[trigger] buffers@[k]).commands@.len() == 0
                        && !buffers@[k].recording,
                recorded@.len() == j,
                forall|k: int|
                    0 <= k < j ==> (#[trigger] recorded@[k]).commands@.len() == 2
                        && spec_blas_build_command_ok(
                        recorded@[k].commands@[0],
                        inputs@[k],
                        built@[k].handle,
                        build_flags,
                        scratch_addr,
                    ) && recorded@[k].commands@[1] == spec_blas_barrier(),
            decreases n - j,
        {
            let ghost buffers_pre = buffers@;
            let mut cb = buffers.remove(0);
            proof {
                assert forall|k: int| 0 <= k < buffers@.len() implies buffers@[k] == buffers_pre[k
                    + 1] by {}
            }
            cb.begin();
            let dup = inputs[j].duplicate();
            let dst = built[j].handle;
            let cmd = BuildCommand {
                level: AccelerationStructureLevel::Bottom,
                mode: BuildMode::Build,
                src: 0,
                dst,
                flags: build_flags,
                geometries: dup.as_geometry,
                ranges: dup.as_build_offset_info,
                scratch: scratch_addr,
            };
            cb.build_acceleration_structures(cmd);
            cb.pipeline_barrier(
                flags::STAGE_ACCELERATION_STRUCTURE_BUILD,
                flags::STAGE_ACCELERATION_STRUCTURE_BUILD,
                flags::ACCESS_ACCELERATION_STRUCTURE_WRITE,
                flags::ACCESS_ACCELERATION_STRUCTURE_READ,
            );
            recorded.push(cb);
            j = j + 1;
        }

        // submit the whole batch, block until it completes, then tear down
        // the transient pool and the scratch buffer
        pool.submit_and_wait(device, recorded);
        pool.destroy(device);
        device.destroy_buffer(scratch);
        proof {
            crate::registry::lemma_count_insert_then_remove(d0.command_pools.live@);
            // every block but the torn-down scratch survives the teardown
            assert forall|id: u64| d_built.allocator.spec_is_live(id) implies device
                .allocator.spec_is_live(id) by {
                let idx = choose|idx: int|
                    0 <= idx < d_built.allocator.live@.len() && (
                    #[trigger] d_built.allocator.live@[idx]).id == id;
                assert(d_scratch.allocator.live@[idx].id == id);
                assert(d_scratch.allocator.spec_is_live(id));
            }
            assert forall|id: u64| d0.allocator.spec_is_live(id) implies device
                .allocator.spec_is_live(id) by {}
            assert forall|k: int| 0 <= k < n implies spec_accel_live_in(
                built0[k],
                *device,
            ) by {
                assert(spec_accel_live_in(built0[k], d_built));
            }
            assert(spec_device_evolved(d0, *device));
        }

        // commit: the container gains one built entry per input
        let ghost inputs0 = inputs@;
        let mut pending_inputs = inputs;
        let mut pending_built = built;
        let mut c: usize = 0;
        while c < n
            invariant
                c <= n,
                inputs0.len() == n,
                built0.len() == n,
                pending_inputs@ == inputs0.subrange(c as int, n as int),
                pending_built@ == built0.subrange(c as int, n as int),
                self.blas_container@.len() == c,
                self.tlas == old(self).tlas,
                self.queue_index == old(self).queue_index,
                forall|m: int|
                    0 <= m < c ==> (#[trigger] self.blas_container@[m]).acceleration_structure
                        == Some(built0[m]) && self.blas_container@[m].flags == build_flags
                        && self.blas_container@[m].input.as_geometry@ == inputs0[m].as_geometry@
                        && self.blas_container@[m].input.as_build_offset_info@
                        == inputs0[m].as_build_offset_info@,
            decreases n - c,
        {
            proof {
                assert(pending_inputs@[0] == inputs0[c as int]);
                assert(pending_built@[0] == built0[c as int]);
            }
            let ghost pi_pre = pending_inputs@;
            let ghost pb_pre = pending_built@;
            let input = pending_inputs.remove(0);
            let accel = pending_built.remove(0);
            self.blas_container.push(
                BlasEntry { input, acceleration_structure: Some(accel), flags: build_flags },
            );
            proof {
                assert(pending_inputs@ =~= inputs0.subrange(c + 1 as int, n as int));
                assert(pending_built@ =~= built0.subrange(c + 1 as int, n as int));
            }
            c = c + 1;
        }
        proof {
            assert(scratch_info == spec_structure_storage_info(spec_max_build_scratch(inputs0)));
            assert(device.created_buffers@ =~= old(device).created_buffers@
                + spec_blas_storage_infos(inputs0) + seq![
                spec_structure_storage_info(spec_max_build_scratch(inputs0)),
            ]);
            assert(spec_blas_batch_ok(
                device.submissions@.last(),
                inputs0,
                self.blas_container@,
                build_flags,
                scratch_addr,
            ));
            assert forall|i: int, j2: int|
                0 <= i < self.blas_container@.len() && 0 <= j2 < self.blas_container@.len() && i
                    != j2 implies (
            #[trigger] self.blas_container@[i]).acceleration_structure->Some_0.buffer.block.id != (
            #[trigger] self.blas_container@[j2]).acceleration_structure->Some_0.buffer.block.id by {
                assert(self.blas_container@[i].acceleration_structure == Some(built0[i]));
                assert(self.blas_container@[j2].acceleration_structure == Some(built0[j2]));
            }
            assert(self.wf_in(*device));
        }
        Ok(())
    }
}

/// Re-establishes the builder's well-formedness at an abandoned TLAS build:
/// the builder's entries and structure are as on entry, possibly minus the
/// instance buffer, and every block the builder still owns is still live.
proof fn lemma_tlas_exit_wf(b: RaytracingBuilder, b0: RaytracingBuilder, d0: Device, d1: Device)
    requires
        b0.wf_in(d0),
        b.blas_container@ == b0.blas_container@,
        b.tlas.acceleration_structure == b0.tlas.acceleration_structure,
        b.tlas.instances_buffer is Some ==> b.tlas.instances_buffer == b0.tlas.instances_buffer,
        d1.allocator.next_block_id >= d0.allocator.next_block_id,
        d1.buffers.live@.len() >= d0.buffers.live@.len(),
        d1.acceleration_structures.live@.len() >= d0.acceleration_structures.live@.len(),
        forall|id: u64|
            d0.allocator.spec_is_live(id) && (b0.tlas.instances_buffer is Some
                && b.tlas.instances_buffer is None
                ==> id != b0.tlas.instances_buffer->Some_0.block.id)
                ==> #[trigger] d1.allocator.spec_is_live(id),
    ensures
        b.wf_in(d1),
{
    assert forall|id: u64|
        #[trigger] spec_owns_id(b, id) && d0.allocator.spec_is_live(id) implies d1
        .allocator.spec_is_live(id) by {
        if b0.tlas.instances_buffer is Some && b.tlas.instances_buffer is None {
            // the builder no longer owns the discarded buffer's block, and its
            // other blocks are disjoint from it
            let ob_id = b0.tlas.instances_buffer->Some_0.block.id;
            if exists|i: int|
                0 <= i < b.blas_container@.len() && (
                #[trigger] b.blas_container@[i]).acceleration_structure->Some_0.buffer.block.id
                    == id {
                let i = choose|i: int|
                    0 <= i < b.blas_container@.len() && (
                    #[trigger] b.blas_container@[i]).acceleration_structure->Some_0.buffer.block.id
                        == id;
                assert(b0.blas_container@[i].acceleration_structure->Some_0.buffer.block.id == id);
                assert(ob_id != id);
            } else {
                assert(b.tlas.acceleration_structure matches Some(a) && a.buffer.block.id == id);
                assert(ob_id != id);
            }
        }
    }
    assert(b.wf_in(d0)) by {
        lemma_wf_in_owned_base(b, b0, d0);
    }
    lemma_wf_in_owned(b, d0, d1);
}

/// A builder that differs from a well-formed one only by a missing instance
/// buffer is well-formed too.
proof fn lemma_wf_in_owned_base(b: RaytracingBuilder, b0: RaytracingBuilder, d0: Device)
    requires
        b0.wf_in(d0),
        b.blas_container@ == b0.blas_container@,
        b.tlas.acceleration_structure == b0.tlas.acceleration_structure,
        b.tlas.instances_buffer is Some ==> b.tlas.instances_buffer == b0.tlas.instances_buffer,
    ensures
        b.wf_in(d0),
{
}

/// The resolved record of each instance: its fields plus the device address
/// of the BLAS entry its `blas_id` names.
pub open spec fn spec_resolved_records(
    instances: Seq<AccelerationStructureInstance>,
    container: Seq<BlasEntry>,
) -> Seq<TlasInstanceRecord> {
    Seq::new(
        instances.len(),
        |i: int|
            spec_resolved_record(
                instances[i],
                container[instances[i].blas_id as int].acceleration_structure->Some_0.address,
            ),
    )
}

/// The barrier recorded before the TLAS build: the host-written instance
/// buffer is made available to the build's acceleration-structure writes.
pub open spec fn spec_tlas_barrier() -> Command {
    Command::PipelineBarrier {
        src_stage: flags::STAGE_TRANSFER,
        dst_stage: flags::STAGE_ACCELERATION_STRUCTURE_BUILD,
        src_access: flags::ACCESS_TRANSFER_WRITE,
        dst_access: flags::ACCESS_ACCELERATION_STRUCTURE_WRITE,
    }
}

/// The build command recorded for the TLAS: one instances geometry over the
/// uploaded records; an update reuses the existing handle as source and
/// destination, a fresh build has a null source.
pub open spec fn spec_tlas_build_command_ok(
    c: Command,
    instance_count: u32,
    instance_data: crate::address::DeviceAddress,
    dst: u64,
    update: bool,
    build_flags: u32,
    scratch: crate::address::DeviceAddress,
) -> bool {
    &&& c matches Command::BuildAccelerationStructures(b)
    &&& b.level == AccelerationStructureLevel::Top
    &&& b.mode == (if update {
        BuildMode::Update
    } else {
        BuildMode::Build
    })
    &&& b.src == (if update {
        dst
    } else {
        0
    })
    &&& b.dst == dst
    &&& b.flags == build_flags
    &&& b.geometries@.len() == 1
    &&& b.geometries@[0] == (AccelerationStructureGeometry::Instances {
        flags: 0,
        data: instance_data,
        primitive_count: instance_count,
    })
    &&& b.ranges@.len() == 1
    &&& b.ranges@[0] == (BuildRangeInfo {
        primitive_count: instance_count,
        primitive_offset: 0,
        first_vertex: 0,
        transform_offset: 0,
    })
    &&& b.scratch == scratch
}

/// The batch a TLAS build submits: one command buffer holding the upload
/// barrier and then the build command.
pub open spec fn spec_tlas_batch_ok(
    batch: crate::device::SubmittedBatch,
    instance_count: u32,
    instance_data: crate::address::DeviceAddress,
    dst: u64,
    update: bool,
    build_flags: u32,
    scratch: crate::address::DeviceAddress,
) -> bool {
    &&& batch.buffers@.len() == 1
    &&& batch.buffers@[0].commands@.len() == 2
    &&& batch.buffers@[0].commands@[0] == spec_tlas_barrier()
    &&& spec_tlas_build_command_ok(
        batch.buffers@[0].commands@[1],
        instance_count,
        instance_data,
        dst,
        update,
        build_flags,
        scratch,
    )
}

impl RaytracingBuilder {
    /// Builds or updates the single top-level structure over the given
    /// instances. A fresh build is rejected with `AlreadyBuilt` while a TLAS
    /// exists; an update is rejected with `NotBuilt` while none does; an
    /// instance whose `blas_id` lies past the end of the BLAS container is
    /// rejected with `BlasIdOutOfRange` before any device work, leaving the
    /// device untouched. On success the resolved instance records are encoded
    /// and uploaded into a fresh host-visible, addressed buffer — an update
    /// destroys the previous instance buffer first, exactly once — an upload
    /// barrier and one build command are submitted in one batch and awaited,
    /// and the scratch buffer and transient pool are torn down. Success is
    /// owed whenever `spec_tlas_build_succeeds` holds of the instances and
    /// the device on entry.
    #[verifier::rlimit(100)]
    #[verifier::spinoff_prover]
    pub fn build_tlas(
        &mut self,
        device: &mut Device,
        instances: Vec<AccelerationStructureInstance>,
        build_flags: u32,
        update: bool,
    ) -> (r: Result<(), RenderError>)
        requires
            old(device).wf(),
            old(self).wf_in(*old(device)),
        ensures
            final(device).wf(),
            final(self).wf_in(*final(device)),
            final(self).queue_index == old(self).queue_index,
            final(self).blas_container@ == old(self).blas_container@,
            (r == Err::<(), RenderError>(RenderError::AlreadyBuilt)) <==> (!update && old(self).tlas.acceleration_structure is Some),
            (r == Err::<(), RenderError>(RenderError::NotBuilt)) <==> (update && old(self).tlas.acceleration_structure is None),
            (r == Err::<(), RenderError>(RenderError::BlasIdOutOfRange)) <==> ((update == (old(self).tlas.acceleration_structure is Some)) && exists|i: int|
                0 <= i < instances@.len() && (#[trigger] instances@[i]).blas_id >= old(self).blas_container@.len()),
            r == Err::<(), RenderError>(RenderError::AlreadyBuilt) || r == Err::<
                (),
                RenderError,
            >(RenderError::NotBuilt) || r == Err::<(), RenderError>(RenderError::BlasIdOutOfRange)
                ==> *final(self) == *old(self) && *final(device) == *old(device),
            r is Err ==> final(device).submissions@ == old(device).submissions@ && final(device).completed == old(device).completed && final(self).tlas.acceleration_structure == old(self).tlas.acceleration_structure,
            spec_tlas_build_succeeds(*old(self), *old(device), instances@, update) ==> r is Ok,
            r is Ok ==> ({
                &&& final(self).tlas.flags == build_flags
                &&& final(self).tlas.acceleration_structure matches Some(a)
                &&& a.level == AccelerationStructureLevel::Top
                &&& a.address.0 != 0
                &&& (update ==> Some(a) == old(self).tlas.acceleration_structure)
                &&& (!update ==> a.buffer.info == spec_structure_storage_info(
                    spec_build_sizes(
                        spec_tlas_sizing(instances@.len() as int),
                    ).acceleration_structure_size,
                ))
                &&& final(self).tlas.instances_buffer matches Some(ib)
                &&& ib.bytes@ == spec_encode_instances(
                    spec_resolved_records(instances@, old(self).blas_container@),
                )
                &&& ib.info.size == INSTANCE_RECORD_SIZE * instances@.len()
                &&& ib.info == spec_instance_buffer_info(instances@.len() as int)
                &&& final(device).created_buffers@ == old(device).created_buffers@ + seq![
                    spec_instance_buffer_info(instances@.len() as int),
                ] + (if update {
                    Seq::<BufferInfo>::empty()
                } else {
                    seq![
                        spec_structure_storage_info(
                            spec_build_sizes(
                                spec_tlas_sizing(instances@.len() as int),
                            ).acceleration_structure_size,
                        ),
                    ]
                }) + seq![
                    spec_tlas_scratch_info(
                        spec_build_sizes(spec_tlas_sizing(instances@.len() as int)),
                        update,
                    ),
                ]
                &&& (old(self).tlas.instances_buffer matches Some(ob) ==> !final(device).allocator.spec_is_live(ob.block.id) && ib.block.id != ob.block.id)
                &&& final(device).submissions@.len() == old(device).submissions@.len() + 1
                &&& forall|i: int|
                    0 <= i < old(device).submissions@.len() ==> final(device).submissions@[i]
                        == old(device).submissions@[i]
                &&& final(device).submissions@.last().queue_family_index == old(self).queue_index
                &&& exists|scratch: crate::address::DeviceAddress|
                    #[trigger] spec_tlas_batch_ok(
                        final(device).submissions@.last(),
                        instances@.len() as u32,
                        ib.device_address->Some_0,
                        a.handle,
                        update,
                        build_flags,
                        scratch,
                    )
                &&& final(device).completed == final(device).submissions@.len()
                &&& spec_count_live(final(device).command_pools.live@) == spec_count_live(
                    old(device).command_pools.live@,
                )
            }),
    {
        // configuration and state checks, all before any device work
        if !update && self.tlas.acceleration_structure.is_some() {
            return Err(RenderError::AlreadyBuilt);
        }
        if update && self.tlas.acceleration_structure.is_none() {
            return Err(RenderError::NotBuilt);
        }
        let count = instances.len();
        let container_len = self.blas_container.len();
        let mut records: Vec<TlasInstanceRecord> = Vec::new();
        let mut i: usize = 0;
        while i < count
            invariant
                count == instances@.len(),
                i <= count,
                container_len == self.blas_container@.len(),
                *self == *old(self),
                *device == *old(device),
                old(device).wf(),
                old(self).wf_in(*old(device)),
                !(!update && old(self).tlas.acceleration_structure is Some),
                !(update && old(self).tlas.acceleration_structure is None),
                records@.len() == i,
                forall|k: int| 0 <= k < i ==> (#[trigger] instances@[k]).blas_id < container_len,
                forall|k: int|
                    0 <= k < i ==> #[trigger] records@[k] == spec_resolved_record(
                        instances@[k],
                        self.blas_container@[instances@[k].blas_id as int].acceleration_structure->Some_0.address,
                    ),
            decreases count - i,
        {
            match instances[i].resolve(&self.blas_container) {
                Ok(rec) => {
                    records.push(rec);
                },
                Err(_) => {
                    // the container holds only built entries, so the only
                    // failure is an id past the end
                    proof {
                        assert(instances@[i as int].blas_id >= container_len);
                    }
                    return Err(RenderError::BlasIdOutOfRange);
                },
            }
            i = i + 1;
        }
        proof {
            assert(records@ =~= spec_resolved_records(instances@, self.blas_container@));
        }
        // capacity checks; these too precede all device work
        if count as u64 > u32::MAX as u64 {
            return Err(RenderError::OutOfMemory);
        }
        if device.command_pools.live.len() == usize::MAX {
            return Err(RenderError::OutOfMemory);
        }
        if !update && device.acceleration_structures.live.len() == usize::MAX {
            return Err(RenderError::OutOfMemory);
        }
        let ghost d0 = *device;

        // an update discards the previous instance buffer before re-upload
        if update {
            let prev = self.tlas.instances_buffer.take();
            match prev {
                Some(ob) => {
                    device.destroy_buffer(ob);
                },
                None => {},
            }
        }
        let ghost d_freed = *device;

        // upload the resolved records into a fresh addressed, host-visible buffer
        let bytes = encode_instances(&records);
        let instance_info = BufferInfo {
            align: 15,
            size: INSTANCE_RECORD_SIZE * (count as u64),
            usage_flags: flags::BUFFER_USAGE_SHADER_DEVICE_ADDRESS,
            allocation_flags: flags::MEMORY_USAGE_DEVICE_ADDRESS | flags::MEMORY_USAGE_HOST_ACCESS,
        };
        let mut instance_buffer = match device.create_buffer(instance_info) {
            Ok(b) => b,
            Err(e) => {
                proof {
                    if spec_tlas_build_succeeds(*old(self), *old(device), instances@, update) {
                        assert(15u64 != u64::MAX && (((15u64 + 1) as u64) & 15u64) == 0)
                            by (bit_vector);
                        crate::memory::lemma_compatibility_ignores_size(
                            d0.allocator.types@,
                            Device::spec_buffer_request(instance_info),
                            crate::memory::MemoryRequest {
                                size: 0,
                                align_mask: 0,
                                usage: flags::MEMORY_USAGE_DEVICE_ADDRESS
                                    | flags::MEMORY_USAGE_HOST_ACCESS,
                                memory_types: 0xffffffffu32,
                            },
                        );
                        assert(d_freed.spec_can_create_buffer(instance_info));
                        assert(false);
                    }
                }
                return Err(e);
            },
        };
        proof {
            assert((flags::MEMORY_USAGE_DEVICE_ADDRESS | flags::MEMORY_USAGE_HOST_ACCESS)
                & flags::MEMORY_USAGE_DEVICE_ADDRESS == flags::MEMORY_USAGE_DEVICE_ADDRESS)
                by (bit_vector);
            assert((flags::MEMORY_USAGE_DEVICE_ADDRESS | flags::MEMORY_USAGE_HOST_ACCESS)
                & flags::MEMORY_USAGE_NEEDS_HOST_VISIBLE != 0) by (bit_vector);
            assert(instance_buffer.device_address is Some);
            assert(instance_buffer.block.host_visible);
            assert(instance_info == spec_instance_buffer_info(count as int));
        }
        let _ = instance_buffer.store(bytes.as_slice());
        let instance_data = instance_buffer.device_address().unwrap();
        let ghost d_instance = *device;
        proof {
            crate::memory::lemma_is_live_after_push(
                d_freed.allocator,
                d_instance.allocator,
                instance_buffer.block,
            );
        }

        // size the top-level structure for this instance count
        let mut sizing: Vec<AccelerationStructureGeometryInfo> = Vec::new();
        sizing.push(
            AccelerationStructureGeometryInfo::Instances { max_primitive_count: count as u32 },
        );
        let sizes = device.get_acceleration_structure_build_sizes(
            AccelerationStructureLevel::Top,
            build_flags,
            sizing.as_slice(),
        );
        proof {
            assert(sizing@ =~= seq![
                AccelerationStructureGeometryInfo::Instances {
                    max_primitive_count: instances@.len() as u32,
                },
            ]);
            assert(sizing@ =~= spec_tlas_sizing(count as int));
        }

        // a fresh build creates the structure and its storage now
        let mut created: Option<AccelerationStructure> = None;
        if !update {
            let storage_info = BufferInfo {
                align: 255,
                size: sizes.acceleration_structure_size,
                usage_flags: flags::BUFFER_USAGE_ACCELERATION_STRUCTURE_STORAGE
                    | flags::BUFFER_USAGE_SHADER_DEVICE_ADDRESS,
                allocation_flags: flags::MEMORY_USAGE_FAST_DEVICE_ACCESS
                    | flags::MEMORY_USAGE_DEVICE_ADDRESS,
            };
            let storage = match device.create_buffer(storage_info) {
                Ok(b) => b,
                Err(e) => {
                    proof {
                        if spec_tlas_build_succeeds(*old(self), *old(device), instances@, update) {
                            lemma_tlas_sizes_bounded(count as int);
                            assert(255u64 != u64::MAX && (((255u64 + 1) as u64) & 255u64) == 0)
                                by (bit_vector);
                            crate::memory::lemma_compatibility_ignores_size(
                                d0.allocator.types@,
                                Device::spec_buffer_request(storage_info),
                                crate::memory::MemoryRequest {
                                    size: 0,
                                    align_mask: 0,
                                    usage: flags::MEMORY_USAGE_FAST_DEVICE_ACCESS
                                        | flags::MEMORY_USAGE_DEVICE_ADDRESS,
                                    memory_types: 0xffffffffu32,
                                },
                            );
                            assert(d_instance.spec_can_create_buffer(storage_info));
                            assert(false);
                        }
                        crate::memory::lemma_is_live_prefix(
                            d_freed.allocator,
                            device.allocator,
                        );
                    }
                    device.destroy_buffer(instance_buffer);
                    proof {
                        assert forall|id: u64|
                            d0.allocator.spec_is_live(id) && (old(
                                self,
                            ).tlas.instances_buffer is Some
                                && self.tlas.instances_buffer is None ==> id != old(
                                self,
                            ).tlas.instances_buffer->Some_0.block.id)
                                implies device.allocator.spec_is_live(id) by {
                            assert(d_freed.allocator.spec_is_live(id));
                            assert(id != instance_buffer.block.id);
                        }
                        lemma_tlas_exit_wf(*self, *old(self), *old(device), *device);
                    }
                    return Err(e);
                },
            };
            proof {
                assert((flags::MEMORY_USAGE_FAST_DEVICE_ACCESS
                    | flags::MEMORY_USAGE_DEVICE_ADDRESS) & flags::MEMORY_USAGE_DEVICE_ADDRESS
                    == flags::MEMORY_USAGE_DEVICE_ADDRESS) by (bit_vector);
                assert(storage_info == spec_structure_storage_info(
                    spec_build_sizes(spec_tlas_sizing(count as int)).acceleration_structure_size,
                ));
            }
            let accel = match device.create_acceleration_structure(
                AccelerationStructureInfo {
                    level: AccelerationStructureLevel::Top,
                    region: BufferRegion::whole(storage),
                },
            ) {
                Ok(a) => a,
                Err(e) => {
                    proof {
                        crate::memory::lemma_is_live_prefix(
                            d_freed.allocator,
                            device.allocator,
                        );
                    }
                    device.destroy_buffer(instance_buffer);
                    proof {
                        assert forall|id: u64|
                            d0.allocator.spec_is_live(id) && (old(
                                self,
                            ).tlas.instances_buffer is Some
                                && self.tlas.instances_buffer is None ==> id != old(
                                self,
                            ).tlas.instances_buffer->Some_0.block.id)
                                implies device.allocator.spec_is_live(id) by {
                            assert(d_freed.allocator.spec_is_live(id));
                            assert(id != instance_buffer.block.id);
                        }
                        lemma_tlas_exit_wf(*self, *old(self), *old(device), *device);
                    }
                    return Err(e);
                },
            };
            proof {
                crate::memory::lemma_is_live_after_push(
                    d_instance.allocator,
                    device.allocator,
                    accel.buffer.block,
                );
            }
            created = Some(accel);
        }
        let ghost d_created = *device;
        let dst_handle = if update {
            match &self.tlas.acceleration_structure {
                Some(a) => a.handle,
                None => {
                    return Err(RenderError::NotBuilt);  // unreachable: checked on entry
                },
            }
        } else {
            match &created {
                Some(a) => a.handle,
                None => {
                    return Err(RenderError::NotBuilt);  // unreachable: just created
                },
            }
        };

        // scratch for the build or the update, sized by the query
        let scratch_info = BufferInfo {
            align: 255,
            size: if update {
                sizes.update_scratch_size
            } else {
                sizes.build_scratch_size
            },
            usage_flags: flags::BUFFER_USAGE_SHADER_DEVICE_ADDRESS,
            allocation_flags: flags::MEMORY_USAGE_FAST_DEVICE_ACCESS
                | flags::MEMORY_USAGE_DEVICE_ADDRESS,
        };
        let ghost created_id = if created is Some {
            created->Some_0.buffer.block.id
        } else {
            0u64
        };
        let scratch = match device.create_buffer(scratch_info) {
            Ok(b) => b,
            Err(e) => {
                proof {
                    if spec_tlas_build_succeeds(*old(self), *old(device), instances@, update) {
                        lemma_tlas_sizes_bounded(count as int);
                        assert(255u64 != u64::MAX && (((255u64 + 1) as u64) & 255u64) == 0)
                            by (bit_vector);
                        crate::memory::lemma_compatibility_ignores_size(
                            d0.allocator.types@,
                            Device::spec_buffer_request(scratch_info),
                            crate::memory::MemoryRequest {
                                size: 0,
                                align_mask: 0,
                                usage: flags::MEMORY_USAGE_FAST_DEVICE_ACCESS
                                    | flags::MEMORY_USAGE_DEVICE_ADDRESS,
                                memory_types: 0xffffffffu32,
                            },
                        );
                        assert(d_created.spec_can_create_buffer(scratch_info));
                        assert(false);
                    }
                }
                let ghost created_was = created is Some;
                match created {
                    Some(a) => device.destroy_acceleration_structure(a),
                    None => {},
                }
                device.destroy_buffer(instance_buffer);
                proof {
                    assert forall|id: u64|
                        d0.allocator.spec_is_live(id) && (old(
                            self,
                        ).tlas.instances_buffer is Some
                            && self.tlas.instances_buffer is None ==> id != old(
                            self,
                        ).tlas.instances_buffer->Some_0.block.id)
                            implies device.allocator.spec_is_live(id) by {
                        assert(d_freed.allocator.spec_is_live(id));
                        assert(d_instance.allocator.spec_is_live(id));
                        assert(d_created.allocator.spec_is_live(id));
                        if created_was {
                            assert(id != created_id);
                        }
                        assert(id != instance_buffer.block.id);
                    }
                    lemma_tlas_exit_wf(*self, *old(self), *old(device), *device);
                }
                return Err(e);
            },
        };
        proof {
            assert((flags::MEMORY_USAGE_FAST_DEVICE_ACCESS | flags::MEMORY_USAGE_DEVICE_ADDRESS)
                & flags::MEMORY_USAGE_DEVICE_ADDRESS == flags::MEMORY_USAGE_DEVICE_ADDRESS)
                by (bit_vector);
        }
        proof {
            assert(scratch_info == spec_tlas_scratch_info(
                spec_build_sizes(spec_tlas_sizing(count as int)),
                update,
            ));
        }
        let scratch_addr = scratch.device_address().unwrap();
        let ghost d_scratch = *device;
        let ghost scratch_id = scratch.block.id;
        proof {
            crate::memory::lemma_is_live_after_push(
                d_created.allocator,
                d_scratch.allocator,
                scratch.block,
            );
        }

        // record the upload barrier and the build, submit once, wait, and
        // tear the transient objects down
        let mut pool = CommandPool::new(device, self.queue_index, flags::COMMAND_POOL_TRANSIENT);
        let mut buffers = pool.create_command_buffers(CommandBufferLevel::Primary, 1);
        let mut cb = match buffers.pop() {
            Some(cb) => cb,
            None => {
                return Err(RenderError::OutOfMemory);  // unreachable: one buffer was allocated
            },
        };
        cb.begin();
        cb.pipeline_barrier(
            flags::STAGE_TRANSFER,
            flags::STAGE_ACCELERATION_STRUCTURE_BUILD,
            flags::ACCESS_TRANSFER_WRITE,
            flags::ACCESS_ACCELERATION_STRUCTURE_WRITE,
        );
        let mut geometries: Vec<AccelerationStructureGeometry> = Vec::new();
        geometries.push(
            AccelerationStructureGeometry::Instances {
                flags: 0,
                data: instance_data,
                primitive_count: count as u32,
            },
        );
        let mut ranges: Vec<BuildRangeInfo> = Vec::new();
        ranges.push(
            BuildRangeInfo {
                primitive_count: count as u32,
                primitive_offset: 0,
                first_vertex: 0,
                transform_offset: 0,
            },
        );
        let cmd = BuildCommand {
            level: AccelerationStructureLevel::Top,
            mode: if update {
                BuildMode::Update
            } else {
                BuildMode::Build
            },
            src: if update {
                dst_handle
            } else {
                0
            },
            dst: dst_handle,
            flags: build_flags,
            geometries,
            ranges,
            scratch: scratch_addr,
        };
        cb.build_acceleration_structures(cmd);
        let mut recorded: Vec<CommandBuffer> = Vec::new();
        recorded.push(cb);
        pool.submit_and_wait(device, recorded);
        pool.destroy(device);
        let ghost ib_val = instance_buffer;
        let ghost created_val = created;
        device.destroy_buffer(scratch);
        proof {
            crate::registry::lemma_count_insert_then_remove(d0.command_pools.live@);
        }

        // commit the new state
        self.tlas.flags = build_flags;
        if !update {
            match created {
                Some(a) => {
                    self.tlas.acceleration_structure = Some(a);
                },
                None => {},
            }
        }
        self.tlas.instances_buffer = Some(instance_buffer);
        proof {
            assert(device.created_buffers@ =~= old(device).created_buffers@ + seq![
                spec_instance_buffer_info(count as int),
            ] + (if update {
                Seq::<BufferInfo>::empty()
            } else {
                seq![
                    spec_structure_storage_info(
                        spec_build_sizes(spec_tlas_sizing(count as int)).acceleration_structure_size,
                    ),
                ]
            }) + seq![
                spec_tlas_scratch_info(spec_build_sizes(spec_tlas_sizing(count as int)), update),
            ]);
            assert(ib_val.info == spec_instance_buffer_info(count as int));
            // an id live before the scratch was created, other than the
            // scratch block's own, is live at the end
            assert forall|id: u64|
                d_scratch.allocator.spec_is_live(id) && id != scratch_id implies device
                .allocator.spec_is_live(id) by {}
            // every container entry survived the whole build
            assert forall|i: int| 0 <= i < self.blas_container@.len() implies (
            #[trigger] self.blas_container@[i]).acceleration_structure is Some
                && spec_accel_live_in(
                self.blas_container@[i].acceleration_structure->Some_0,
                *device,
            ) by {
                let a = self.blas_container@[i].acceleration_structure->Some_0;
                let id = a.buffer.block.id;
                assert(spec_accel_live_in(a, d0));
                if update && old(self).tlas.instances_buffer is Some {
                    assert(old(self).tlas.instances_buffer->Some_0.block.id != id);
                }
                assert(d_freed.allocator.spec_is_live(id));
                assert(d_instance.allocator.spec_is_live(id));
                assert(d_created.allocator.spec_is_live(id));
                assert(d_scratch.allocator.spec_is_live(id));
                assert(id != scratch_id);
            }
            // the structure: reused on update, freshly created otherwise
            assert(self.tlas.acceleration_structure matches Some(a) ==> spec_accel_live_in(
                a,
                *device,
            )) by {
                let a = self.tlas.acceleration_structure->Some_0;
                let id = a.buffer.block.id;
                if update {
                    assert(spec_accel_live_in(a, d0));
                    if old(self).tlas.instances_buffer is Some {
                        assert(old(self).tlas.instances_buffer->Some_0.block.id != id);
                    }
                    assert(d_freed.allocator.spec_is_live(id));
                    assert(d_instance.allocator.spec_is_live(id));
                    assert(d_created.allocator.spec_is_live(id));
                } else {
                    assert(a == created_val->Some_0);
                    assert(d_created.allocator.spec_is_live(id));
                }
                assert(d_scratch.allocator.spec_is_live(id));
                assert(id != scratch_id);
            }
            // the fresh instance buffer
            assert(self.tlas.instances_buffer matches Some(ib) ==> spec_buffer_live_in(
                ib,
                *device,
            )) by {
                let id = ib_val.block.id;
                assert(d_instance.allocator.spec_is_live(id));
                assert(d_created.allocator.spec_is_live(id));
                assert(d_scratch.allocator.spec_is_live(id));
                assert(id != scratch_id);
            }
            // ownership stays pairwise disjoint
            assert forall|i: int|
                0 <= i < self.blas_container@.len() implies ib_val.block.id != (
            #[trigger] self.blas_container@[i]).acceleration_structure->Some_0.buffer.block.id by {
                let id = self.blas_container@[i].acceleration_structure->Some_0.buffer.block.id;
                assert(spec_accel_live_in(
                    self.blas_container@[i].acceleration_structure->Some_0,
                    d0,
                ));
                if update && old(self).tlas.instances_buffer is Some {
                    assert(old(self).tlas.instances_buffer->Some_0.block.id != id);
                }
                assert(d_freed.allocator.spec_is_live(id));
            }
            assert(self.tlas.acceleration_structure matches Some(a) ==> ib_val.block.id
                != a.buffer.block.id) by {
                let a = self.tlas.acceleration_structure->Some_0;
                let id = a.buffer.block.id;
                if update {
                    assert(spec_accel_live_in(a, d0));
                    if old(self).tlas.instances_buffer is Some {
                        assert(old(self).tlas.instances_buffer->Some_0.block.id != id);
                    }
                    assert(d_freed.allocator.spec_is_live(id));
                } else {
                    assert(d_instance.allocator.spec_is_live(ib_val.block.id));
                    assert(!d_instance.allocator.spec_is_live(id));
                }
            }
            assert(self.tlas.acceleration_structure matches Some(a) ==> (forall|i: int|
                0 <= i < self.blas_container@.len() ==> a.buffer.block.id != (
                #[trigger] self.blas_container@[i]).acceleration_structure->Some_0.buffer.block.id))
                by {
                if !update {
                    let a = self.tlas.acceleration_structure->Some_0;
                    assert forall|i: int| 0 <= i < self.blas_container@.len() implies a
                        .buffer.block.id != (
                    #[trigger] self.blas_container@[i]).acceleration_structure->Some_0.buffer.block.id by {
                        let id = self.blas_container@[i].acceleration_structure->Some_0.buffer.block.id;
                        assert(spec_accel_live_in(
                            self.blas_container@[i].acceleration_structure->Some_0,
                            d0,
                        ));
                        if update && old(self).tlas.instances_buffer is Some {
                            assert(old(self).tlas.instances_buffer->Some_0.block.id != id);
                        }
                        assert(d_freed.allocator.spec_is_live(id));
                        assert(d_instance.allocator.spec_is_live(id));
                        assert(!d_instance.allocator.spec_is_live(a.buffer.block.id));
                    }
                }
            }
            // an updated build never resurrects the discarded buffer's block
            if update && old(self).tlas.instances_buffer is Some {
                let prev = old(self).tlas.instances_buffer->Some_0.block.id;
                assert(prev < d0.allocator.next_block_id);
                assert(!d_freed.allocator.spec_is_live(prev));
                assert(!d_instance.allocator.spec_is_live(prev));
                assert(!d_created.allocator.spec_is_live(prev));
                assert(!d_scratch.allocator.spec_is_live(prev));
                assert(!device.allocator.spec_is_live(prev));
                assert(ib_val.block.id != prev);
            }
            assert(self.wf_in(*device));
            assert(spec_tlas_batch_ok(
                device.submissions@.last(),
                instances@.len() as u32,
                instance_data,
                dst_handle,
                update,
                build_flags,
                scratch_addr,
            ));
        }
        Ok(())
    }
}

/// Blocks live in `d0` are still live in `d1` when `d1` preserves everything
/// live in `d0` except ids owned by `built` — none of which were live in `d0`.
proof fn lemma_live_outside_survives(d0: Device, d1: Device, built: Seq<AccelerationStructure>)
    requires
        forall|k: int|
            0 <= k < built.len() ==> !d0.allocator.spec_is_live(
                (#[trigger] built[k]).buffer.block.id,
            ),
        forall|id: u64|
            d0.allocator.spec_is_live(id) && !spec_id_among(id, built) ==> d1.allocator.spec_is_live(
                id,
            ),
    ensures
        forall|id: u64|
            d0.allocator.spec_is_live(id) ==> #[trigger] d1.allocator.spec_is_live(id),
{
    assert forall|id: u64| d0.allocator.spec_is_live(id) implies #[trigger] d1.allocator.spec_is_live(
        id,
    ) by {
        if spec_id_among(id, built) {
            let k = choose|k: int| 0 <= k < built.len() && (#[trigger] built[k]).buffer.block.id == id;
            assert(!d0.allocator.spec_is_live(built[k].buffer.block.id));
        }
    }
}

impl RaytracingBuilder {
    /// Tears the builder down in dependency order: the top-level structure's
    /// instance buffer, then the top-level structure, then every bottom-level
    /// structure with its storage. Afterwards none of the builder's blocks is
    /// live, and every block it did not own is untouched. Consuming the
    /// builder makes a second teardown impossible.
    pub fn destroy(self, device: &mut Device)
        requires
            old(device).wf(),
            self.wf_in(*old(device)),
        ensures
            final(device).wf(),
            final(device).submissions@ == old(device).submissions@,
            final(device).completed == old(device).completed,
            forall|id: u64|
                #[trigger] final(device).allocator.spec_is_live(id) == (old(
                    device,
                ).allocator.spec_is_live(id) && !spec_owns_id(self, id)),
    {
        let ghost b0 = self;
        let RaytracingBuilder { blas_container, tlas, queue_index: _ } = self;
        let Tlas { acceleration_structure, flags: _, instances_buffer } = tlas;
        match instances_buffer {
            Some(b) => device.destroy_buffer(b),
            None => {},
        }
        let ghost d_no_ib = *device;
        match acceleration_structure {
            Some(a) => device.destroy_acceleration_structure(a),
            None => {},
        }
        let ghost d_no_tlas = *device;
        // strip the entries down to their structures, newest first
        let mut structures: Vec<AccelerationStructure> = Vec::new();
        let mut entries = blas_container;
        let ghost all = entries@;
        proof {
            assert(all.subrange(0, all.len() as int) =~= all);
        }
        while entries.len() > 0
            invariant
                all == b0.blas_container@,
                b0.wf_in(*old(device)),
                entries@.len() <= all.len(),
                entries@ == all.subrange(0, entries@.len() as int),
                structures@.len() == all.len() - entries@.len(),
                forall|k: int|
                    0 <= k < structures@.len() ==> #[trigger] structures@[k] == all[all.len() - 1
                        - k].acceleration_structure->Some_0,
            decreases entries@.len(),
        {
            let ghost len0 = entries@.len() as int;
            let ghost pre = entries@;
            let entry = match entries.pop() {
                Some(e) => e,
                None => {
                    return ;  // unreachable: the loop condition guarantees an element
                },
            };
            proof {
                assert(entries@ =~= all.subrange(0, len0 - 1));
                assert(entry == all[len0 - 1]);
            }
            proof {
                assert(b0.blas_container@[len0 - 1].acceleration_structure is Some);
            }
            match entry.acceleration_structure {
                Some(a) => {
                    structures.push(a);
                },
                None => {},
            }
        }
        proof {
            assert forall|k: int| 0 <= k < structures@.len() implies spec_accel_live_in(
                #[trigger] structures@[k],
                d_no_tlas,
            ) by {
                let i = all.len() - 1 - k;
                let a = b0.blas_container@[i].acceleration_structure->Some_0;
                assert(spec_accel_live_in(a, *old(device)));
                if b0.tlas.instances_buffer is Some {
                    assert(b0.tlas.instances_buffer->Some_0.block.id != a.buffer.block.id);
                }
                if b0.tlas.acceleration_structure is Some {
                    assert(b0.tlas.acceleration_structure->Some_0.buffer.block.id
                        != a.buffer.block.id);
                }
            }
            assert forall|k1: int, k2: int|
                0 <= k1 < structures@.len() && 0 <= k2 < structures@.len() && k1
                    != k2 implies (#[trigger] structures@[k1]).buffer.block.id != (
                #[trigger] structures@[k2]).buffer.block.id by {
                let i1 = all.len() - 1 - k1;
                let i2 = all.len() - 1 - k2;
                assert(b0.blas_container@[i1].acceleration_structure->Some_0.buffer.block.id != (
                b0.blas_container@[i2]).acceleration_structure->Some_0.buffer.block.id);
            }
        }
        let ghost structs = structures@;
        rollback_structures(device, structures);
        proof {
            assert forall|id: u64|
                #[trigger] device.allocator.spec_is_live(id) == (old(
                    device,
                ).allocator.spec_is_live(id) && !spec_owns_id(b0, id)) by {
                if spec_id_among(id, structs) {
                    let k = choose|k: int|
                        0 <= k < structs.len() && (#[trigger] structs[k]).buffer.block.id == id;
                    assert(b0.blas_container@[all.len() - 1
                        - k].acceleration_structure->Some_0.buffer.block.id == id);
                    assert(spec_owns_id(b0, id));
                }
                if exists|i: int|
                    0 <= i < b0.blas_container@.len() && (
                    #[trigger] b0.blas_container@[i]).acceleration_structure->Some_0.buffer.block.id
                        == id {
                    let i = choose|i: int|
                        0 <= i < b0.blas_container@.len() && (
                        #[trigger] b0.blas_container@[i]).acceleration_structure->Some_0.buffer.block.id
                            == id;
                    assert(structs[all.len() - 1 - i].buffer.block.id == id);
                    assert(spec_id_among(id, structs));
                }
            }
        }
    }
}

/// Destroys structures created during a failed batch, newest first, leaving
/// every other live block untouched: all-or-nothing on the device.
fn rollback_structures(device: &mut Device, built: Vec<AccelerationStructure>)
    requires
        old(device).wf(),
        forall|k: int|
            0 <= k < built@.len() ==> spec_accel_live_in(#[trigger] built@[k], *old(device)),
        forall|k1: int, k2: int|
            0 <= k1 < built@.len() && 0 <= k2 < built@.len() && k1 != k2 ==> (
            #[trigger] built@[k1]).buffer.block.id != (#[trigger] built@[k2]).buffer.block.id,
    ensures
        final(device).wf(),
        final(device).submissions@ == old(device).submissions@,
        final(device).completed == old(device).completed,
        final(device).command_pools == old(device).command_pools,
        final(device).descriptor_pools == old(device).descriptor_pools,
        final(device).descriptor_set_layouts == old(device).descriptor_set_layouts,
        final(device).shader_modules == old(device).shader_modules,
        final(device).next_address == old(device).next_address,
        final(device).allocator.types@ == old(device).allocator.types@,
        final(device).allocator.next_block_id == old(device).allocator.next_block_id,
        final(device).buffers.live@.len() == old(device).buffers.live@.len(),
        final(device).acceleration_structures.live@.len() == old(device).acceleration_structures.live@.len(),
        forall|id: u64|
            final(device).allocator.spec_is_live(id) == (old(device).allocator.spec_is_live(id)
                && !spec_id_among(id, built@)),
{
    let mut remaining = built;
    let ghost all = remaining@;
    proof {
        assert(all.subrange(0, all.len() as int) =~= all);
        assert(all.subrange(all.len() as int, all.len() as int) =~= Seq::<
            AccelerationStructure,
        >::empty());
    }
    while remaining.len() > 0
        invariant
            device.wf(),
            remaining@.len() <= all.len(),
            remaining@ == all.subrange(0, remaining@.len() as int),
            forall|k: int| 0 <= k < all.len() ==> spec_accel_live_in(#[trigger] all[k], *old(device)),
            forall|k1: int, k2: int|
                0 <= k1 < all.len() && 0 <= k2 < all.len() && k1 != k2 ==> (
                #[trigger] all[k1]).buffer.block.id != (#[trigger] all[k2]).buffer.block.id,
            device.submissions@ == old(device).submissions@,
            device.completed == old(device).completed,
            device.command_pools == old(device).command_pools,
            device.descriptor_pools == old(device).descriptor_pools,
            device.descriptor_set_layouts == old(device).descriptor_set_layouts,
            device.shader_modules == old(device).shader_modules,
            device.next_address == old(device).next_address,
            device.allocator.types@ == old(device).allocator.types@,
            device.allocator.next_block_id == old(device).allocator.next_block_id,
            device.buffers.live@.len() == old(device).buffers.live@.len(),
            device.acceleration_structures.live@.len() == old(device).acceleration_structures.live@.len(),
            forall|id: u64|
                device.allocator.spec_is_live(id) == (old(device).allocator.spec_is_live(id)
                    && !spec_id_among(id, all.subrange(remaining@.len() as int, all.len() as int))),
        decreases remaining@.len(),
    {
        let ghost len0 = remaining@.len() as int;
        let ghost pre = remaining@;
        let a = match remaining.pop() {
            Some(a) => a,
            None => {
                return ;  // unreachable: the loop condition guarantees an element
            },
        };
        proof {
            assert(pre.len() == len0 && len0 > 0);
            assert(pre == all.subrange(0, len0));
            assert(a == pre[len0 - 1]);
            assert(all.subrange(0, len0)[len0 - 1] == all[len0 - 1]);
            assert(remaining@ == pre.subrange(0, len0 - 1));
            assert forall|k: int| 0 <= k < len0 - 1 implies remaining@[k] == all[k] by {
                assert(remaining@[k] == pre.subrange(0, len0 - 1)[k]);
                assert(pre[k] == all.subrange(0, len0)[k]);
            }
            assert(remaining@ =~= all.subrange(0, len0 - 1));
            assert(a == all[len0 - 1]);
            assert(spec_accel_live_in(a, *old(device)));
            // the structure is still live: its id is not among the destroyed suffix
            assert(!spec_id_among(a.buffer.block.id, all.subrange(len0, all.len() as int)));
            assert(device.allocator.spec_is_live(a.buffer.block.id));
        }
        device.destroy_acceleration_structure(a);
        proof {
            assert forall|id: u64|
                device.allocator.spec_is_live(id) == (old(device).allocator.spec_is_live(id)
                    && !spec_id_among(id, all.subrange(len0 - 1, all.len() as int))) by {
                let suffix = all.subrange(len0, all.len() as int);
                let suffix1 = all.subrange(len0 - 1, all.len() as int);
                assert(suffix =~= suffix1.subrange(1, suffix1.len() as int));
                if spec_id_among(id, suffix1) {
                    let k = choose|k: int|
                        0 <= k < suffix1.len() && (#[trigger] suffix1[k]).buffer.block.id == id;
                    if k == 0 {
                        assert(id == a.buffer.block.id);
                    } else {
                        assert(suffix[k - 1].buffer.block.id == id);
                        assert(spec_id_among(id, suffix));
                    }
                }
                if id == a.buffer.block.id {
                    assert(suffix1[0].buffer.block.id == id);
                    assert(spec_id_among(id, suffix1));
                }
                if spec_id_among(id, suffix) {
                    let k = choose|k: int|
                        0 <= k < suffix.len() && (#[trigger] suffix[k]).buffer.block.id == id;
                    assert(suffix1[k + 1].buffer.block.id == id);
                    assert(spec_id_among(id, suffix1));
                }
            }
        }
    }
    proof {
        assert(all.subrange(0, all.len() as int) =~= all);
    }
}

/// Some structure in `s` owns the block with this id.
pub open spec fn spec_id_among(id: u64, s: Seq<AccelerationStructure>) -> bool {
    exists|k: int| 0 <= k < s.len() && (#[trigger] s[k]).buffer.block.id == id
}

} // verus!
