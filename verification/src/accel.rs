//! Acceleration structures: geometry descriptions, build inputs, instance
//! records and their exact byte encoding.
//!
//! An instance record is laid out as the device consumes it: 48 bytes of
//! row-major 3x4 transform (float bit patterns), a 24/8-bit packed custom id
//! and visibility mask, a 24/8-bit packed hit-group offset and flags, and the
//! 64-bit address of the referenced bottom-level structure — 64 bytes in all,
//! little-endian.

use vstd::prelude::*;

use crate::address::DeviceAddress;
use crate::error::RenderError;
use crate::flags;
use crate::resource::{BufferRegion, BufferResource};
use crate::vertex::Vertex;

verus! {

/// Bytes of one encoded instance record.
pub const INSTANCE_RECORD_SIZE: u64 = 64;

/// The level of an acceleration structure: bottom level indexes one mesh's
/// triangles, top level indexes instances of bottom-level structures.
#[derive(Clone, Copy, Debug, PartialEq, Eq, Structural)]
pub enum AccelerationStructureLevel {
    /// Bottom level: triangle geometry of one mesh.
    Bottom,
    /// Top level: instances referencing bottom-level structures.
    Top,
}

/// Sizes reported by the device's build-size query: how large the structure's
/// storage must be, and how much scratch a build or an update needs.
#[derive(Clone, Copy, Debug, PartialEq, Eq, Structural)]
pub struct AccelerationStructureBuildSizesInfo {
    /// Byte size of the structure's backing storage.
    pub acceleration_structure_size: u64,
    /// Byte size of scratch memory for an update.
    pub update_scratch_size: u64,
    /// Byte size of scratch memory for a fresh build.
    pub build_scratch_size: u64,
}

/// Sizing-time geometry description: worst-case counts only, no data.
#[derive(Clone, Copy, Debug, PartialEq, Eq, Structural)]
pub enum AccelerationStructureGeometryInfo {
    /// Triangle geometry with worst-case primitive and vertex counts.
    Triangles {
        /// Largest primitive count a build may supply.
        max_primitive_count: u32,
        /// Largest vertex count a build may supply.
        max_vertex_count: u32,
        /// Vertex position format (`flags::FORMAT_*`).
        vertex_format: u32,
        /// Index type (`flags::INDEX_TYPE_*`).
        index_type: u32,
    },
    /// Instance geometry with a worst-case instance count.
    Instances {
        /// Largest instance count a build may supply.
        max_primitive_count: u32,
    },
}

/// Build-time geometry: device addresses of the actual data.
#[derive(Clone, Copy, Debug, PartialEq, Eq, Structural)]
pub enum AccelerationStructureGeometry {
    /// Triangle geometry read from vertex (and optionally index) buffers.
    Triangles {
        /// Geometry flags (`flags::GEOMETRY_*`).
        flags: u32,
        /// Vertex position format (`flags::FORMAT_*`).
        vertex_format: u32,
        /// Address of the vertex data.
        vertex_data: DeviceAddress,
        /// Byte stride between vertices.
        vertex_stride: u64,
        /// Number of vertices.
        vertex_count: u32,
        /// First vertex of the geometry.
        first_vertex: u32,
        /// Number of triangles.
        primitive_count: u32,
        /// Address of the index data, if indexed.
        index_data: Option<DeviceAddress>,
        /// Address of an optional transform matrix.
        transform_data: Option<DeviceAddress>,
    },
    /// Instance geometry read from an instance-record buffer.
    Instances {
        /// Geometry flags (`flags::GEOMETRY_*`).
        flags: u32,
        /// Address of the encoded instance records.
        data: DeviceAddress,
        /// Number of instances.
        primitive_count: u32,
    },
}

/// Per-geometry range of a build command.
#[derive(Clone, Copy, Debug, PartialEq, Eq, Structural)]
pub struct BuildRangeInfo {
    /// Number of primitives to build.
    pub primitive_count: u32,
    /// Byte offset into the data the primitives start at.
    pub primitive_offset: u32,
    /// First vertex of the range.
    pub first_vertex: u32,
    /// Byte offset of the optional transform.
    pub transform_offset: u32,
}

/// Description of an acceleration structure to create: its level and the
/// buffer region that will back it.
pub struct AccelerationStructureInfo {
    /// Bottom or top level.
    pub level: AccelerationStructureLevel,
    /// The storage region backing the structure.
    pub region: BufferRegion,
}

/// A created acceleration structure: the native handle, its device address,
/// and the storage buffer it owns.
pub struct AccelerationStructure {
    /// Native handle; always the registry index plus one.
    pub handle: u64,
    /// Slot in the device's acceleration-structure registry.
    pub index: usize,
    /// Device address by which builds and shaders reference the structure.
    pub address: DeviceAddress,
    /// The level the structure was created with.
    pub level: AccelerationStructureLevel,
    /// The storage buffer the structure owns.
    pub buffer: BufferResource,
}

impl AccelerationStructure {
    /// Well-formedness: the handle encodes the registry slot, the owned
    /// buffer is well-formed, and the address is the buffer's.
    pub open spec fn wf(self) -> bool {
        &&& self.handle == self.index + 1
        &&& self.buffer.wf()
        &&& self.buffer.device_address == Some(self.address)
    }
}

/// One instance of a bottom-level structure inside a top-level build:
/// a reference to a BLAS by container index, shading indices, and a
/// row-major 3x4 transform given as float bit patterns.
#[derive(Clone, Copy, Debug)]
pub struct AccelerationStructureInstance {
    /// Index of the referenced BLAS in the builder's container.
    pub blas_id: u32,
    /// Application-chosen id handed to shaders (low 24 bits used).
    pub instance_custom_id: u32,
    /// Offset into the shader binding table (low 24 bits used).
    pub hit_group_id: u32,
    /// Visibility mask (low 8 bits used).
    pub visibility_mask: u32,
    /// Instance flags (`flags::INSTANCE_*`, low 8 bits used).
    pub flags: u32,
    /// Row-major 3x4 transform as 32-bit float bit patterns.
    pub transform: [u32; 12],
}

/// Bit pattern of the 32-bit float 1.0.
pub const FLOAT_ONE_BITS: u32 = 0x3f800000;

impl AccelerationStructureInstance {
    /// An instance referencing `blas_id` with the identity transform and all
    /// other fields zero.
    pub fn new(blas_id: u32) -> (r: AccelerationStructureInstance)
        ensures
            r.blas_id == blas_id,
            r.instance_custom_id == 0,
            r.hit_group_id == 0,
            r.visibility_mask == 0,
            r.flags == 0,
            r.transform@ == spec_identity_transform(),
    {
        let transform: [u32; 12] = [
            FLOAT_ONE_BITS,
            0,
            0,
            0,
            0,
            FLOAT_ONE_BITS,
            0,
            0,
            0,
            0,
            FLOAT_ONE_BITS,
            0,
        ];
        proof {
            assert(transform@ == spec_identity_transform());
        }
        AccelerationStructureInstance {
            blas_id,
            instance_custom_id: 0,
            hit_group_id: 0,
            visibility_mask: 0,
            flags: 0,
            transform,
        }
    }

    /// Resolves the instance against the built BLAS container: looks the
    /// `blas_id` up and embeds that structure's device address. Succeeds
    /// exactly when the id is in range and that entry has been built; an id
    /// past the end reports `BlasIdOutOfRange` before any device work.
    pub fn resolve(&self, blas_container: &Vec<BlasEntry>) -> (r: Result<
        TlasInstanceRecord,
        RenderError,
    >)
        ensures
            (r is Ok) == (self.blas_id < blas_container@.len()
                && blas_container@[self.blas_id as int].acceleration_structure is Some),
            r matches Ok(rec) ==> rec == spec_resolved_record(
                *self,
                blas_container@[self.blas_id as int].acceleration_structure->Some_0.address,
            ),
            r == Err::<TlasInstanceRecord, RenderError>(RenderError::BlasIdOutOfRange)
                <==> self.blas_id >= blas_container@.len(),
            r == Err::<TlasInstanceRecord, RenderError>(RenderError::BlasNotBuilt)
                <==> (self.blas_id < blas_container@.len()
                && blas_container@[self.blas_id as int].acceleration_structure is None),
    {
        if self.blas_id as usize >= blas_container.len() {
            return Err(RenderError::BlasIdOutOfRange);
        }
        match &blas_container[self.blas_id as usize].acceleration_structure {
            Some(accel) => Ok(
                TlasInstanceRecord {
                    transform: self.transform,
                    instance_custom_id: self.instance_custom_id,
                    visibility_mask: self.visibility_mask,
                    hit_group_id: self.hit_group_id,
                    flags: self.flags,
                    acceleration_structure_reference: accel.address,
                },
            ),
            None => Err(RenderError::BlasNotBuilt),
        }
    }
}

/// The identity 3x4 transform as float bit patterns.
pub open spec fn spec_identity_transform() -> Seq<u32> {
    seq![FLOAT_ONE_BITS as u32, 0, 0, 0, 0, FLOAT_ONE_BITS as u32, 0, 0, 0, 0, FLOAT_ONE_BITS as u32, 0]
}

/// The record `resolve` produces for an instance once the referenced BLAS
/// address is known.
pub open spec fn spec_resolved_record(
    inst: AccelerationStructureInstance,
    blas_address: DeviceAddress,
) -> TlasInstanceRecord {
    TlasInstanceRecord {
        transform: inst.transform,
        instance_custom_id: inst.instance_custom_id,
        visibility_mask: inst.visibility_mask,
        hit_group_id: inst.hit_group_id,
        flags: inst.flags,
        acceleration_structure_reference: blas_address,
    }
}

/// An instance resolved to the form the device reads: the referenced BLAS's
/// device address in place of the container index.
#[derive(Clone, Copy, Debug)]
pub struct TlasInstanceRecord {
    /// Row-major 3x4 transform as 32-bit float bit patterns.
    pub transform: [u32; 12],
    /// Application-chosen id (low 24 bits encoded).
    pub instance_custom_id: u32,
    /// Visibility mask (low 8 bits encoded).
    pub visibility_mask: u32,
    /// Shader-binding-table offset (low 24 bits encoded).
    pub hit_group_id: u32,
    /// Instance flags (low 8 bits encoded).
    pub flags: u32,
    /// Device address of the referenced bottom-level structure.
    pub acceleration_structure_reference: DeviceAddress,
}

/// The four little-endian bytes of a 32-bit word.
pub open spec fn spec_u32_le(x: u32) -> Seq<u8> {
    seq![
        (x & 0xff) as u8,
        ((x >> 8) & 0xff) as u8,
        ((x >> 16) & 0xff) as u8,
        ((x >> 24) & 0xff) as u8,
    ]
}

/// The eight little-endian bytes of a 64-bit word.
pub open spec fn spec_u64_le(x: u64) -> Seq<u8> {
    seq![
        (x & 0xff) as u8,
        ((x >> 8) & 0xff) as u8,
        ((x >> 16) & 0xff) as u8,
        ((x >> 24) & 0xff) as u8,
        ((x >> 32) & 0xff) as u8,
        ((x >> 40) & 0xff) as u8,
        ((x >> 48) & 0xff) as u8,
        ((x >> 56) & 0xff) as u8,
    ]
}

/// A 24-bit value packed with an 8-bit value in the top byte.
pub open spec fn spec_pack_24_8(low: u32, high: u32) -> u32 {
    (low & 0x00ffffff) | (high << 24)
}

/// Words encoded back to back, little-endian.
pub open spec fn spec_encode_words(words: Seq<u32>) -> Seq<u8>
    decreases words.len(),
{
    if words.len() == 0 {
        Seq::empty()
    } else {
        spec_u32_le(words[0]) + spec_encode_words(words.subrange(1, words.len() as int))
    }
}

/// The 64 bytes of one instance record, as the device reads them.
pub open spec fn spec_encode_instance(rec: TlasInstanceRecord) -> Seq<u8> {
    spec_encode_words(rec.transform@) + spec_u32_le(
        spec_pack_24_8(rec.instance_custom_id, rec.visibility_mask),
    ) + spec_u32_le(spec_pack_24_8(rec.hit_group_id, rec.flags)) + spec_u64_le(
        rec.acceleration_structure_reference.0,
    )
}

/// Instance records encoded back to back.
pub open spec fn spec_encode_instances(recs: Seq<TlasInstanceRecord>) -> Seq<u8>
    decreases recs.len(),
{
    if recs.len() == 0 {
        Seq::empty()
    } else {
        spec_encode_instance(recs[0]) + spec_encode_instances(recs.subrange(1, recs.len() as int))
    }
}

/// Encoded words take four bytes each.
pub proof fn lemma_encode_words_len(words: Seq<u32>)
    ensures
        spec_encode_words(words).len() == 4 * words.len(),
    decreases words.len(),
{
    if words.len() > 0 {
        lemma_encode_words_len(words.subrange(1, words.len() as int));
    }
}

/// Appending a word appends its four bytes.
pub proof fn lemma_encode_words_push(words: Seq<u32>, w: u32)
    ensures
        spec_encode_words(words.push(w)) == spec_encode_words(words) + spec_u32_le(w),
    decreases words.len(),
{
    let pushed = words.push(w);
    if words.len() == 0 {
        assert(pushed.subrange(1, pushed.len() as int) =~= Seq::<u32>::empty());
        assert(spec_encode_words(Seq::<u32>::empty()) =~= Seq::<u8>::empty());
        assert(pushed[0] == w);
        assert(spec_encode_words(pushed) =~= spec_u32_le(w));
        assert(spec_encode_words(words) + spec_u32_le(w) =~= spec_u32_le(w));
    } else {
        assert(pushed.subrange(1, pushed.len() as int) =~= words.subrange(
            1,
            words.len() as int,
        ).push(w));
        lemma_encode_words_push(words.subrange(1, words.len() as int), w);
        assert(spec_encode_words(pushed) =~= spec_encode_words(words) + spec_u32_le(w));
    }
}

/// One encoded instance record takes exactly `INSTANCE_RECORD_SIZE` bytes.
pub proof fn lemma_encode_instance_len(rec: TlasInstanceRecord)
    ensures
        spec_encode_instance(rec).len() == INSTANCE_RECORD_SIZE,
{
    lemma_encode_words_len(rec.transform@);
}

/// Appending a record appends its 64 bytes.
pub proof fn lemma_encode_instances_push(recs: Seq<TlasInstanceRecord>, rec: TlasInstanceRecord)
    ensures
        spec_encode_instances(recs.push(rec)) == spec_encode_instances(recs) + spec_encode_instance(
            rec,
        ),
    decreases recs.len(),
{
    let pushed = recs.push(rec);
    if recs.len() == 0 {
        assert(pushed.subrange(1, pushed.len() as int) =~= Seq::<TlasInstanceRecord>::empty());
        assert(spec_encode_instances(Seq::<TlasInstanceRecord>::empty()) =~= Seq::<u8>::empty());
        assert(pushed[0] == rec);
        assert(spec_encode_instances(pushed) =~= spec_encode_instance(rec));
        assert(spec_encode_instances(recs) + spec_encode_instance(rec) =~= spec_encode_instance(
            rec,
        ));
    } else {
        assert(pushed.subrange(1, pushed.len() as int) =~= recs.subrange(
            1,
            recs.len() as int,
        ).push(rec));
        lemma_encode_instances_push(recs.subrange(1, recs.len() as int), rec);
        assert(spec_encode_instances(pushed) =~= spec_encode_instances(recs)
            + spec_encode_instance(rec));
    }
}

/// Encoded instance records take `INSTANCE_RECORD_SIZE` bytes each.
pub proof fn lemma_encode_instances_len(recs: Seq<TlasInstanceRecord>)
    ensures
        spec_encode_instances(recs).len() == INSTANCE_RECORD_SIZE * recs.len(),
    decreases recs.len(),
{
    if recs.len() > 0 {
        lemma_encode_instance_len(recs[0]);
        lemma_encode_instances_len(recs.subrange(1, recs.len() as int));
    }
}

/// Appends the four little-endian bytes of `x`.
fn push_u32_le(out: &mut Vec<u8>, x: u32)
    ensures
        final(out)@ == old(out)@ + spec_u32_le(x),
{
    out.push((x & 0xff) as u8);
    out.push(((x >> 8) & 0xff) as u8);
    out.push(((x >> 16) & 0xff) as u8);
    out.push(((x >> 24) & 0xff) as u8);
    proof {
        assert(out@ =~= old(out)@ + spec_u32_le(x));
    }
}

/// Appends the eight little-endian bytes of `x`.
fn push_u64_le(out: &mut Vec<u8>, x: u64)
    ensures
        final(out)@ == old(out)@ + spec_u64_le(x),
{
    out.push((x & 0xff) as u8);
    out.push(((x >> 8) & 0xff) as u8);
    out.push(((x >> 16) & 0xff) as u8);
    out.push(((x >> 24) & 0xff) as u8);
    out.push(((x >> 32) & 0xff) as u8);
    out.push(((x >> 40) & 0xff) as u8);
    out.push(((x >> 48) & 0xff) as u8);
    out.push(((x >> 56) & 0xff) as u8);
    proof {
        assert(out@ =~= old(out)@ + spec_u64_le(x));
    }
}

/// Appends each word's little-endian bytes.
fn push_words_le(out: &mut Vec<u8>, words: &[u32])
    ensures
        final(out)@ == old(out)@ + spec_encode_words(words@),
{
    let n = words.len();
    let mut i: usize = 0;
    proof {
        assert(words@.subrange(0, 0) =~= Seq::<u32>::empty());
        assert(out@ =~= old(out)@ + spec_encode_words(words@.subrange(0, 0)));
    }
    while i < n
        invariant
            n == words@.len(),
            i <= n,
            out@ == old(out)@ + spec_encode_words(words@.subrange(0, i as int)),
        decreases n - i,
    {
        push_u32_le(out, words[i]);
        proof {
            assert(words@.subrange(0, i + 1 as int) =~= words@.subrange(0, i as int).push(
                words@[i as int],
            ));
            lemma_encode_words_push(words@.subrange(0, i as int), words@[i as int]);
        }
        i = i + 1;
    }
    proof {
        assert(words@.subrange(0, n as int) =~= words@);
    }
}

/// Appends the 64-byte encoding of one instance record.
fn push_instance(out: &mut Vec<u8>, rec: &TlasInstanceRecord)
    ensures
        final(out)@ == old(out)@ + spec_encode_instance(*rec),
{
    push_words_le(out, rec.transform.as_slice());
    push_u32_le(out, (rec.instance_custom_id & 0x00ffffff) | (rec.visibility_mask << 24));
    push_u32_le(out, (rec.hit_group_id & 0x00ffffff) | (rec.flags << 24));
    push_u64_le(out, rec.acceleration_structure_reference.0);
    proof {
        assert(out@ =~= old(out)@ + spec_encode_instance(*rec));
    }
}

/// Encodes resolved instance records into the bytes the device reads:
/// `INSTANCE_RECORD_SIZE` bytes per record, back to back.
pub fn encode_instances(records: &Vec<TlasInstanceRecord>) -> (r: Vec<u8>)
    ensures
        r@ == spec_encode_instances(records@),
        r@.len() == INSTANCE_RECORD_SIZE * records@.len(),
{
    let mut out: Vec<u8> = Vec::new();
    let n = records.len();
    let mut i: usize = 0;
    proof {
        assert(records@.subrange(0, 0) =~= Seq::<TlasInstanceRecord>::empty());
        assert(out@ =~= spec_encode_instances(records@.subrange(0, 0)));
    }
    while i < n
        invariant
            n == records@.len(),
            i <= n,
            out@ == spec_encode_instances(records@.subrange(0, i as int)),
        decreases n - i,
    {
        push_instance(&mut out, &records[i]);
        proof {
            assert(records@.subrange(0, i + 1 as int) =~= records@.subrange(0, i as int).push(
                records@[i as int],
            ));
            lemma_encode_instances_push(records@.subrange(0, i as int), records@[i as int]);
        }
        i = i + 1;
    }
    proof {
        assert(records@.subrange(0, n as int) =~= records@);
        lemma_encode_instances_len(records@);
    }
    out
}

/// The memory a set of structures needs in total: the component-wise sum of
/// their size queries, saturating at the address-space limit.
pub open spec fn spec_total_build_sizes(
    sizes: Seq<AccelerationStructureBuildSizesInfo>,
) -> AccelerationStructureBuildSizesInfo
    decreases sizes.len(),
{
    if sizes.len() == 0 {
        AccelerationStructureBuildSizesInfo {
            acceleration_structure_size: 0,
            update_scratch_size: 0,
            build_scratch_size: 0,
        }
    } else {
        let rest = spec_total_build_sizes(sizes.drop_last());
        let s = sizes.last();
        AccelerationStructureBuildSizesInfo {
            acceleration_structure_size: crate::device::spec_sat_add(
                rest.acceleration_structure_size,
                s.acceleration_structure_size,
            ),
            update_scratch_size: crate::device::spec_sat_add(
                rest.update_scratch_size,
                s.update_scratch_size,
            ),
            build_scratch_size: crate::device::spec_sat_add(
                rest.build_scratch_size,
                s.build_scratch_size,
            ),
        }
    }
}

/// Sums the size queries of several structures: how much storage and scratch
/// a batch of them needs in total.
pub fn get_memory_requirements(sizes: &[AccelerationStructureBuildSizesInfo]) -> (r:
    AccelerationStructureBuildSizesInfo)
    ensures
        r == spec_total_build_sizes(sizes@),
{
    let mut acc = AccelerationStructureBuildSizesInfo {
        acceleration_structure_size: 0,
        update_scratch_size: 0,
        build_scratch_size: 0,
    };
    let n = sizes.len();
    let mut i: usize = 0;
    proof {
        assert(sizes@.subrange(0, 0) =~= Seq::<AccelerationStructureBuildSizesInfo>::empty());
    }
    while i < n
        invariant
            n == sizes@.len(),
            i <= n,
            acc == spec_total_build_sizes(sizes@.subrange(0, i as int)),
        decreases n - i,
    {
        let s = sizes[i];
        acc = AccelerationStructureBuildSizesInfo {
            acceleration_structure_size: crate::device::sat_add(
                acc.acceleration_structure_size,
                s.acceleration_structure_size,
            ),
            update_scratch_size: crate::device::sat_add(
                acc.update_scratch_size,
                s.update_scratch_size,
            ),
            build_scratch_size: crate::device::sat_add(
                acc.build_scratch_size,
                s.build_scratch_size,
            ),
        };
        proof {
            assert(sizes@.subrange(0, i + 1 as int).drop_last() =~= sizes@.subrange(0, i as int));
            assert(sizes@.subrange(0, i + 1 as int).last() == sizes@[i as int]);
        }
        i = i + 1;
    }
    proof {
        assert(sizes@.subrange(0, n as int) =~= sizes@);
    }
    acc
}

/// The geometry and build ranges of one BLAS to build.
#[derive(Clone)]
pub struct BlasInput {
    /// The geometries of the structure.
    pub as_geometry: Vec<AccelerationStructureGeometry>,
    /// One build range per geometry.
    pub as_build_offset_info: Vec<BuildRangeInfo>,
}

impl BlasInput {
    /// Well-formedness: one build range per geometry.
    pub open spec fn spec_wf(self) -> bool {
        self.as_geometry@.len() == self.as_build_offset_info@.len()
    }

    /// A value-equal copy of the input.
    pub fn duplicate(&self) -> (r: BlasInput)
        ensures
            r.as_geometry@ == self.as_geometry@,
            r.as_build_offset_info@ == self.as_build_offset_info@,
    {
        BlasInput {
            as_geometry: crate::resource::copy_vec(&self.as_geometry),
            as_build_offset_info: crate::resource::copy_vec(&self.as_build_offset_info),
        }
    }

    /// Describes one indexed triangle mesh held in the given vertex and index
    /// buffers: one opaque triangles geometry with one build range covering
    /// `indices.len() / 3` primitives.
    pub fn new(
        vertices: &[Vertex],
        vertex_buffer: &BufferResource,
        indices: &[u16],
        index_buffer: &BufferResource,
    ) -> (r: BlasInput)
        requires
            vertex_buffer.device_address is Some,
            index_buffer.device_address is Some,
            vertices@.len() <= u32::MAX,
            indices@.len() <= u32::MAX,
        ensures
            r.spec_wf(),
            r.as_geometry@.len() == 1,
            r.as_build_offset_info@.len() == 1,
            r.as_geometry@[0] == (AccelerationStructureGeometry::Triangles {
                flags: flags::GEOMETRY_OPAQUE,
                vertex_format: flags::FORMAT_R32G32B32_SFLOAT,
                vertex_data: vertex_buffer.device_address->Some_0,
                vertex_stride: 12,
                vertex_count: vertices@.len() as u32,
                first_vertex: 0,
                primitive_count: (indices@.len() / 3) as u32,
                index_data: index_buffer.device_address,
                transform_data: None,
            }),
            r.as_build_offset_info@[0] == (BuildRangeInfo {
                primitive_count: (indices@.len() / 3) as u32,
                primitive_offset: 0,
                first_vertex: 0,
                transform_offset: 0,
            }),
    {
        let max_primitive_count = (indices.len() / 3) as u32;
        let vertex_data = match vertex_buffer.device_address() {
            Some(a) => a,
            None => DeviceAddress(1),  // unreachable: the caller supplies an addressed buffer
        };
        let geometry = AccelerationStructureGeometry::Triangles {
            flags: flags::GEOMETRY_OPAQUE,
            vertex_format: flags::FORMAT_R32G32B32_SFLOAT,
            vertex_data,
            vertex_stride: Vertex::stride(),
            vertex_count: vertices.len() as u32,
            first_vertex: 0,
            primitive_count: max_primitive_count,
            index_data: index_buffer.device_address(),
            transform_data: None,
        };
        let range = BuildRangeInfo {
            primitive_count: max_primitive_count,
            primitive_offset: 0,
            first_vertex: 0,
            transform_offset: 0,
        };
        let mut as_geometry: Vec<AccelerationStructureGeometry> = Vec::new();
        as_geometry.push(geometry);
        let mut as_build_offset_info: Vec<BuildRangeInfo> = Vec::new();
        as_build_offset_info.push(range);
        BlasInput { as_geometry, as_build_offset_info }
    }
}

/// One slot of the builder's BLAS container: the input geometry, and the
/// built structure once the batch build has run.
pub struct BlasEntry {
    /// The geometry the entry was created from.
    pub input: BlasInput,
    /// The built structure; `None` until the batch build runs.
    pub acceleration_structure: Option<AccelerationStructure>,
    /// Build flags of the structure.
    pub flags: u32,
}

impl BlasEntry {
    /// A fresh, not yet built entry for the given input.
    pub fn new(input: BlasInput) -> (r: BlasEntry)
        ensures
            r.input == input,
            r.acceleration_structure is None,
            r.flags == 0,
    {
        BlasEntry { input, acceleration_structure: None, flags: 0 }
    }
}

/// The builder's single top-level structure: the built handle, its build
/// flags, and the instance buffer of the most recent build, which an update
/// must destroy before re-uploading.
pub struct Tlas {
    /// The built structure; `None` until the first TLAS build.
    pub acceleration_structure: Option<AccelerationStructure>,
    /// Build flags of the most recent build.
    pub flags: u32,
    /// The instance-record buffer of the most recent build.
    pub instances_buffer: Option<BufferResource>,
}

impl Default for Tlas {
    /// An empty TLAS slot: nothing built, no instance buffer.
    fn default() -> (r: Tlas)
        ensures
            r.acceleration_structure is None,
            r.flags == 0,
            r.instances_buffer is None,
    {
        Tlas { acceleration_structure: None, flags: 0, instances_buffer: None }
    }
}

} // verus!
