//! Bit-flag constants for buffer usage, memory usage hints, access masks,
//! pipeline stages and acceleration-structure builds.
//!
//! Flags are plain integers; `has_flags` is the one predicate contracts use.

use vstd::prelude::*;

verus! {

/// True when every bit of `wanted` is set in `bits`.
pub open spec fn spec_has_flags(bits: u32, wanted: u32) -> bool {
    bits & wanted == wanted
}

/// Executable twin of `spec_has_flags`.
pub fn has_flags(bits: u32, wanted: u32) -> (r: bool)
    ensures
        r == spec_has_flags(bits, wanted),
{
    bits & wanted == wanted
}

// Buffer usage flags.
pub const BUFFER_USAGE_TRANSFER_SRC: u32 = 0x1;
pub const BUFFER_USAGE_TRANSFER_DST: u32 = 0x2;
pub const BUFFER_USAGE_UNIFORM_BUFFER: u32 = 0x10;
pub const BUFFER_USAGE_STORAGE_BUFFER: u32 = 0x20;
pub const BUFFER_USAGE_INDEX_BUFFER: u32 = 0x40;
pub const BUFFER_USAGE_VERTEX_BUFFER: u32 = 0x80;
pub const BUFFER_USAGE_SHADER_DEVICE_ADDRESS: u32 = 0x20000;
pub const BUFFER_USAGE_ACCELERATION_STRUCTURE_STORAGE: u32 = 0x100000;

// Memory usage hints for the allocator.
pub const MEMORY_USAGE_FAST_DEVICE_ACCESS: u32 = 0x1;
pub const MEMORY_USAGE_HOST_ACCESS: u32 = 0x2;
pub const MEMORY_USAGE_UPLOAD: u32 = 0x4;
pub const MEMORY_USAGE_DOWNLOAD: u32 = 0x8;
pub const MEMORY_USAGE_TRANSIENT: u32 = 0x10;
pub const MEMORY_USAGE_DEVICE_ADDRESS: u32 = 0x20;

/// Memory usage hints that require a host-visible memory type.
pub const MEMORY_USAGE_NEEDS_HOST_VISIBLE: u32 = 0xe;

// Access masks for memory barriers.
pub const ACCESS_TRANSFER_WRITE: u32 = 0x1000;
pub const ACCESS_ACCELERATION_STRUCTURE_READ: u32 = 0x200000;
pub const ACCESS_ACCELERATION_STRUCTURE_WRITE: u32 = 0x400000;

// Pipeline stages for memory barriers.
pub const STAGE_TRANSFER: u32 = 0x1000;
pub const STAGE_ACCELERATION_STRUCTURE_BUILD: u32 = 0x2000000;

// Acceleration-structure build flags.
pub const BUILD_ALLOW_UPDATE: u32 = 0x1;
pub const BUILD_ALLOW_COMPACTION: u32 = 0x2;
pub const BUILD_PREFER_FAST_TRACE: u32 = 0x4;
pub const BUILD_PREFER_FAST_BUILD: u32 = 0x8;

// Geometry flags.
pub const GEOMETRY_OPAQUE: u32 = 0x1;
pub const GEOMETRY_NO_DUPLICATE_ANY_HIT: u32 = 0x2;

// Instance flags.
pub const INSTANCE_TRIANGLE_FACING_CULL_DISABLE: u32 = 0x1;

// Command pool creation flags.
pub const COMMAND_POOL_TRANSIENT: u32 = 0x1;

// Vertex formats for geometry descriptions.
pub const FORMAT_R32G32B32_SFLOAT: u32 = 106;

// Index types for geometry descriptions.
pub const INDEX_TYPE_UINT16: u32 = 0;
pub const INDEX_TYPE_UINT32: u32 = 1;

} // verus!
