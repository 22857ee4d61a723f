//! Pipeline-facing descriptions: vertex input bindings, ray-tracing shader
//! groups and the shader-binding-table layout. The pass and pipeline layer
//! consumes built structures and descriptor sets through these inputs.

use vstd::prelude::*;

verus! {

/// Whether a vertex input binding advances per vertex or per instance.
#[derive(Clone, Copy, Debug, PartialEq, Eq, Structural)]
pub enum VertexInputRate {
    /// Advance once per vertex.
    Vertex,
    /// Advance once per instance.
    Instance,
}

/// One vertex input binding of a graphics pipeline.
#[derive(Clone, Copy, Debug, PartialEq, Eq, Structural)]
pub struct VertexInputBinding {
    /// Step rate of the binding.
    pub rate: VertexInputRate,
    /// Byte stride between consecutive elements.
    pub stride: u32,
}

/// One vertex input attribute of a graphics pipeline.
#[derive(Clone, Copy, Debug, PartialEq, Eq, Structural)]
pub struct VertexInputAttribute {
    /// Shader location the attribute binds to.
    pub location: u32,
    /// Texel format of the attribute (`flags::FORMAT_*`).
    pub format: u32,
    /// The vertex input binding the attribute reads from.
    pub binding: u32,
    /// Byte offset of the attribute within one element.
    pub offset: u32,
}

/// One shader group of a ray-tracing pipeline, indexing into its shader list.
#[derive(Clone, Copy, Debug, PartialEq, Eq, Structural)]
pub enum RayTracingShaderGroupInfo {
    /// The ray-generation group.
    Raygen {
        /// Index of the ray-generation shader.
        raygen: u32,
    },
    /// A miss group.
    Miss {
        /// Index of the miss shader.
        miss: u32,
    },
    /// A triangle hit group.
    Triangle {
        /// Index of the any-hit shader, if any.
        any_hit: Option<u32>,
        /// Index of the closest-hit shader, if any.
        closest_hit: Option<u32>,
    },
}

/// Which groups of a ray-tracing pipeline go into each region of its shader
/// binding table.
#[derive(Clone, Debug)]
pub struct ShaderBindingTableInfo {
    /// Group index of the ray-generation record, if present.
    pub raygen: Option<u32>,
    /// Group indices of the miss records.
    pub miss: Vec<u32>,
    /// Group indices of the hit records.
    pub hit: Vec<u32>,
    /// Group indices of the callable records.
    pub callable: Vec<u32>,
}

/// An identifier of one device queue: its family and its index within it.
#[derive(Clone, Copy, Debug, PartialEq, Eq, Structural)]
pub struct QueueId {
    /// The queue family.
    pub family: usize,
    /// The index within the family.
    pub index: usize,
}

} // verus!
