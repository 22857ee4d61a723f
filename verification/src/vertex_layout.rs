//! Vertex buffer layout descriptions: attribute semantics, formats, strides
//! and step modes.

use vstd::prelude::*;

verus! {

/// What a vertex attribute carries.
#[derive(Clone, Copy, Debug, PartialEq, Eq, Structural)]
pub enum Attribute {
    /// Vertex color.
    Color,
    /// Surface normal.
    Normal,
    /// Surface tangent.
    Tangent,
    /// Vertex position.
    Position,
    /// Texture coordinates.
    Uv,
    /// Several attributes interleaved in one buffer.
    Multiple,
}

/// The data format of one vertex attribute.
#[derive(Clone, Copy, Debug, PartialEq, Eq, Structural)]
pub enum VertexFormat {
    /// One 32-bit float.
    Float,
    /// Two 32-bit floats.
    Float2,
    /// Three 32-bit floats.
    Float3,
    /// Four 32-bit floats.
    Float4,
    /// One 32-bit unsigned integer.
    Uint,
    /// Two 32-bit unsigned integers.
    Uint2,
    /// Three 32-bit unsigned integers.
    Uint3,
    /// Four 32-bit unsigned integers.
    Uint4,
}

/// The byte size of a vertex format.
pub open spec fn spec_vertex_format_size(f: VertexFormat) -> u64 {
    match f {
        VertexFormat::Float => 4,
        VertexFormat::Float2 => 8,
        VertexFormat::Float3 => 12,
        VertexFormat::Float4 => 16,
        VertexFormat::Uint => 4,
        VertexFormat::Uint2 => 8,
        VertexFormat::Uint3 => 12,
        VertexFormat::Uint4 => 16,
    }
}

impl VertexFormat {
    /// The byte size of one element of this format.
    pub fn get_size(&self) -> (r: u64)
        ensures
            r == spec_vertex_format_size(*self),
    {
        match self {
            VertexFormat::Float => 4,
            VertexFormat::Float2 => 8,
            VertexFormat::Float3 => 12,
            VertexFormat::Float4 => 16,
            VertexFormat::Uint => 4,
            VertexFormat::Uint2 => 8,
            VertexFormat::Uint3 => 12,
            VertexFormat::Uint4 => 16,
        }
    }
}

/// Whether a binding advances per vertex or per instance.
#[derive(Clone, Copy, Debug, PartialEq, Eq, Structural, Hash)]
pub enum InputStepMode {
    /// Advance once per vertex.
    Vertex,
    /// Advance once per instance.
    Instance,
}

impl Default for InputStepMode {
    /// Bindings step per vertex unless said otherwise.
    fn default() -> (r: InputStepMode)
        ensures
            r == InputStepMode::Vertex,
    {
        InputStepMode::Vertex
    }
}

/// One attribute within a vertex buffer.
#[derive(Clone, Copy, Debug, PartialEq, Eq, Structural)]
pub struct VertexAttribute {
    /// What the attribute carries.
    pub attribute: Attribute,
    /// Its data format.
    pub format: VertexFormat,
    /// Byte offset of the attribute within one element.
    pub offset: u64,
    /// The shader location the attribute binds to.
    pub shader_location: u32,
}

/// The layout of one vertex buffer: its attributes, element stride and step
/// mode.
#[derive(Clone, Debug)]
pub struct VertexBufferLayout {
    /// The dominant attribute of the buffer.
    pub attribute: Attribute,
    /// Byte stride between consecutive elements.
    pub stride: u64,
    /// Whether elements step per vertex or per instance.
    pub step_mode: InputStepMode,
    /// The attributes of one element.
    pub attributes: Vec<VertexAttribute>,
}

impl VertexBufferLayout {
    /// The layout of a buffer holding one attribute tightly packed: the
    /// stride is the attribute format's size.
    pub fn new_from_attribute(
        vertex_attribute: VertexAttribute,
        step_mode: InputStepMode,
    ) -> (r: VertexBufferLayout)
        ensures
            r.attribute == vertex_attribute.attribute,
            r.stride == spec_vertex_format_size(vertex_attribute.format),
            r.step_mode == step_mode,
            r.attributes@ == seq![vertex_attribute],
    {
        let stride = vertex_attribute.format.get_size();
        let attribute = vertex_attribute.attribute;
        let mut attributes: Vec<VertexAttribute> = Vec::new();
        attributes.push(vertex_attribute);
        proof {
            assert(attributes@ =~= seq![vertex_attribute]);
        }
        VertexBufferLayout { attribute, stride, step_mode, attributes }
    }
}

} // verus!
