//! Vertex data layout for mesh geometry.

use vstd::prelude::*;

use crate::flags;
use crate::pipeline::{VertexInputAttribute, VertexInputBinding, VertexInputRate};

verus! {

/// A mesh vertex: a 3-component position. Components are stored as the bit
/// patterns of 32-bit IEEE-754 floats; this layer never computes on them.
#[derive(Clone, Copy, Debug)]
pub struct Vertex {
    /// Bit patterns of the x, y, z position floats.
    pub position: [u32; 3],
}

impl Vertex {
    /// Byte stride of one vertex in a tightly packed vertex buffer.
    pub fn stride() -> (r: u64)
        ensures
            r == 12,
    {
        12
    }

    /// The one vertex buffer binding: tightly packed, stepping per vertex.
    pub fn get_binding_descriptions() -> (r: Vec<VertexInputBinding>)
        ensures
            r@ == seq![VertexInputBinding { rate: VertexInputRate::Vertex, stride: 12 }],
    {
        let mut out: Vec<VertexInputBinding> = Vec::new();
        out.push(VertexInputBinding { rate: VertexInputRate::Vertex, stride: 12 });
        proof {
            assert(out@ =~= seq![VertexInputBinding { rate: VertexInputRate::Vertex, stride: 12 }]);
        }
        out
    }

    /// The one vertex attribute: the position, three floats at offset zero.
    pub fn get_attribute_descriptions() -> (r: Vec<VertexInputAttribute>)
        ensures
            r@ == seq![
                VertexInputAttribute {
                    location: 0,
                    format: flags::FORMAT_R32G32B32_SFLOAT,
                    binding: 0,
                    offset: 0,
                },
            ],
    {
        let mut out: Vec<VertexInputAttribute> = Vec::new();
        out.push(
            VertexInputAttribute {
                location: 0,
                format: flags::FORMAT_R32G32B32_SFLOAT,
                binding: 0,
                offset: 0,
            },
        );
        proof {
            assert(out@ =~= seq![
                VertexInputAttribute {
                    location: 0,
                    format: flags::FORMAT_R32G32B32_SFLOAT,
                    binding: 0,
                    offset: 0,
                },
            ]);
        }
        out
    }
}

} // verus!
