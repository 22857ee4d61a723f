//! Vertex layouts and pipeline-facing descriptions.

use tracer_render::pipeline::{
    QueueId, RayTracingShaderGroupInfo, VertexInputAttribute, VertexInputBinding, VertexInputRate,
};
use tracer_render::vertex::Vertex;
use tracer_render::vertex_layout::{
    Attribute, InputStepMode, VertexAttribute, VertexBufferLayout, VertexFormat,
};

#[test]
fn layout_from_attribute_takes_its_stride_from_the_format() {
    let attribute = VertexAttribute {
        attribute: Attribute::Position,
        format: VertexFormat::Float3,
        offset: 0,
        shader_location: 0,
    };
    let layout = VertexBufferLayout::new_from_attribute(attribute, InputStepMode::Vertex);
    assert_eq!(layout.stride, 12);
    assert_eq!(layout.attribute, Attribute::Position);
    assert_eq!(layout.step_mode, InputStepMode::Vertex);
    assert_eq!(layout.attributes.len(), 1);
    assert_eq!(layout.attributes[0], attribute);
}

#[test]
fn vertex_format_sizes_count_their_components() {
    assert_eq!(VertexFormat::Float.get_size(), 4);
    assert_eq!(VertexFormat::Float2.get_size(), 8);
    assert_eq!(VertexFormat::Float4.get_size(), 16);
    assert_eq!(VertexFormat::Uint3.get_size(), 12);
}

#[test]
fn step_mode_defaults_to_per_vertex() {
    assert_eq!(InputStepMode::default(), InputStepMode::Vertex);
}

#[test]
fn vertex_stride_matches_its_position_payload() {
    assert_eq!(Vertex::stride(), 12);
}

#[test]
fn pipeline_descriptions_hold_their_fields() {
    let binding = VertexInputBinding { rate: VertexInputRate::Instance, stride: 16 };
    assert_eq!(binding.stride, 16);
    assert_eq!(binding.rate, VertexInputRate::Instance);
    let group = RayTracingShaderGroupInfo::Triangle { any_hit: None, closest_hit: Some(2) };
    assert!(matches!(
        group,
        RayTracingShaderGroupInfo::Triangle { any_hit: None, closest_hit: Some(2) }
    ));
    let queue = QueueId { family: 0, index: 1 };
    assert_eq!(queue.index, 1);
}

#[test]
fn vertex_descriptors_describe_one_packed_position_stream() {
    let bindings = Vertex::get_binding_descriptions();
    assert_eq!(bindings.len(), 1);
    assert_eq!(bindings[0], VertexInputBinding { rate: VertexInputRate::Vertex, stride: 12 });
    let attributes = Vertex::get_attribute_descriptions();
    assert_eq!(attributes.len(), 1);
    assert_eq!(
        attributes[0],
        VertexInputAttribute {
            location: 0,
            format: tracer_render::flags::FORMAT_R32G32B32_SFLOAT,
            binding: 0,
            offset: 0,
        }
    );
}
