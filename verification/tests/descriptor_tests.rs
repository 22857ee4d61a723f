//! Descriptor count tables and pool sizes.

use tracer_render::descriptor::{
    descriptor_type_from_index, DescriptorSetLayoutBinding, DescriptorSizes,
    DescriptorSizesBuilder, DescriptorType, DESCRIPTOR_TYPES_COUNT,
};

fn binding_of(descriptor_type: DescriptorType, count: u32) -> DescriptorSetLayoutBinding {
    DescriptorSetLayoutBinding { binding: 0, descriptor_type, count, stages: 0, flags: 0 }
}

#[test]
fn two_binding_layout_yields_exactly_two_pool_entries() {
    let bindings = [
        binding_of(DescriptorType::UniformBuffer, 2),
        binding_of(DescriptorType::StorageBuffer, 1),
    ];
    let sizes = DescriptorSizes::from_bindings(&bindings);
    assert_eq!(sizes.count(), 2);
    assert_eq!(sizes.sizes[0].descriptor_type, DescriptorType::UniformBuffer);
    assert_eq!(sizes.sizes[0].count, 2);
    assert_eq!(sizes.sizes[1].descriptor_type, DescriptorType::StorageBuffer);
    assert_eq!(sizes.sizes[1].count, 1);
}

#[test]
fn counts_of_one_type_accumulate() {
    let bindings = [
        binding_of(DescriptorType::StorageImage, 3),
        binding_of(DescriptorType::StorageImage, 4),
        binding_of(DescriptorType::Sampler, 1),
    ];
    let builder = DescriptorSizesBuilder::from_bindings(&bindings);
    assert_eq!(builder.sizes[3], 7);
    assert_eq!(builder.sizes[0], 1);
    let sizes = builder.build();
    assert_eq!(sizes.count(), 2);
    assert_eq!(sizes.sizes[0].descriptor_type, DescriptorType::Sampler);
    assert_eq!(sizes.sizes[0].count, 1);
    assert_eq!(sizes.sizes[1].descriptor_type, DescriptorType::StorageImage);
    assert_eq!(sizes.sizes[1].count, 7);
}

#[test]
fn zero_table_builds_an_empty_pool_request() {
    let builder = DescriptorSizesBuilder::zero();
    assert!(builder.sizes.iter().all(|&c| c == 0));
    let sizes = builder.build();
    assert_eq!(sizes.count(), 0);
}

#[test]
fn add_binding_updates_one_slot() {
    let mut builder = DescriptorSizesBuilder::zero();
    builder.add_binding(&binding_of(DescriptorType::AccelerationStructure, 5));
    assert_eq!(builder.sizes[11], 5);
    assert!(builder.sizes[..11].iter().all(|&c| c == 0));
}

#[test]
fn type_indices_round_trip() {
    for i in 0..DESCRIPTOR_TYPES_COUNT {
        let t = descriptor_type_from_index(i);
        assert_eq!(t.index(), i);
    }
    assert_eq!(descriptor_type_from_index(6), DescriptorType::UniformBuffer);
    assert_eq!(descriptor_type_from_index(11), DescriptorType::AccelerationStructure);
}
