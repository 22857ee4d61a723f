//! Image resources and their memory.

use tracer_render::device::Device;
use tracer_render::flags;
use tracer_render::image::{
    get_allocator_memory_usage, Image, ImageExtent, ImageInfo, ImageSubresourceRange,
    IMAGE_ASPECT_COLOR, IMAGE_USAGE_COLOR_ATTACHMENT, IMAGE_USAGE_SAMPLED,
    IMAGE_USAGE_TRANSIENT_ATTACHMENT,
};

fn offscreen_info() -> ImageInfo {
    ImageInfo {
        extent: ImageExtent { width: 600, height: 800 },
        format: flags::FORMAT_R32G32B32_SFLOAT,
        levels: 1,
        layers: 1,
        samples: 1,
        usage: IMAGE_USAGE_COLOR_ATTACHMENT | IMAGE_USAGE_SAMPLED,
    }
}

#[test]
fn created_image_is_backed_by_a_sized_block() {
    let mut device = Device::new();
    let image: Image = device.create_image(offscreen_info()).unwrap();
    assert_ne!(image.handle, 0);
    assert_eq!(image.block.size, 600 * 800 * 4);
    assert_eq!(device.images.count(), 1);
    assert_eq!(device.allocator.live_count(), 1);
    device.destroy_image(image);
    assert_eq!(device.images.count(), 0);
    assert_eq!(device.allocator.live_count(), 0);
}

#[test]
fn transient_attachments_take_the_transient_memory_hint() {
    assert_eq!(
        get_allocator_memory_usage(IMAGE_USAGE_TRANSIENT_ATTACHMENT | IMAGE_USAGE_COLOR_ATTACHMENT),
        flags::MEMORY_USAGE_TRANSIENT
    );
    assert_eq!(get_allocator_memory_usage(IMAGE_USAGE_SAMPLED), 0);
}

#[test]
fn subresource_range_counts_its_levels_and_layers() {
    let range = ImageSubresourceRange::new(IMAGE_ASPECT_COLOR, 0, 1, 0, 6);
    assert_eq!(range.first_level, 0);
    assert_eq!(range.level_count, 1);
    assert_eq!(range.first_layer, 0);
    assert_eq!(range.layer_count, 6);
}
