//! Image resources: descriptions, subresource ranges, and the handle bound
//! to a memory block.

use vstd::prelude::*;

use crate::memory::MemoryBlock;

verus! {

/// Image usage flag: the image backs a transient framebuffer attachment.
pub const IMAGE_USAGE_TRANSIENT_ATTACHMENT: u32 = 0x40;

/// Image usage flag: the image can be sampled by shaders.
pub const IMAGE_USAGE_SAMPLED: u32 = 0x4;

/// Image usage flag: the image can be written as a storage image.
pub const IMAGE_USAGE_STORAGE: u32 = 0x8;

/// Image usage flag: the image can be a color attachment.
pub const IMAGE_USAGE_COLOR_ATTACHMENT: u32 = 0x10;

/// Image aspect flag: the color aspect.
pub const IMAGE_ASPECT_COLOR: u32 = 0x1;

/// A two-dimensional image extent.
#[derive(Clone, Copy, Debug, PartialEq, Eq, Structural)]
pub struct ImageExtent {
    /// Width in texels.
    pub width: u32,
    /// Height in texels.
    pub height: u32,
}

/// Description of an image to create.
#[derive(Clone, Copy, Debug, PartialEq, Eq, Structural)]
pub struct ImageInfo {
    /// Extent of the base level.
    pub extent: ImageExtent,
    /// Texel format (`flags::FORMAT_*`).
    pub format: u32,
    /// Number of mip levels.
    pub levels: u32,
    /// Number of array layers.
    pub layers: u32,
    /// Sample count.
    pub samples: u32,
    /// Usage bits (`IMAGE_USAGE_*`).
    pub usage: u32,
}

/// A contiguous range of mip levels and array layers of one image.
#[derive(Clone, Copy, Debug, PartialEq, Eq, Structural)]
pub struct ImageSubresourceRange {
    /// The aspects selected (`IMAGE_ASPECT_*`).
    pub aspect: u32,
    /// First mip level of the range.
    pub first_level: u32,
    /// Number of mip levels.
    pub level_count: u32,
    /// First array layer of the range.
    pub first_layer: u32,
    /// Number of array layers.
    pub layer_count: u32,
}

impl ImageSubresourceRange {
    /// The range covering levels `first_level` up to `level_end` and layers
    /// `first_layer` up to `layer_end`, both half-open.
    pub fn new(aspect: u32, first_level: u32, level_end: u32, first_layer: u32, layer_end: u32) -> (r:
        ImageSubresourceRange)
        requires
            first_level <= level_end,
            first_layer <= layer_end,
        ensures
            r.aspect == aspect,
            r.first_level == first_level,
            r.level_count == level_end - first_level,
            r.first_layer == first_layer,
            r.layer_count == layer_end - first_layer,
    {
        ImageSubresourceRange {
            aspect,
            first_level,
            level_count: level_end - first_level,
            first_layer,
            layer_count: layer_end - first_layer,
        }
    }
}

/// A created image: the description, the native handle and the memory block
/// backing it.
#[derive(Clone, Debug)]
pub struct Image {
    /// The description the image was created from.
    pub info: ImageInfo,
    /// Native handle; always the registry index plus one.
    pub handle: u64,
    /// Slot in the device's image registry.
    pub index: usize,
    /// The memory block the image is bound to.
    pub block: MemoryBlock,
}

/// The allocator hint for an image usage: transient attachments go to lazily
/// backed transient memory, everything else takes the default heap.
pub open spec fn spec_image_memory_usage(usage: u32) -> u32 {
    if usage & IMAGE_USAGE_TRANSIENT_ATTACHMENT == IMAGE_USAGE_TRANSIENT_ATTACHMENT {
        crate::flags::MEMORY_USAGE_TRANSIENT
    } else {
        0
    }
}

/// Executable twin of `spec_image_memory_usage`.
pub fn get_allocator_memory_usage(usage: u32) -> (r: u32)
    ensures
        r == spec_image_memory_usage(usage),
{
    if usage & IMAGE_USAGE_TRANSIENT_ATTACHMENT == IMAGE_USAGE_TRANSIENT_ATTACHMENT {
        crate::flags::MEMORY_USAGE_TRANSIENT
    } else {
        0
    }
}

} // verus!
