//! Buffer descriptions and alignment arithmetic.
//!
//! Alignments travel as masks: a `BufferInfo` stores `alignment - 1`, so a
//! valid mask is one below a power of two, and rounding a size up under the
//! mask must not overflow.

use vstd::prelude::*;

use crate::flags;

verus! {

/// `value` rounded up to the next multiple of `align_mask + 1`, assuming the
/// sum does not overflow.
pub open spec fn spec_align_up(align_mask: u64, value: u64) -> u64 {
    (((value + align_mask) as u64) & !align_mask)
}

/// True when `align + 1` is a power of two, i.e. `align` is a contiguous mask
/// of low bits (0, 1, 3, 7, ...).
pub open spec fn is_alignment_mask(align: u64) -> bool {
    align != u64::MAX && (((align + 1) as u64) & align) == 0
}

/// Rounds `value` up under `align_mask`; `None` exactly when the round-up
/// overflows 64 bits.
pub fn align_up(align_mask: u64, value: u64) -> (r: Option<u64>)
    ensures
        value + align_mask <= u64::MAX ==> r == Some(spec_align_up(align_mask, value)),
        value + align_mask > u64::MAX ==> r is None,
{
    match value.checked_add(align_mask) {
        Some(v) => Some(v & !align_mask),
        None => None,
    }
}

/// Rounding up yields a value with no mask bits set, at most `align_mask`
/// past the original and never below it.
pub proof fn lemma_align_up_bounds(align_mask: u64, value: u64)
    requires
        value + align_mask <= u64::MAX,
    ensures
        spec_align_up(align_mask, value) & align_mask == 0,
        value <= spec_align_up(align_mask, value),
        spec_align_up(align_mask, value) <= value + align_mask,
{
    assert((((value + align_mask) as u64) & !align_mask) & align_mask == 0
        && value <= (((value + align_mask) as u64) & !align_mask)
        && (((value + align_mask) as u64) & !align_mask) <= value + align_mask) by (bit_vector)
        requires
            value + align_mask <= u64::MAX,
    ;
}

/// Description of a buffer to create: alignment mask, byte size, usage flags
/// and the allocation hint handed to the memory allocator.
#[derive(Clone, Copy, Debug, PartialEq, Eq, Structural)]
pub struct BufferInfo {
    /// Alignment stored as a mask, i.e. `alignment - 1`.
    pub align: u64,
    /// Byte size of the buffer.
    pub size: u64,
    /// Buffer usage bits (`flags::BUFFER_USAGE_*`).
    pub usage_flags: u32,
    /// Allocation hint bits (`flags::MEMORY_USAGE_*`).
    pub allocation_flags: u32,
}

impl BufferInfo {
    /// A well-formed description: the alignment is a power of two (stored as
    /// a mask) and the size rounds up under the mask without overflow.
    pub open spec fn spec_valid(self) -> bool {
        is_alignment_mask(self.align) && self.size + self.align <= u64::MAX
    }

    /// Checks `spec_valid`; an invalid description is rejected before any
    /// buffer is created from it.
    pub fn is_valid(&self) -> (r: bool)
        ensures
            r == self.spec_valid(),
    {
        let is_mask = match self.align.checked_add(1) {
            Some(m) => m & self.align == 0,
            None => false,
        };
        is_mask && align_up(self.align, self.size).is_some()
    }

    /// True when the allocation hint asks for a device address.
    pub open spec fn spec_wants_device_address(self) -> bool {
        flags::spec_has_flags(self.allocation_flags, flags::MEMORY_USAGE_DEVICE_ADDRESS)
    }

    /// True when the allocation hint asks for host access.
    pub open spec fn spec_wants_host_access(self) -> bool {
        self.allocation_flags & flags::MEMORY_USAGE_NEEDS_HOST_VISIBLE != 0
    }
}

} // verus!
