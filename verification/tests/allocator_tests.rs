//! The page-based memory allocator.

use tracer_render::error::RenderError;
use tracer_render::flags;
use tracer_render::memory::{MemoryAllocator, MemoryRequest, MemoryType};

fn two_type_allocator() -> MemoryAllocator {
    let types = vec![
        MemoryType { host_visible: false, device_local: true },
        MemoryType { host_visible: true, device_local: false },
    ];
    MemoryAllocator::new(types)
}

#[test]
fn allocation_is_sized_and_aligned_as_requested() {
    let mut alloc = two_type_allocator();
    let request = MemoryRequest { size: 100, align_mask: 63, usage: 0, memory_types: u32::MAX };
    let a = alloc.allocate(request).unwrap();
    let b = alloc.allocate(request).unwrap();
    assert_eq!(a.size, 100);
    assert_eq!(b.size, 100);
    assert_eq!(a.offset & 63, 0);
    assert_eq!(b.offset & 63, 0);
    assert_ne!(a.id, b.id);
    // both came from the same page, carved without overlap
    assert_eq!(a.memory, b.memory);
    assert!(a.offset + a.size <= b.offset || b.offset + b.size <= a.offset);
}

#[test]
fn host_access_requests_get_host_visible_memory() {
    let mut alloc = two_type_allocator();
    let request = MemoryRequest {
        size: 16,
        align_mask: 0,
        usage: flags::MEMORY_USAGE_HOST_ACCESS,
        memory_types: u32::MAX,
    };
    let block = alloc.allocate(request).unwrap();
    assert!(block.host_visible);
}

#[test]
fn allocation_fails_without_a_compatible_type() {
    let mut alloc = two_type_allocator();
    let request = MemoryRequest { size: 16, align_mask: 0, usage: 0, memory_types: 0 };
    assert_eq!(alloc.allocate(request), Err(RenderError::OutOfMemory));
    assert_eq!(alloc.live_count(), 0);
}

#[test]
fn release_returns_the_block_and_rejects_a_second_release() {
    let mut alloc = two_type_allocator();
    let request = MemoryRequest { size: 32, align_mask: 0, usage: 0, memory_types: u32::MAX };
    let block = alloc.allocate(request).unwrap();
    assert_eq!(alloc.live_count(), 1);
    assert_eq!(alloc.release(block), Ok(()));
    assert_eq!(alloc.live_count(), 0);
    assert_eq!(alloc.release(block), Err(RenderError::BlockNotLive));
}

#[test]
fn an_emptied_page_regains_its_full_capacity() {
    let mut alloc = two_type_allocator();
    let request = MemoryRequest { size: 40000, align_mask: 0, usage: 0, memory_types: u32::MAX };
    let a = alloc.allocate(request).unwrap();
    let page = a.memory;
    alloc.release(a).unwrap();
    // the page is empty again, so the same page serves a same-size request
    let b = alloc.allocate(request).unwrap();
    assert_eq!(b.memory, page);
    assert_eq!(b.offset, 0);
}

#[test]
fn oversized_requests_get_a_dedicated_page() {
    let mut alloc = two_type_allocator();
    let request = MemoryRequest {
        size: 1 << 20,
        align_mask: 0,
        usage: 0,
        memory_types: u32::MAX,
    };
    let block = alloc.allocate(request).unwrap();
    assert_eq!(block.offset, 0);
    assert_eq!(block.size, 1 << 20);
}
