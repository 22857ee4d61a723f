//! Buffer descriptions, device addresses and host uploads.

use tracer_render::address::DeviceAddress;
use tracer_render::buffer::{align_up, BufferInfo};
use tracer_render::device::Device;
use tracer_render::error::RenderError;
use tracer_render::flags;

fn host_buffer_info(size: u64) -> BufferInfo {
    BufferInfo {
        align: 255,
        size,
        usage_flags: flags::BUFFER_USAGE_TRANSFER_SRC,
        allocation_flags: flags::MEMORY_USAGE_HOST_ACCESS,
    }
}

#[test]
fn valid_buffer_info_is_accepted() {
    for align in [0u64, 1, 3, 7, 15, 255, 4095] {
        let info = BufferInfo { align, size: 1024, usage_flags: 0, allocation_flags: 0 };
        assert!(info.is_valid());
    }
}

#[test]
fn non_power_of_two_alignment_is_rejected() {
    for align in [2u64, 4, 5, 6, 100, 254, 256] {
        let info = BufferInfo { align, size: 16, usage_flags: 0, allocation_flags: 0 };
        assert!(!info.is_valid());
    }
}

#[test]
fn overflowing_round_up_is_rejected() {
    let info = BufferInfo { align: 255, size: u64::MAX - 10, usage_flags: 0, allocation_flags: 0 };
    assert!(!info.is_valid());
    let max_mask = BufferInfo { align: u64::MAX, size: 0, usage_flags: 0, allocation_flags: 0 };
    assert!(!max_mask.is_valid());
}

#[test]
fn align_up_rounds_to_the_mask() {
    assert_eq!(align_up(255, 1), Some(256));
    assert_eq!(align_up(255, 256), Some(256));
    assert_eq!(align_up(255, 257), Some(512));
    assert_eq!(align_up(0, 77), Some(77));
    assert_eq!(align_up(255, u64::MAX - 10), None);
}

#[test]
fn device_address_offset_adds() {
    let mut a = DeviceAddress::new(4096);
    let b = a.offset(16);
    assert_eq!(b.0, 4112);
    assert_eq!(a.0, 4096);
}

#[test]
fn device_address_offset_is_associative() {
    let mut a = DeviceAddress::new(1000);
    let mut one_hop = a.offset(30);
    let two_hops = one_hop.offset(12);
    let direct = a.offset(42);
    assert_eq!(two_hops.0, direct.0);
}

#[test]
fn checked_offset_reports_overflow_instead_of_wrapping() {
    let a = DeviceAddress::new(u64::MAX - 1);
    assert_eq!(a.checked_offset(1), Some(DeviceAddress(u64::MAX)));
    assert_eq!(a.checked_offset(2), None);
}

#[test]
fn store_then_read_back_returns_the_exact_bytes() {
    let mut device = Device::new();
    let mut buffer = device.create_buffer(host_buffer_info(64)).unwrap();
    let data: Vec<u8> = (0u8..64).collect();
    buffer.store(&data).unwrap();
    let read = buffer.read_back().unwrap();
    assert_eq!(read, data);
}

#[test]
fn store_rejects_non_host_visible_memory() {
    let mut device = Device::new();
    let info = BufferInfo {
        align: 255,
        size: 64,
        usage_flags: flags::BUFFER_USAGE_VERTEX_BUFFER,
        allocation_flags: flags::MEMORY_USAGE_FAST_DEVICE_ACCESS,
    };
    let mut buffer = device.create_buffer(info).unwrap();
    assert_eq!(buffer.store(&[1, 2, 3]), Err(RenderError::NotHostVisible));
    assert_eq!(buffer.read_back().err(), Some(RenderError::NotHostVisible));
}

#[test]
fn store_rejects_data_larger_than_the_buffer() {
    let mut device = Device::new();
    let mut buffer = device.create_buffer(host_buffer_info(4)).unwrap();
    assert_eq!(buffer.store(&[0; 5]), Err(RenderError::StoreTooLarge));
}

#[test]
fn create_buffer_rejects_invalid_info() {
    let mut device = Device::new();
    let info = BufferInfo { align: 6, size: 64, usage_flags: 0, allocation_flags: 0 };
    assert_eq!(device.create_buffer(info).err(), Some(RenderError::InvalidBufferInfo));
    assert_eq!(device.buffers.live.len(), 0);
    assert_eq!(device.allocator.live_count(), 0);
}

#[test]
fn created_buffer_has_an_address_exactly_when_requested() {
    let mut device = Device::new();
    let plain = device.create_buffer(host_buffer_info(16)).unwrap();
    assert!(plain.device_address().is_none());
    let addressed_info = BufferInfo {
        align: 255,
        size: 16,
        usage_flags: flags::BUFFER_USAGE_SHADER_DEVICE_ADDRESS,
        allocation_flags: flags::MEMORY_USAGE_DEVICE_ADDRESS,
    };
    let addressed = device.create_buffer(addressed_info).unwrap();
    let address = addressed.device_address().unwrap();
    assert_ne!(address.0, 0);
    // the address is fixed at creation: repeated queries agree
    assert_eq!(addressed.device_address(), addressed.device_address());
}

#[test]
fn destroy_buffer_releases_its_memory_block() {
    let mut device = Device::new();
    let buffer = device.create_buffer(host_buffer_info(16)).unwrap();
    let id = buffer.block.id;
    assert_eq!(device.allocator.live_count(), 1);
    device.destroy_buffer(buffer);
    assert_eq!(device.allocator.live_count(), 0);
    assert!(device.allocator.live.iter().all(|b| b.id != id));
}
