//! The 64-byte instance-record encoding, as the device reads it.

use tracer_render::accel::{encode_instances, TlasInstanceRecord, INSTANCE_RECORD_SIZE};
use tracer_render::address::DeviceAddress;

fn sample_record() -> TlasInstanceRecord {
    TlasInstanceRecord {
        transform: [
            0x3f800000, 0, 0, 0x40000000, 0, 0x3f800000, 0, 0, 0, 0, 0x3f800000, 0,
        ],
        instance_custom_id: 0x00123456,
        visibility_mask: 0xff,
        hit_group_id: 0x00000002,
        flags: 0x01,
        acceleration_structure_reference: DeviceAddress(0x1122334455667788),
    }
}

#[test]
fn one_record_encodes_to_sixty_four_bytes() {
    let bytes = encode_instances(&vec![sample_record()]);
    assert_eq!(bytes.len() as u64, INSTANCE_RECORD_SIZE);
}

#[test]
fn transform_words_come_first_little_endian() {
    let bytes = encode_instances(&vec![sample_record()]);
    // first word, 1.0f bits
    assert_eq!(&bytes[0..4], &[0x00, 0x00, 0x80, 0x3f]);
    // fourth word, 2.0f bits: the x translation slot of the row-major matrix
    assert_eq!(&bytes[12..16], &[0x00, 0x00, 0x00, 0x40]);
}

#[test]
fn custom_id_and_mask_pack_into_one_word() {
    let bytes = encode_instances(&vec![sample_record()]);
    // low 24 bits custom id, high 8 bits visibility mask
    assert_eq!(&bytes[48..52], &[0x56, 0x34, 0x12, 0xff]);
}

#[test]
fn hit_group_and_flags_pack_into_one_word() {
    let bytes = encode_instances(&vec![sample_record()]);
    // low 24 bits hit-group offset, high 8 bits instance flags
    assert_eq!(&bytes[52..56], &[0x02, 0x00, 0x00, 0x01]);
}

#[test]
fn structure_reference_comes_last_little_endian() {
    let bytes = encode_instances(&vec![sample_record()]);
    assert_eq!(&bytes[56..64], &[0x88, 0x77, 0x66, 0x55, 0x44, 0x33, 0x22, 0x11]);
}

#[test]
fn custom_id_overflow_bits_are_masked_off() {
    let mut record = sample_record();
    record.instance_custom_id = 0xff000001;
    let bytes = encode_instances(&vec![record]);
    assert_eq!(&bytes[48..52], &[0x01, 0x00, 0x00, 0xff]);
}

#[test]
fn records_encode_back_to_back() {
    let bytes = encode_instances(&vec![sample_record(), sample_record()]);
    assert_eq!(bytes.len() as u64, 2 * INSTANCE_RECORD_SIZE);
    assert_eq!(&bytes[0..64], &bytes[64..128]);
}

#[test]
fn no_records_encode_to_no_bytes() {
    let bytes = encode_instances(&vec![]);
    assert!(bytes.is_empty());
}
