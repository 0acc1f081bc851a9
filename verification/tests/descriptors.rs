//! Round-trip and byte-layout tests for the packed descriptor types.

use hipc::packed::{
    bitmask, extract, BufferDescriptor, Header, ReceiveListEntry, SpecialHeader, StaticDescriptor,
};
use hipc::IntoBytes;

#[test]
fn bitmask_ranges() {
    assert_eq!(bitmask(0, 6), 0x3f);
    assert_eq!(bitmask(16, 32), 0xffff_0000);
    assert_eq!(bitmask(0, 64), u64::MAX);
    assert_eq!(bitmask(12, 12), 0);
    assert_eq!(bitmask(63, 64), 0x8000_0000_0000_0000);
}

#[test]
fn extract_ranges() {
    assert_eq!(extract(0xdead_beef, 0, 16), 0xbeef);
    assert_eq!(extract(0xdead_beef, 16, 32), 0xdead);
    assert_eq!(extract(0xff, 4, 8), 0xf);
    assert_eq!(extract(0x1234_5678_9abc_def0, 0, 64), 0x1234_5678_9abc_def0);
}

#[test]
fn set_preserves_other_bits() {
    // Take 8 bits from src at 0 and plant them at 8 in dst.
    assert_eq!(hipc::packed::set(0xab, 0xffff_ffff, 0, 8, 8), 0xffff_abff);
    // A zero-length write changes nothing.
    assert_eq!(hipc::packed::set(0xab, 0x1234, 0, 4, 0), 0x1234);
}

#[test]
fn static_descriptor_round_trip() {
    // index truncates to 6 bits, size to 16, address to 42.
    let d = StaticDescriptor::new(0x45, 0x12345, 0xffff_ffff_ffff);
    assert_eq!(d.index(), 0x05);
    assert_eq!(d.size(), 0x2345);
    assert_eq!(d.address(), 0x3ff_ffff_ffff);

    // In-range fields come back exactly.
    let d = StaticDescriptor::new(0x3f, 0xffff, 0x3ff_ffff_ffff);
    assert_eq!(d.index(), 0x3f);
    assert_eq!(d.size(), 0xffff);
    assert_eq!(d.address(), 0x3ff_ffff_ffff);
}

#[test]
fn static_descriptor_bytes() {
    // Word 0: index | addr[36..42] << 6 | addr[32..36] << 12 | size << 16.
    let d = StaticDescriptor::new(1, 0x2233, 0x0000_0004_8765_4321);
    assert_eq!(d.w1, 0x8765_4321);
    assert_eq!(d.w0, 0x2233_4001);
    let bytes = d.into_bytes();
    assert_eq!(bytes, vec![0x01, 0x40, 0x33, 0x22, 0x21, 0x43, 0x65, 0x87]);
}

#[test]
fn buffer_descriptor_round_trip() {
    let d = BufferDescriptor::new(0x0000_1234_5678_9abc, 0x40, 1);
    assert_eq!(d.size(), 0x40);
    assert_eq!(d.address(), 0x1234_5678_9abc);
    assert_eq!(d.mode(), 1);
    assert_eq!(d.w0, 0x40);
    assert_eq!(d.w1, 0x5678_9abc);
    assert_eq!(d.w2, 0x4000_048d);

    // Over-range fields truncate: mode to 2 bits, address to 58 bits.
    let d = BufferDescriptor::new(u64::MAX, usize::MAX, 0xff);
    assert_eq!(d.mode(), 3);
    assert_eq!(d.address(), 0x3ff_ffff_ffff_ffff);
    assert_eq!(d.size() as u64, u64::MAX % 0x10_0000_0000);
}

#[test]
fn receive_list_entry_round_trip() {
    let e = ReceiveListEntry::new(0xdead_beef_cafe, 0x123456);
    assert_eq!(e.address(), 0xdead_beef_cafe);
    assert_eq!(e.size(), 0x3456);

    // The address truncates to 48 bits.
    let e = ReceiveListEntry::new(u64::MAX, 0xffff);
    assert_eq!(e.address(), 0xffff_ffff_ffff);
    assert_eq!(e.size(), 0xffff);
}

#[test]
fn special_header_round_trip() {
    let s = SpecialHeader::new(true, 20, 33);
    assert!(s.send_pid());
    assert_eq!(s.num_copy_handles(), 4);
    assert_eq!(s.num_move_handles(), 1);
    assert_eq!(s.w0, 0x29);

    let s = SpecialHeader::new(false, 15, 15);
    assert!(!s.send_pid());
    assert_eq!(s.num_copy_handles(), 15);
    assert_eq!(s.num_move_handles(), 15);
}

#[test]
fn header_round_trip() {
    let h = Header::new(0x1234, 17, 2, 3, 4, 1050, 0xff, 0x1234, true);
    assert_eq!(h.ty(), 0x1234);
    assert_eq!(h.num_send_statics(), 1);
    assert_eq!(h.num_send_buffers(), 2);
    assert_eq!(h.num_receive_buffers(), 3);
    assert_eq!(h.num_exchange_buffers(), 4);
    assert_eq!(h.raw_data_len(), 26);
    assert_eq!(h.receive_static_mode(), 15);
    assert_eq!(h.receive_list_offset(), 0x234);
    assert!(h.has_special_header());

    let h = Header::new(4, 0, 0, 0, 0, 0, 0, 0, false);
    assert_eq!(h.w0, 4);
    assert_eq!(h.w1, 0);
    assert!(!h.has_special_header());
}

#[test]
fn little_endian_byte_law() {
    // Byte i of each 32-bit word equals (w >> (8 * i)) & 0xff.
    let d = StaticDescriptor::new(0x21, 0xfedc, 0x3a5_a5a5_a5a5);
    let bytes = d.into_bytes();
    for i in 0..4 {
        assert_eq!(bytes[i], ((d.w0 >> (8 * i)) & 0xff) as u8);
        assert_eq!(bytes[4 + i], ((d.w1 >> (8 * i)) & 0xff) as u8);
    }
    let h = Header::new(0xa1b2, 3, 4, 5, 6, 7, 8, 9, true);
    let bytes = h.into_bytes();
    for i in 0..4 {
        assert_eq!(bytes[i], ((h.w0 >> (8 * i)) & 0xff) as u8);
        assert_eq!(bytes[4 + i], ((h.w1 >> (8 * i)) & 0xff) as u8);
    }
}

#[test]
fn buffer_descriptor_bytes_order() {
    let d = BufferDescriptor::new(0x0000_1234_5678_9abc, 0x40, 1);
    let bytes = d.into_bytes();
    assert_eq!(
        bytes,
        vec![
            0x40, 0x00, 0x00, 0x00, // size low word
            0xbc, 0x9a, 0x78, 0x56, // address low word
            0x8d, 0x04, 0x00, 0x40, // packed word 2
        ]
    );
}
