//! End-to-end serialization tests for the command builder: exact bytes,
//! lengths, receive modes and inline-buffer alignment.

use hipc::command::{consumed_space, new_builder};
use hipc::header;
use hipc::packed::{BufferDescriptor, ReceiveListEntry, StaticDescriptor};
use hipc::CommandType;

fn word_at(bytes: &[u8], offset: usize) -> u32 {
    u32::from_le_bytes([
        bytes[offset],
        bytes[offset + 1],
        bytes[offset + 2],
        bytes[offset + 3],
    ])
}

fn recv_mode_of(bytes: &[u8]) -> u32 {
    (word_at(bytes, 4) >> 10) & 0xf
}

#[test]
fn empty_request() {
    let bytes = new_builder(CommandType::Request).build();
    assert_eq!(bytes.len(), 8);
    assert_eq!(word_at(&bytes, 0), 0x0000_0004);
    assert_eq!(word_at(&bytes, 4), 0x0000_0000);
    assert_eq!(recv_mode_of(&bytes), 0);
}

#[test]
fn command_kind_tags() {
    let kinds = [
        (CommandType::Invalid, 0x0),
        (CommandType::LegacyRequest, 0x1),
        (CommandType::Close, 0x2),
        (CommandType::LegacyControl, 0x3),
        (CommandType::Request, 0x4),
        (CommandType::Control, 0x5),
        (CommandType::RequestWithContext, 0x6),
        (CommandType::ControlWithContext, 0x7),
    ];
    for (kind, tag) in kinds {
        assert_eq!(kind.value(), tag);
        let bytes = new_builder(kind).build();
        assert_eq!(word_at(&bytes, 0) & 0xffff, tag as u32);
    }
}

#[test]
fn one_copy_handle_special_header() {
    let sh = header::new_builder().with_copy_handle(0xffff_8001).unwrap();
    let bytes = new_builder(CommandType::Request)
        .with_special_header(sh)
        .unwrap()
        .build();
    assert_eq!(bytes.len(), 16);
    // Header word 1 has only the special-header-present bit set.
    assert_eq!(word_at(&bytes, 0), 0x0000_0004);
    assert_eq!(word_at(&bytes, 4), 0x8000_0000);
    // The special header word records one copy handle.
    assert_eq!(word_at(&bytes, 8), 0x0000_0002);
    assert_eq!(&bytes[12..16], &[0x01, 0x80, 0xff, 0xff]);
}

#[test]
fn send_buffer_only() {
    let desc = BufferDescriptor::new(0x0000_1234_5678_9abc, 0x40, 1);
    let bytes = new_builder(CommandType::Request)
        .with_send_buffer(desc)
        .unwrap()
        .build();
    assert_eq!(bytes.len(), 20);
    assert_eq!(word_at(&bytes, 0), 0x0010_0004);
    assert_eq!(word_at(&bytes, 4), 0x0000_0000);
    assert_eq!(word_at(&bytes, 8), 0x0000_0040);
    assert_eq!(word_at(&bytes, 12), 0x5678_9abc);
    assert_eq!(word_at(&bytes, 16), 0x4000_048d);
}

#[test]
fn inline_buffer_alignment() {
    // Raw data ends at offset 20; the inline buffer starts at the next
    // 16-byte boundary, offset 32, with the gap zero-padded.
    let bytes = new_builder(CommandType::Request)
        .with_raw_data(vec![1u32, 2, 3])
        .unwrap()
        .with_inline_buffer(vec![0xaau8; 16])
        .unwrap()
        .build();
    assert_eq!(bytes.len(), 48);
    assert_eq!(word_at(&bytes, 0), 0x0000_0004);
    // Word 1: raw length 3, receive mode 1.
    assert_eq!(word_at(&bytes, 4), 0x0000_0403);
    assert_eq!(recv_mode_of(&bytes), 1);
    assert_eq!(word_at(&bytes, 8), 1);
    assert_eq!(word_at(&bytes, 12), 2);
    assert_eq!(word_at(&bytes, 16), 3);
    // Zero padding from 20 to 32, then the inline buffer at an offset
    // divisible by 16.
    assert!(bytes[20..32].iter().all(|b| *b == 0));
    assert!(bytes[32..48].iter().all(|b| *b == 0xaa));
    assert_eq!(32 % 16, 0);
}

#[test]
fn pointer_buffer() {
    let entry = ReceiveListEntry::new(0x0000_0000_dead_beef, 0x100);
    let bytes = new_builder(CommandType::Request)
        .with_pointer_buffer(entry)
        .unwrap()
        .build();
    assert_eq!(bytes.len(), 16);
    assert_eq!(recv_mode_of(&bytes), 2);
    assert_eq!(word_at(&bytes, 8), 0xdead_beef);
    assert_eq!(word_at(&bytes, 12), 0x0100_0000);
}

#[test]
fn five_receive_statics() {
    let mut b = new_builder(CommandType::Request);
    for i in 0..5u64 {
        b = b.with_recv_static(ReceiveListEntry::new(0x1000 * i, 0x20)).unwrap();
    }
    let bytes = b.build();
    assert_eq!(bytes.len(), 48);
    assert_eq!(recv_mode_of(&bytes), 7);
    // The entries follow the header in insertion order.
    for i in 0..5u64 {
        assert_eq!(word_at(&bytes, 8 + 8 * i as usize), (0x1000 * i) as u32);
    }
}

#[test]
fn serialization_order_special_header_before_descriptors() {
    let sh = header::new_builder().with_copy_handle(0xffff_8001).unwrap();
    let desc = StaticDescriptor::new(2, 0x10, 0x4000);
    let bytes = new_builder(CommandType::Request)
        .with_send_static(desc)
        .unwrap()
        .with_special_header(sh)
        .unwrap()
        .build();
    assert_eq!(bytes.len(), 8 + 8 + 8);
    // Send-statics count 1 in header word 0 bits [16..20].
    assert_eq!(word_at(&bytes, 0), 0x0001_0004);
    // The special header comes first, at offset 8.
    assert_eq!(word_at(&bytes, 8), 0x0000_0002);
    assert_eq!(word_at(&bytes, 12), 0xffff_8001);
    // The static descriptor follows at offset 16.
    assert_eq!(word_at(&bytes, 16), 0x0010_0002);
    assert_eq!(word_at(&bytes, 20), 0x0000_4000);
}

#[test]
fn receive_statics_follow_raw_data() {
    let bytes = new_builder(CommandType::Request)
        .with_raw_data(vec![0x0a0b_0c0du32])
        .unwrap()
        .with_recv_static(ReceiveListEntry::new(0x1111, 0x10))
        .unwrap()
        .with_recv_static(ReceiveListEntry::new(0x2222, 0x20))
        .unwrap()
        .build();
    assert_eq!(bytes.len(), 8 + 4 + 16);
    assert_eq!(recv_mode_of(&bytes), 4);
    assert_eq!(word_at(&bytes, 8), 0x0a0b_0c0d);
    assert_eq!(word_at(&bytes, 12), 0x1111);
    assert_eq!(word_at(&bytes, 16), 0x0010_0000);
    assert_eq!(word_at(&bytes, 20), 0x2222);
    assert_eq!(word_at(&bytes, 24), 0x0020_0000);
}

#[test]
fn inline_buffer_alignment_with_special_header() {
    // Header (8) + empty special header (4) + one raw word (4) put the base
    // at 16, already aligned: no padding before the inline buffer.
    let bytes = new_builder(CommandType::Request)
        .with_special_header(header::new_builder())
        .unwrap()
        .with_raw_data(vec![7u32])
        .unwrap()
        .with_inline_buffer(vec![0x11u8; 8])
        .unwrap()
        .build();
    assert_eq!(bytes.len(), 24);
    assert_eq!(recv_mode_of(&bytes), 1);
    assert!(bytes[16..24].iter().all(|b| *b == 0x11));
}

#[test]
fn size_law_matches_accounting() {
    let sh = header::new_builder().with_copy_handle(1).unwrap();
    let b = new_builder(CommandType::Control)
        .with_send_static(StaticDescriptor::new(0, 8, 0x1000))
        .unwrap()
        .with_send_buffer(BufferDescriptor::new(0x2000, 0x10, 0))
        .unwrap()
        .with_recv_buffer(BufferDescriptor::new(0x3000, 0x10, 0))
        .unwrap()
        .with_exch_buffer(BufferDescriptor::new(0x4000, 0x10, 0))
        .unwrap()
        .with_raw_data(vec![0xdead_beefu32, 0xcafe_babe])
        .unwrap()
        .with_special_header(sh)
        .unwrap()
        .with_pointer_buffer(ReceiveListEntry::new(0x5000, 0x40))
        .unwrap();
    let expected = consumed_space(1, 1, 1, 1, 0, 2, 0, 8, true);
    assert_eq!(expected, 8 + 8 + 8 + 12 * 3 + 4 * 2 + 8);
    let bytes = b.build();
    assert_eq!(bytes.len(), expected);
    assert!(bytes.len() <= 256);
}

#[test]
fn tls_cap_is_never_exceeded() {
    // The largest raw payload that still fits: 62 words, 256 bytes in all.
    let b = new_builder(CommandType::Request)
        .with_raw_data(vec![0u32; 62])
        .unwrap();
    let bytes = b.build();
    assert_eq!(bytes.len(), 256);
}

#[test]
fn raw_data_replaces_prior_payload() {
    let bytes = new_builder(CommandType::Request)
        .with_raw_data(vec![1u32, 2])
        .unwrap()
        .with_raw_data(vec![5u32])
        .unwrap()
        .build();
    assert_eq!(bytes.len(), 12);
    assert_eq!(word_at(&bytes, 4) & 0x3ff, 1);
    assert_eq!(word_at(&bytes, 8), 5);
}

#[test]
fn empty_inline_buffer_replaces_prior_one() {
    let bytes = new_builder(CommandType::Request)
        .with_inline_buffer(vec![0xffu8; 32])
        .unwrap()
        .with_inline_buffer(Vec::new())
        .unwrap()
        .build();
    assert_eq!(bytes.len(), 8);
    assert_eq!(recv_mode_of(&bytes), 0);
}

#[test]
fn inline_buffer_at_cap_boundary() {
    // Base is 8; aligned to 16; 240 inline bytes land exactly on the cap.
    let bytes = new_builder(CommandType::Request)
        .with_inline_buffer(vec![0x55u8; 240])
        .unwrap()
        .build();
    assert_eq!(bytes.len(), 256);
    assert!(bytes[8..16].iter().all(|b| *b == 0));
    assert!(bytes[16..256].iter().all(|b| *b == 0x55));
}
