//! Composition-failure tests: cardinality ceilings, mutual exclusion among
//! the receive-side constructs, and the TLS size cap.

use hipc::command::new_builder;
use hipc::header;
use hipc::packed::{BufferDescriptor, ReceiveListEntry, StaticDescriptor};
use hipc::{CommandType, HipcError};

fn entry() -> ReceiveListEntry {
    ReceiveListEntry::new(0x8000, 0x40)
}

fn buffer() -> BufferDescriptor {
    BufferDescriptor::new(0x9000, 0x40, 0)
}

#[test]
fn sixteenth_send_static_is_rejected() {
    let mut b = new_builder(CommandType::Request);
    for i in 0..15 {
        b = b.with_send_static(StaticDescriptor::new(i, 4, 0x1000)).unwrap();
    }
    let err = b.with_send_static(StaticDescriptor::new(15, 4, 0x1000)).unwrap_err();
    assert_eq!(err, HipcError::TooManySendStatics);
}

#[test]
fn sixteenth_send_buffer_is_rejected() {
    let mut b = new_builder(CommandType::Request);
    for _ in 0..15 {
        b = b.with_send_buffer(buffer()).unwrap();
    }
    assert_eq!(b.with_send_buffer(buffer()).unwrap_err(), HipcError::TooManySendBuffers);
}

#[test]
fn sixteenth_recv_buffer_is_rejected() {
    let mut b = new_builder(CommandType::Request);
    for _ in 0..15 {
        b = b.with_recv_buffer(buffer()).unwrap();
    }
    assert_eq!(b.with_recv_buffer(buffer()).unwrap_err(), HipcError::TooManyRecvBuffers);
}

#[test]
fn sixteenth_exch_buffer_is_rejected() {
    let mut b = new_builder(CommandType::Request);
    for _ in 0..15 {
        b = b.with_exch_buffer(buffer()).unwrap();
    }
    assert_eq!(b.with_exch_buffer(buffer()).unwrap_err(), HipcError::TooManyExchBuffers);
}

#[test]
fn fourteenth_recv_static_is_rejected() {
    let mut b = new_builder(CommandType::Request);
    for _ in 0..13 {
        b = b.with_recv_static(entry()).unwrap();
    }
    assert_eq!(b.with_recv_static(entry()).unwrap_err(), HipcError::TooManyRecvStatics);
}

#[test]
fn second_special_header_is_rejected() {
    let b = new_builder(CommandType::Request)
        .with_special_header(header::new_builder())
        .unwrap();
    let err = b.with_special_header(header::new_builder()).unwrap_err();
    assert_eq!(err, HipcError::TooManySpecialHeaders);
}

#[test]
fn second_pointer_buffer_is_rejected() {
    let b = new_builder(CommandType::Request).with_pointer_buffer(entry()).unwrap();
    assert_eq!(b.with_pointer_buffer(entry()).unwrap_err(), HipcError::TooManyPointerBuffers);
}

#[test]
fn recv_static_conflicts_with_inline_buffer() {
    let b = new_builder(CommandType::Request)
        .with_inline_buffer(vec![1u8, 2, 3])
        .unwrap();
    assert_eq!(b.with_recv_static(entry()).unwrap_err(), HipcError::ReceiveListConflict);

    let b = new_builder(CommandType::Request).with_recv_static(entry()).unwrap();
    let err = b.with_inline_buffer(vec![1u8, 2, 3]).unwrap_err();
    assert_eq!(err, HipcError::ReceiveListConflict);
}

#[test]
fn recv_static_conflicts_with_pointer_buffer() {
    let b = new_builder(CommandType::Request).with_pointer_buffer(entry()).unwrap();
    assert_eq!(b.with_recv_static(entry()).unwrap_err(), HipcError::ReceiveListConflict);

    let b = new_builder(CommandType::Request).with_recv_static(entry()).unwrap();
    assert_eq!(b.with_pointer_buffer(entry()).unwrap_err(), HipcError::ReceiveListConflict);
}

#[test]
fn inline_buffer_conflicts_with_pointer_buffer() {
    let b = new_builder(CommandType::Request)
        .with_inline_buffer(vec![1u8])
        .unwrap();
    assert_eq!(b.with_pointer_buffer(entry()).unwrap_err(), HipcError::ReceiveListConflict);

    let b = new_builder(CommandType::Request).with_pointer_buffer(entry()).unwrap();
    assert_eq!(b.with_inline_buffer(vec![1u8]).unwrap_err(), HipcError::ReceiveListConflict);
}

#[test]
fn empty_inline_buffer_does_not_conflict() {
    // A zero-length inline buffer means no inline buffer at all.
    let b = new_builder(CommandType::Request)
        .with_recv_static(entry())
        .unwrap()
        .with_inline_buffer(Vec::new())
        .unwrap();
    assert_eq!(b.build().len(), 16);
}

#[test]
fn oversized_raw_data_is_rejected() {
    // 63 raw words put the total at 260 bytes, past the 256-byte TLS cap.
    let err = new_builder(CommandType::Request)
        .with_raw_data(vec![0u32; 63])
        .unwrap_err();
    assert_eq!(err, HipcError::TlsCapExceeded);
}

#[test]
fn oversized_inline_buffer_is_rejected() {
    // 241 inline bytes after the 16-byte alignment reach 257 bytes.
    let err = new_builder(CommandType::Request)
        .with_inline_buffer(vec![0u8; 241])
        .unwrap_err();
    assert_eq!(err, HipcError::TlsCapExceeded);
}

#[test]
fn cap_overflow_at_descriptor_step_is_rejected() {
    // 248 bytes of raw data fill the region; one more send static tips it.
    let b = new_builder(CommandType::Request)
        .with_raw_data(vec![0u32; 62])
        .unwrap();
    let err = b.with_send_static(StaticDescriptor::new(0, 4, 0)).unwrap_err();
    assert_eq!(err, HipcError::TlsCapExceeded);
}

#[test]
fn cap_overflow_with_special_header_is_rejected() {
    // 61 raw words leave 4 free bytes; the smallest special header needs 4,
    // a PID-carrying one needs 12.
    let b = new_builder(CommandType::Request)
        .with_raw_data(vec![0u32; 61])
        .unwrap();
    let sh = header::new_builder().with_program_id(1).unwrap();
    assert_eq!(b.with_special_header(sh).unwrap_err(), HipcError::TlsCapExceeded);

    let b = new_builder(CommandType::Request)
        .with_raw_data(vec![0u32; 61])
        .unwrap()
        .with_special_header(header::new_builder())
        .unwrap();
    assert_eq!(b.build().len(), 256);
}
