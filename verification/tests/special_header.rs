//! Tests for the special header builder: composition, ceilings and
//! serialization order.

use hipc::header::{consumed_space, new_builder};
use hipc::HipcError;

#[test]
fn empty_special_header_is_one_word() {
    let bytes = new_builder().build();
    assert_eq!(bytes, vec![0, 0, 0, 0]);
}

#[test]
fn special_header_consumed_space_formula() {
    assert_eq!(consumed_space(0, 0, 0), 4);
    assert_eq!(consumed_space(1, 0, 0), 12);
    assert_eq!(consumed_space(1, 2, 3), 32);
    assert_eq!(consumed_space(0, 15, 15), 124);
}

#[test]
fn special_header_serialization_order() {
    // Word, then PID, then copy handles, then move handles, little-endian.
    let b = new_builder()
        .with_program_id(0x1122_3344_5566_7788)
        .unwrap()
        .with_copy_handle(0xaaaa_0001)
        .unwrap()
        .with_copy_handle(0xaaaa_0002)
        .unwrap()
        .with_move_handle(0xbbbb_0001)
        .unwrap();
    let bytes = b.build();
    assert_eq!(bytes.len(), consumed_space(1, 2, 1));
    assert_eq!(
        bytes,
        vec![
            0x25, 0x00, 0x00, 0x00, // PID flag | copy count 2 | move count 1
            0x88, 0x77, 0x66, 0x55, 0x44, 0x33, 0x22, 0x11, // the PID
            0x01, 0x00, 0xaa, 0xaa, // first copy handle
            0x02, 0x00, 0xaa, 0xaa, // second copy handle
            0x01, 0x00, 0xbb, 0xbb, // the move handle
        ]
    );
}

#[test]
fn second_program_id_is_rejected() {
    let b = new_builder().with_program_id(1).unwrap();
    assert_eq!(b.with_program_id(2).unwrap_err(), HipcError::TooManyProcessIds);
}

#[test]
fn sixteenth_copy_handle_is_rejected() {
    let mut b = new_builder();
    for i in 0..15 {
        b = b.with_copy_handle(i).unwrap();
    }
    assert_eq!(b.with_copy_handle(15).unwrap_err(), HipcError::TooManyCopyHandles);
}

#[test]
fn sixteenth_move_handle_is_rejected() {
    let mut b = new_builder();
    for i in 0..15 {
        b = b.with_move_handle(i).unwrap();
    }
    assert_eq!(b.with_move_handle(15).unwrap_err(), HipcError::TooManyMoveHandles);
}

#[test]
fn full_special_header_size() {
    let mut b = new_builder().with_program_id(7).unwrap();
    for i in 0..15 {
        b = b.with_copy_handle(i).unwrap();
        b = b.with_move_handle(i).unwrap();
    }
    let bytes = b.build();
    assert_eq!(bytes.len(), 4 + 8 + 4 * 15 + 4 * 15);
    // The packed word is 0x1ff: the PID flag and both counts at 15.
    assert_eq!(bytes[0], 0xff);
    assert_eq!(bytes[1], 0x01);
}
