//! Tests for the size-accounting and byte-plumbing helpers.

use hipc::command::{
    byte_array_write, consumed_space, consumed_space_for_tls, get_recv_mode, push_array,
    safe_increment,
};

#[test]
fn consumed_space_formula() {
    // Header alone.
    assert_eq!(consumed_space(0, 0, 0, 0, 0, 0, 0, 0, false), 8);
    // Base contributions: 8 per static, 12 per buffer, 4 per raw word, plus
    // the special header.
    assert_eq!(consumed_space(1, 1, 1, 1, 0, 2, 0, 4, false), 64);
    // Receive statics tail: 8 bytes each.
    assert_eq!(consumed_space(0, 0, 0, 0, 5, 0, 0, 0, false), 48);
    // Pointer-buffer tail: one 8-byte entry.
    assert_eq!(consumed_space(0, 0, 0, 0, 0, 0, 0, 0, true), 16);
}

#[test]
fn consumed_space_aligns_inline_buffer() {
    // Base 20 rounds up to 32 before the inline bytes are counted.
    assert_eq!(consumed_space(0, 0, 0, 0, 0, 3, 16, 0, false), 48);
    // A base already on a 16-byte boundary takes no padding.
    assert_eq!(consumed_space(1, 0, 0, 0, 0, 0, 10, 0, false), 26);
    // Base 8 rounds up to 16.
    assert_eq!(consumed_space(0, 0, 0, 0, 0, 0, 1, 0, false), 17);
}

#[test]
fn consumed_space_for_tls_matches() {
    assert_eq!(consumed_space_for_tls(0, 0, 0, 0, 0, 62, 0, 0, false), 256);
    assert_eq!(
        consumed_space_for_tls(2, 1, 1, 0, 3, 4, 0, 12, false),
        consumed_space(2, 1, 1, 0, 3, 4, 0, 12, false)
    );
}

#[test]
fn recv_mode_formula() {
    assert_eq!(get_recv_mode(0, 0, false), 0);
    assert_eq!(get_recv_mode(0, 24, false), 1);
    assert_eq!(get_recv_mode(0, 0, true), 2);
    assert_eq!(get_recv_mode(1, 0, false), 3);
    assert_eq!(get_recv_mode(5, 0, false), 7);
    assert_eq!(get_recv_mode(13, 0, false), 15);
}

#[test]
fn safe_increment_steps() {
    assert_eq!(safe_increment(0, 1), 1);
    assert_eq!(safe_increment(14, 15), 15);
}

#[test]
fn push_array_extends() {
    let v = push_array(vec![1u32, 2], 3);
    assert_eq!(v, vec![1, 2, 3]);
    let v: Vec<u8> = push_array(Vec::new(), 9);
    assert_eq!(v, vec![9]);
}

#[test]
fn byte_array_write_replaces_only_the_range() {
    let base = vec![0u8; 8];
    let out = byte_array_write(base, vec![1, 2, 3], 4);
    assert_eq!(out, vec![0, 0, 0, 0, 1, 2, 3, 0]);

    let out = byte_array_write(vec![9u8; 4], Vec::new(), 2);
    assert_eq!(out, vec![9, 9, 9, 9]);
}
