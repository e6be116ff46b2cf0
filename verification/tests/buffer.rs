use ringbuffer::Buffer;
use ringbuffer::BufferError;

#[test]
fn new_buffer_is_empty() {
    let b = Buffer::new(16);
    assert_eq!(b.readable_bytes(), 0);
    assert_eq!(b.writable_bytes(), 16);
    assert_eq!(b.prependable_bytes(), 0);
    assert_eq!(b.peek(), &[] as &[u8]);
}

#[test]
fn zero_capacity_boundary() {
    let mut b = Buffer::new(0);
    assert_eq!(b.readable_bytes(), 0);
    assert_eq!(b.writable_bytes(), 0);
    assert_eq!(b.prependable_bytes(), 0);
    b.append(&[7u8]);
    assert_eq!(b.readable_bytes(), 1);
    assert_eq!(b.peek(), &[7u8]);
}

#[test]
fn scenario_append_ten_of_sixteen() {
    let mut b = Buffer::new(16);
    let data: Vec<u8> = (0u8..10).collect();
    b.append(&data);
    assert_eq!(b.readable_bytes(), 10);
    assert_eq!(b.writable_bytes(), 6);
    assert_eq!(b.peek(), data.as_slice());
}

#[test]
fn scenario_consume_four() {
    let mut b = Buffer::new(16);
    let data: Vec<u8> = (0u8..10).collect();
    b.append(&data);
    assert_eq!(b.consume(4), Ok(()));
    assert_eq!(b.readable_bytes(), 6);
    assert_eq!(b.prependable_bytes(), 4);
    let rest: Vec<u8> = (4u8..10).collect();
    assert_eq!(b.peek(), rest.as_slice());
}

#[test]
fn scenario_append_compacts_without_realloc() {
    let mut b = Buffer::new(16);
    let data: Vec<u8> = (0u8..10).collect();
    b.append(&data);
    assert_eq!(b.consume(4), Ok(()));
    // Only 6 bytes are writable at the tail, but 4 + 6 = 10 are available
    // once the readable region is shifted down to offset zero.
    let more: Vec<u8> = (10u8..18).collect();
    b.append(&more);
    assert_eq!(b.prependable_bytes(), 0);
    assert_eq!(b.readable_bytes(), 14);
    assert_eq!(b.writable_bytes(), 2);
    let expected: Vec<u8> = (4u8..18).collect();
    assert_eq!(b.peek(), expected.as_slice());
}

#[test]
fn scenario_append_grows_storage() {
    let mut b = Buffer::new(16);
    let data: Vec<u8> = (0u8..10).collect();
    b.append(&data);
    assert_eq!(b.consume(4), Ok(()));
    let more: Vec<u8> = (10u8..18).collect();
    b.append(&more);
    let writable_before = b.writable_bytes();
    // 14 readable + 10 new bytes cannot fit in the 16-byte storage, so the
    // storage doubles to 32 and all prior readable bytes stay in order.
    let extra: Vec<u8> = (18u8..28).collect();
    b.append(&extra);
    assert_eq!(b.readable_bytes(), 24);
    assert!(b.writable_bytes() > writable_before);
    assert_eq!(b.writable_bytes(), 8);
    let expected: Vec<u8> = (4u8..28).collect();
    assert_eq!(b.peek(), expected.as_slice());
}

#[test]
fn consume_too_many_fails_unchanged() {
    let mut b = Buffer::new(16);
    b.append(&[1u8, 2, 3]);
    assert_eq!(b.consume(1), Ok(()));
    assert_eq!(b.consume(3), Err(BufferError::OutOfRange));
    assert_eq!(b.readable_bytes(), 2);
    assert_eq!(b.prependable_bytes(), 1);
    assert_eq!(b.writable_bytes(), 13);
    assert_eq!(b.peek(), &[2u8, 3]);
}

#[test]
fn prepend_fills_reclaimed_space() {
    let mut b = Buffer::new(8);
    b.append(&[1u8, 2, 3]);
    assert_eq!(b.consume(2), Ok(()));
    assert_eq!(b.prepend(&[7u8, 8]), Ok(()));
    assert_eq!(b.prependable_bytes(), 0);
    assert_eq!(b.readable_bytes(), 3);
    assert_eq!(b.peek(), &[7u8, 8, 3]);
}

#[test]
fn prepend_too_many_fails_unchanged() {
    let mut b = Buffer::new(8);
    b.append(&[1u8, 2, 3]);
    assert_eq!(b.consume(1), Ok(()));
    assert_eq!(b.prepend(&[7u8, 8]), Err(BufferError::InsufficientPrependSpace));
    assert_eq!(b.readable_bytes(), 2);
    assert_eq!(b.prependable_bytes(), 1);
    assert_eq!(b.writable_bytes(), 5);
    assert_eq!(b.peek(), &[2u8, 3]);
}

#[test]
fn queries_are_idempotent() {
    let mut b = Buffer::new(16);
    b.append(&[9u8, 8, 7]);
    assert_eq!(b.consume(1), Ok(()));
    assert_eq!(b.readable_bytes(), b.readable_bytes());
    assert_eq!(b.writable_bytes(), b.writable_bytes());
    assert_eq!(b.prependable_bytes(), b.prependable_bytes());
    let first: Vec<u8> = b.peek().to_vec();
    assert_eq!(b.peek(), first.as_slice());
}

#[test]
fn regions_sum_to_capacity() {
    let mut b = Buffer::new(16);
    b.append(&[1u8, 2, 3, 4, 5]);
    assert_eq!(b.consume(2), Ok(()));
    assert_eq!(
        b.readable_bytes() + b.writable_bytes() + b.prependable_bytes(),
        16
    );
}

#[test]
fn append_consume_round_trip() {
    let mut b = Buffer::new(16);
    b.append(&[1u8, 2, 3]);
    let before = b.readable_bytes();
    let fresh = [4u8, 5, 6];
    b.append(&fresh);
    assert_eq!(b.peek(), &[1u8, 2, 3, 4, 5, 6]);
    assert_eq!(b.consume(before), Ok(()));
    assert_eq!(b.peek(), &fresh);
}
