use audiostream::buffer::{BufferState, BUFFER_SIZE, PREFETCH_TRIGGER};

#[test]
fn fresh_window_is_empty() {
    let b = BufferState::new(1000);
    assert!(!b.contains(0));
    assert_eq!(b.available_from(0), 0);
    assert_eq!(b.end_pos(), 0);
    assert!(!b.is_eof());
}

#[test]
fn append_rejects_empty_input() {
    let mut b = BufferState::new(1000);
    assert!(!b.append(&[], 0));
    assert_eq!(b.end_pos(), 0);
}

#[test]
fn append_rejects_data_before_window() {
    let mut b = BufferState::new(1000);
    assert!(b.append(&[1, 2, 3, 4], 0));
    b.discard_before(2);
    assert_eq!(b.end_pos(), 4);
    assert!(!b.append(&[9], 1));
    assert_eq!(b.available_from(2), 2);
}

#[test]
fn append_rejects_empty_window_off_start() {
    let mut b = BufferState::new(1000);
    b.clear(10);
    assert!(!b.append(&[1, 2], 11));
    assert!(b.append(&[1, 2], 10));
    assert!(b.contains(10));
    assert!(b.contains(11));
    assert!(!b.contains(12));
}

#[test]
fn read_at_round_trips_appended_bytes() {
    let mut b = BufferState::new(1000);
    assert!(b.append(&[10, 20, 30, 40, 50], 0));
    let mut buf = vec![0u8; 5];
    let n = b.read_at(0, &mut buf);
    assert_eq!(n, 5);
    assert_eq!(buf, vec![10, 20, 30, 40, 50]);
}

#[test]
fn read_at_honors_buffer_length_and_offset() {
    let mut b = BufferState::new(1000);
    assert!(b.append(&[10, 20, 30, 40, 50], 0));
    let mut small = vec![0u8; 2];
    assert_eq!(b.read_at(1, &mut small), 2);
    assert_eq!(small, vec![20, 30]);
    let mut big = vec![99u8; 8];
    let n = b.read_at(3, &mut big);
    assert_eq!(n, 2);
    assert_eq!(&big[..2], &[40, 50]);
    assert_eq!(&big[2..], &[99, 99, 99, 99, 99, 99]);
}

#[test]
fn read_at_outside_window_returns_nothing() {
    let mut b = BufferState::new(1000);
    assert!(b.append(&[1, 2, 3], 0));
    let mut buf = vec![0u8; 4];
    assert_eq!(b.read_at(3, &mut buf), 0);
    assert_eq!(b.read_at(100, &mut buf), 0);
    assert_eq!(buf, vec![0, 0, 0, 0]);
}

#[test]
fn non_adjacent_append_discards_window() {
    let mut b = BufferState::new(100_000);
    assert!(b.append(&[1, 2, 3, 4, 5, 6, 7, 8], 0));
    assert!(b.append(&[70, 71, 72], 500));
    assert!(!b.contains(0));
    assert!(!b.contains(7));
    assert!(b.contains(500));
    assert_eq!(b.end_pos(), 503);
    let mut buf = vec![0u8; 3];
    assert_eq!(b.read_at(500, &mut buf), 3);
    assert_eq!(buf, vec![70, 71, 72]);
}

#[test]
fn adjacent_append_extends_window() {
    let mut b = BufferState::new(1000);
    assert!(b.append(&[1, 2, 3], 0));
    assert!(b.append(&[4, 5], 3));
    assert_eq!(b.end_pos(), 5);
    let mut buf = vec![0u8; 5];
    assert_eq!(b.read_at(0, &mut buf), 5);
    assert_eq!(buf, vec![1, 2, 3, 4, 5]);
}

#[test]
fn capacity_overflow_evicts_from_front() {
    let mut b = BufferState::new(u64::MAX);
    let big = vec![7u8; BUFFER_SIZE];
    assert!(b.append(&big, 0));
    assert_eq!(b.end_pos(), BUFFER_SIZE as u64);
    assert!(b.append(&[1, 2, 3], BUFFER_SIZE as u64));
    // three bytes were evicted from the front; the start advanced
    assert!(!b.contains(2));
    assert!(b.contains(3));
    assert_eq!(b.end_pos(), BUFFER_SIZE as u64 + 3);
    assert_eq!(b.available_from(3), BUFFER_SIZE);
    let mut tail = vec![0u8; 3];
    assert_eq!(b.read_at(BUFFER_SIZE as u64, &mut tail), 3);
    assert_eq!(tail, vec![1, 2, 3]);
}

#[test]
fn eof_set_when_append_reaches_total() {
    let mut b = BufferState::new(10);
    assert!(b.append(&[0, 1, 2, 3, 4], 0));
    assert!(!b.is_eof());
    assert!(b.append(&[5, 6, 7, 8, 9], 5));
    assert!(b.is_eof());
    // eof persists across further adjacent activity
    b.discard_before(8);
    assert!(b.is_eof());
    assert!(b.append(&[99], 10));
    assert!(b.is_eof());
}

#[test]
fn no_prefetch_at_eof() {
    let mut b = BufferState::new(4);
    assert!(b.append(&[1, 2, 3, 4], 0));
    assert!(b.is_eof());
    assert!(!b.should_prefetch(0));
    assert!(!b.should_prefetch(4));
}

#[test]
fn prefetch_wanted_when_window_runs_low() {
    let mut b = BufferState::new(10_000_000);
    let chunk = vec![1u8; 2 * PREFETCH_TRIGGER];
    assert!(b.append(&chunk, 0));
    assert!(!b.should_prefetch(0));
    // fewer than PREFETCH_TRIGGER bytes remain past this position
    assert!(b.should_prefetch((PREFETCH_TRIGGER + 1) as u64));
    // an uncontained position has nothing available at all
    assert!(b.should_prefetch(5_000_000));
}

#[test]
fn pending_fetch_suppresses_prefetch() {
    let mut b = BufferState::new(10_000_000);
    assert!(b.append(&[1, 2, 3], 0));
    assert!(b.should_prefetch(0));
    b.mark_pending(3, 100);
    assert!(!b.should_prefetch(0));
    b.clear_pending();
    assert!(b.should_prefetch(0));
}

#[test]
fn append_inside_pending_range_retires_marker() {
    let mut b = BufferState::new(10_000_000);
    b.mark_pending(0, 100);
    assert!(!b.should_prefetch(0));
    assert!(b.append(&[1, 2, 3], 0));
    // the marker was retired, and too little is buffered: prefetch again
    assert!(b.should_prefetch(0));
}

#[test]
fn clear_resets_window_to_new_start() {
    let mut b = BufferState::new(20);
    assert!(b.append(&[1, 2, 3, 4, 5], 0));
    b.mark_pending(5, 10);
    b.clear(12);
    assert!(!b.contains(0));
    assert!(!b.contains(4));
    assert_eq!(b.end_pos(), 12);
    assert!(!b.is_eof());
    assert!(b.append(&[8, 9], 12));
    assert!(b.contains(12));
}

#[test]
fn clear_resets_eof() {
    let mut b = BufferState::new(5);
    assert!(b.append(&[1, 2, 3, 4, 5], 0));
    assert!(b.is_eof());
    b.clear(0);
    assert!(!b.is_eof());
}

#[test]
fn discard_before_trails_the_cursor() {
    let mut b = BufferState::new(1000);
    assert!(b.append(&[1, 2, 3, 4, 5, 6], 0));
    b.discard_before(4);
    assert!(!b.contains(3));
    assert!(b.contains(4));
    assert_eq!(b.available_from(4), 2);
    assert_eq!(b.end_pos(), 6);
    // discarding before the start is a no-op
    b.discard_before(2);
    assert_eq!(b.available_from(4), 2);
    // discarding past the end empties the window
    b.discard_before(100);
    assert_eq!(b.available_from(6), 0);
    assert_eq!(b.end_pos(), 6);
}

#[test]
fn high_water_tracks_forward_buffering() {
    let mut b = BufferState::new(1000);
    assert_eq!(b.max_buffered_from_start(), 0);
    assert!(b.append(&[1, 2, 3, 4], 0));
    assert_eq!(b.max_buffered_from_start(), 4);
    b.discard_before(2);
    assert_eq!(b.max_buffered_from_start(), 4);
    assert!(b.append(&[5, 6], 4));
    assert_eq!(b.max_buffered_from_start(), 6);
    // a seek backwards re-anchors the marker
    b.clear(1);
    assert_eq!(b.max_buffered_from_start(), 1);
}
