//! End-to-end walk over a 1,000,000-byte resource: initial fill, reads up to
//! offset 900,000, the prefetch issued there, and a seek back to 0.

use audiostream::data_source::{
    range_header_end, FetchRequest, SeekWhence, StreamingDataSource, MIN_INITIAL_DATA,
    PREFETCH_SIZE,
};

const TOTAL: u64 = 1_000_000;

/// Play the worker's part: mark the fetch, hand back `len` bytes of its
/// range.
fn service_fetch(r: &mut StreamingDataSource, req: FetchRequest, len: usize) {
    r.mark_fetch_started(req.start, req.end);
    let body = vec![42u8; len];
    assert!(r.apply_fetch_success(&body, req.start, req.generation));
}

#[test]
fn million_byte_walk() {
    let mut r = StreamingDataSource::new(TOTAL);

    // construction: the first fetch fills at least the initial minimum
    let first = r.initial_fetch_request();
    assert_eq!(first.start, 0);
    assert_eq!(first.end, PREFETCH_SIZE as u64);
    service_fetch(&mut r, first, (first.end - first.start) as usize);
    assert!(r.wait_satisfied(0, MIN_INITIAL_DATA));

    // read forward to 900,000, resynchronizing when the window runs out;
    // the fetch that would reach the resource end returns a short body, as a
    // server may, so EOF stays unseen
    let mut buf = vec![0u8; 65536];
    while r.position < 900_000 {
        if r.needs_resync() {
            let req = r.begin_resync().expect("bytes remain past the cursor");
            let full = (req.end - req.start) as usize;
            let len = if req.end > 900_000 { (900_000 - req.start) as usize } else { full };
            service_fetch(&mut r, req, len);
        }
        let pos = r.position;
        let want = (900_000 - pos).min(65536) as usize;
        buf.truncate(want);
        let (n, _plan) = r.complete_read(&mut buf);
        assert!(n > 0, "the window held bytes at the cursor");
        buf.resize(65536, 0);
    }

    // at 900,000 the window is drained: a prefetch for the tail is wanted
    assert_eq!(r.position, 900_000);
    let plan = r.trigger_prefetch().expect("the window ran dry before EOF");
    assert_eq!(plan.start, 900_000);
    // [900000, 900000 + 262144) clamped to the resource length
    assert_eq!(plan.end, TOTAL);
    // the Range header names the last byte inclusively
    assert_eq!(range_header_end(plan.end), 999_999);

    // seeking back to byte 0 resets the window and discards everything above
    let newpos = r.seek(SeekWhence::Start(0));
    assert_eq!(newpos, 0);
    let resync = r.begin_resync().expect("byte 0 is no longer cached");
    assert_eq!(resync.start, 0);
    assert_eq!(resync.end, PREFETCH_SIZE as u64);
    assert!(!r.wait_satisfied(900_000, 1));
    assert!(!r.wait_satisfied(0, 1));
    service_fetch(&mut r, resync, PREFETCH_SIZE);
    assert!(r.wait_satisfied(0, PREFETCH_SIZE));
}
