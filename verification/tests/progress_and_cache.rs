use audiostream::cache::UrlCache;
use audiostream::error::AudioError;
use audiostream::events::ControlSignal;
use audiostream::progress::TrackProgress;

#[test]
fn fresh_progress_is_all_zero() {
    let p = TrackProgress::new();
    assert_eq!(p.get_progress(), (0, 0));
    assert_eq!(p.get_bitrate(), 0);
    assert_eq!(p.get_total_bytes(), 0);
    assert_eq!(p.get_buffered_bytes(), 0);
    assert_eq!(p.get_generation(), 0);
}

#[test]
fn progress_setters_round_trip() {
    let mut p = TrackProgress::new();
    p.set_current_position(12_345);
    p.set_total_duration(200_000);
    p.set_buffered_bytes(777);
    assert_eq!(p.get_progress(), (12_345, 200_000));
    assert_eq!(p.get_buffered_bytes(), 777);
}

#[test]
fn total_bytes_with_bitrate_derives_duration() {
    let mut p = TrackProgress::new();
    p.set_bitrate(320);
    // 4,000,000 bytes at 320 kbit/s: 4,000,000 * 8 / 320 = 100,000 ms
    p.set_total_bytes(4_000_000);
    assert_eq!(p.get_total_bytes(), 4_000_000);
    assert_eq!(p.get_progress().1, 100_000);
}

#[test]
fn total_bytes_without_bitrate_leaves_duration() {
    let mut p = TrackProgress::new();
    p.set_total_duration(5_000);
    p.set_total_bytes(4_000_000);
    assert_eq!(p.get_progress().1, 5_000);
}

#[test]
fn reset_bumps_generation_and_zeroes_figures() {
    let mut p = TrackProgress::new();
    p.set_bitrate(128);
    p.set_current_position(9_000);
    p.set_total_bytes(1_000);
    p.set_buffered_bytes(500);
    p.reset();
    assert_eq!(p.get_generation(), 1);
    assert_eq!(p.get_progress(), (0, 0));
    assert_eq!(p.get_bitrate(), 0);
    assert_eq!(p.get_total_bytes(), 0);
    assert_eq!(p.get_buffered_bytes(), 0);
    p.reset();
    assert_eq!(p.get_generation(), 2);
}

#[test]
fn cache_misses_then_hits() {
    let mut cache = UrlCache::new();
    assert!(cache.get("track-1").is_none());
    cache.insert(
        "track-1".to_string(),
        "https://cdn.example/1".to_string(),
        "mp3".to_string(),
        320,
    );
    let (url, codec, bitrate) = cache.get("track-1").expect("inserted");
    assert_eq!(url, "https://cdn.example/1");
    assert_eq!(codec, "mp3");
    assert_eq!(bitrate, 320);
    assert!(cache.get("track-2").is_none());
}

#[test]
fn cache_insert_shadows_older_entry() {
    let mut cache = UrlCache::new();
    cache.insert("id".to_string(), "first".to_string(), "mp3".to_string(), 128);
    cache.insert("other".to_string(), "elsewhere".to_string(), "aac".to_string(), 256);
    cache.insert("id".to_string(), "second".to_string(), "flac".to_string(), 900);
    let (url, codec, bitrate) = cache.get("id").expect("present");
    assert_eq!(url, "second");
    assert_eq!(codec, "flac");
    assert_eq!(bitrate, 900);
    let (other_url, _, _) = cache.get("other").expect("untouched");
    assert_eq!(other_url, "elsewhere");
}

#[test]
fn error_variants_carry_their_detail() {
    let e = AudioError::StreamError("wait for data timed out".to_string());
    match e {
        AudioError::StreamError(detail) => assert_eq!(detail, "wait for data timed out"),
        _ => panic!("variant preserved"),
    }
    let n = AudioError::NetworkError("connection refused".to_string());
    assert!(matches!(n, AudioError::NetworkError(_)));
}

#[test]
fn control_signals_compare_by_content() {
    assert_eq!(ControlSignal::Seek(30), ControlSignal::Seek(30));
    assert_ne!(ControlSignal::SeekForward(10), ControlSignal::SeekBackward(10));
    assert_eq!(ControlSignal::Stop, ControlSignal::Stop);
}
