use audio::stream::ReadFailurePlan;
use audio::stream::SeekWhence;
use audio::stream::SERVE_CAP;
use audio::TrackStream;

/// The mock remote resource: fixed length, known contents.
fn content(len: usize) -> Vec<u8> {
    (0..len).map(|i| (i % 251) as u8).collect()
}

fn stream_over(len: usize) -> TrackStream {
    let header = format!("{len}");
    TrackStream::new(Some(&header)).expect("a digit header makes a stream")
}

#[test]
fn new_needs_a_content_length_header() {
    assert!(TrackStream::new(None).is_none());
    assert!(TrackStream::new(Some("")).is_none());
    assert!(TrackStream::new(Some("12a")).is_none());
    assert!(TrackStream::new(Some("99999999999999999999999")).is_none());
    let s = TrackStream::new(Some("100")).expect("parses");
    assert_eq!(s.byte_len(), 100);
    assert!(s.is_seekable());
}

#[test]
fn reads_serve_the_resource_in_order() {
    let data = content(100);
    let mut s = stream_over(100);
    s.accept_chunk(&data[0..60]);
    let first = s.serve(30);
    assert_eq!(first, data[0..30].to_vec());
    let second = s.serve(100);
    assert_eq!(second, data[30..60].to_vec());
    assert!(s.serve(10).is_empty());
}

#[test]
fn serve_caps_each_call() {
    let len = SERVE_CAP * 2;
    let data = content(len);
    let mut s = stream_over(len);
    s.accept_chunk(&data);
    let out = s.serve(usize::MAX);
    assert_eq!(out.len(), SERVE_CAP);
    assert_eq!(out, data[0..SERVE_CAP].to_vec());
}

#[test]
fn single_read_failure_gives_one_zero_byte_read_then_resumes() {
    let data = content(100);
    let mut s = stream_over(100);

    // Normal reads up to byte 40.
    s.accept_chunk(&data[0..40]);
    let before = s.serve(40);
    assert_eq!(before, data[0..40].to_vec());

    // The live source fails: a reconnect starts at the fetch offset and this
    // read serves zero bytes.
    let plan = s.on_read_error(None);
    assert_eq!(plan, ReadFailurePlan::StartReconnect(40));
    assert!(s.serve(40).is_empty());

    // Worker still running: another zero-byte read.
    let plan = s.on_read_error(None);
    assert_eq!(plan, ReadFailurePlan::KeepWaiting);
    assert!(s.serve(40).is_empty());

    // The worker finished with a source at offset 40: adopt it, retry the
    // read, and normal reads resume with no gap and no duplication.
    let plan = s.on_read_error(Some(true));
    assert_eq!(plan, ReadFailurePlan::AdoptAndRetry);
    s.accept_chunk(&data[40..100]);
    let after = s.serve(60);
    assert_eq!(after, data[40..100].to_vec());

    let mut joined = before;
    joined.extend_from_slice(&after);
    assert_eq!(joined, data);
}

#[test]
fn failed_reconnect_keeps_stalling_until_one_succeeds() {
    let data = content(50);
    let mut s = stream_over(50);
    s.accept_chunk(&data[0..10]);
    assert_eq!(s.serve(10), data[0..10].to_vec());

    assert_eq!(s.on_read_error(None), ReadFailurePlan::StartReconnect(10));
    assert_eq!(s.on_read_error(Some(false)), ReadFailurePlan::KeepWaiting);
    // The failure was swallowed; the next failed read starts a fresh worker.
    assert_eq!(s.on_read_error(None), ReadFailurePlan::StartReconnect(10));
    assert_eq!(s.on_read_error(Some(true)), ReadFailurePlan::AdoptAndRetry);
    s.accept_chunk(&data[10..50]);
    assert_eq!(s.serve(40), data[10..50].to_vec());
}

#[test]
fn seeking_then_reading_returns_bytes_from_the_target() {
    let data = content(100);
    let mut s = stream_over(100);
    s.accept_chunk(&data[0..20]);
    assert_eq!(s.serve(5), data[0..5].to_vec());

    let target = s.seek_target(SeekWhence::Start(40)).expect("in range");
    assert_eq!(target, 40);
    s.complete_seek(target);

    // The buffer was discarded; the reconnected source starts at 40.
    s.accept_chunk(&data[40..70]);
    assert_eq!(s.serve(30), data[40..70].to_vec());
}

#[test]
fn seek_targets_follow_start_current_end_semantics() {
    let data = content(100);
    let mut s = stream_over(100);
    s.accept_chunk(&data[0..10]);
    assert_eq!(s.serve(10), data[0..10].to_vec());

    assert_eq!(s.seek_target(SeekWhence::Start(7)), Some(7));
    assert_eq!(s.seek_target(SeekWhence::Current(5)), Some(15));
    assert_eq!(s.seek_target(SeekWhence::Current(-5)), Some(5));
    assert_eq!(s.seek_target(SeekWhence::Current(-11)), None);
    assert_eq!(s.seek_target(SeekWhence::End(-40)), Some(60));
    assert_eq!(s.seek_target(SeekWhence::End(-101)), None);
}
