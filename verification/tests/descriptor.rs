use audio::source::Metadata;
use audio::track::parse_u64;
use audio::AudioFormat;
use audio::Track;
use audio::TrackSource;

fn format(codec: Option<&str>, channels: Option<u8>, rate: Option<&str>) -> AudioFormat {
    AudioFormat {
        url: "https://example.invalid/stream".to_string(),
        codec: codec.map(|c| c.to_string()),
        audio_channels: channels,
        audio_sample_rate: rate.map(|r| r.to_string()),
    }
}

#[test]
fn parse_u64_reads_plain_decimal_strings() {
    assert_eq!(parse_u64("0"), Some(0));
    assert_eq!(parse_u64("48000"), Some(48000));
    assert_eq!(parse_u64("18446744073709551615"), Some(u64::MAX));
}

#[test]
fn parse_u64_rejects_everything_else() {
    assert_eq!(parse_u64(""), None);
    assert_eq!(parse_u64("12a"), None);
    assert_eq!(parse_u64("-5"), None);
    assert_eq!(parse_u64(" 7"), None);
    assert_eq!(parse_u64("18446744073709551616"), None);
}

#[test]
fn new_picks_the_first_opus_format() {
    let formats = vec![
        format(Some("vorbis"), Some(2), Some("44100")),
        format(Some("opus"), Some(1), Some("48000")),
        format(Some("opus"), Some(2), Some("24000")),
    ];
    let t = Track::new(
        "id0".to_string(),
        "title0".to_string(),
        Some("author0".to_string()),
        vec!["thumb0".to_string()],
        "185",
        &formats,
    )
    .expect("an opus format exists");
    assert_eq!(t.format.audio_channels, Some(1));
    assert_eq!(t.title, "title0".to_string());
    assert_eq!(t.author, "author0".to_string());
    assert_eq!(t.duration, 185);
}

#[test]
fn new_fails_without_an_opus_format() {
    let formats = vec![format(Some("vorbis"), Some(2), Some("44100")), format(None, None, None)];
    let t = Track::new(
        "id0".to_string(),
        "title0".to_string(),
        None,
        Vec::new(),
        "185",
        &formats,
    );
    assert!(t.is_none());
}

#[test]
fn new_defaults_author_and_unparseable_duration() {
    let formats = vec![format(Some("opus"), None, None)];
    let t = Track::new(
        "id0".to_string(),
        "title0".to_string(),
        None,
        Vec::new(),
        "not-a-number",
        &formats,
    )
    .expect("an opus format exists");
    assert_eq!(t.author, "???".to_string());
    assert_eq!(t.duration, 0);
}

#[test]
fn decoder_hints_default_to_stereo_48000() {
    let f = format(Some("opus"), None, None);
    assert_eq!(f.channel_count(), 2);
    assert_eq!(f.sample_rate(), 48000);
    let f = format(Some("opus"), Some(1), Some("24000"));
    assert_eq!(f.channel_count(), 1);
    assert_eq!(f.sample_rate(), 24000);
    let f = format(Some("opus"), Some(6), Some("garbage"));
    assert_eq!(f.channel_count(), 6);
    assert_eq!(f.sample_rate(), 48000);
}

#[test]
fn source_bookkeeping_follows_packets_and_samples() {
    let formats = vec![format(Some("opus"), Some(2), Some("48000"))];
    let t = Track::new(
        "id0".to_string(),
        "song".to_string(),
        Some("who".to_string()),
        vec!["thumb".to_string()],
        "240",
        &formats,
    )
    .expect("an opus format exists");
    let (mut source, mut handle) = TrackSource::new(&t);

    assert_eq!(source.channels(), 2);
    assert_eq!(source.sample_rate(), 48000);
    assert_eq!(source.total_duration(), 240);
    assert_eq!(source.current_frame_len(), 0);
    assert!(source.needs_refill(0));

    // A packet of 960 samples per channel at 1500 ms.
    source.on_packet(1500, Some(960));
    handle.observe_packet(1500);
    assert_eq!(source.current_frame_len(), 1920);
    assert_eq!(handle.current_time(), 1);

    // A packet with no reported count falls back to the default.
    source.on_packet(1520, None);
    assert_eq!(source.current_frame_len(), 1920 + 1500 * 2);

    source.take_sample();
    assert_eq!(source.current_frame_len(), 1920 + 1500 * 2 - 1);

    // The refill policy: refill once at or below half the capacity.
    assert!(!source.needs_refill(1000));
    assert!(source.needs_refill(u32::MAX as usize));

    // End of stream (or a decode failure) marks the track over instead of
    // failing the pipeline.
    assert!(!source.is_ended());
    source.mark_ended();
    assert!(source.is_ended());

    let m: &Metadata = handle.metadata();
    assert_eq!(m.title, "song".to_string());
    assert_eq!(m.author, "who".to_string());
    assert_eq!(m.thumbnails, vec!["thumb".to_string()]);
    assert_eq!(m.duration, 240);
}

#[test]
fn current_time_is_whole_seconds_of_the_last_packet_timestamp() {
    let formats = vec![format(Some("opus"), None, None)];
    let t = Track::new("id".to_string(), "t".to_string(), None, Vec::new(), "9", &formats)
        .expect("an opus format exists");
    let (_source, mut handle) = TrackSource::new(&t);
    assert_eq!(handle.current_time(), 0);
    handle.observe_packet(999);
    assert_eq!(handle.current_time(), 0);
    handle.observe_packet(65321);
    assert_eq!(handle.current_time(), 65);
}
