use audio::manager::HandoffAction;
use audio::manager::SignalEvent;
use audio::AudioFormat;
use audio::Play;
use audio::PlayerState;
use audio::Queue;
use audio::Track;
use audio::TrackSource;
use audio::TrackSourceHandle;

fn track_secs(title: &str, duration: u64) -> Track {
    Track {
        format: AudioFormat {
            url: format!("https://example.invalid/{title}"),
            codec: Some("opus".to_string()),
            audio_channels: None,
            audio_sample_rate: None,
        },
        id: title.to_string(),
        title: title.to_string(),
        author: "someone".to_string(),
        thumbnails: Vec::new(),
        duration,
    }
}

fn handle_for(track: &Track) -> TrackSourceHandle {
    let (_source, handle) = TrackSource::new(track);
    handle
}

fn current_title(s: &PlayerState) -> Option<String> {
    s.current.as_ref().map(|h| h.metadata().title.clone())
}

#[test]
fn play_current_on_an_empty_queue_is_a_no_op() {
    let mut s = PlayerState::new();
    let picked = s.play_select(&Play::Current);
    assert!(picked.is_none());
    assert!(s.current.is_none());
    assert!(s.next.is_none());
    assert!(!s.is_playing);
    assert_eq!(s.queue.pos(), 0);
}

#[test]
fn eager_play_next_switches_the_current_track() {
    let mut s = PlayerState::new();
    s.queue_step(&Queue::Add("a".to_string()), Some(track_secs("a", 100)));
    s.queue_step(&Queue::Add("b".to_string()), Some(track_secs("b", 100)));
    let first = s.play_select(&Play::Current).expect("cursor on a track");
    s.play_apply_fresh(handle_for(&first));
    assert_eq!(current_title(&s), Some("a".to_string()));
    assert_eq!(s.queue.pos(), 0);

    let lazy = false;
    let picked = s.play_select(&Play::Next).expect("a next track exists");
    assert_eq!(picked.title, "b".to_string());
    assert_eq!(s.queue.pos(), 1);
    assert!(!s.lazy_available(lazy));
    s.play_apply_fresh(handle_for(&picked));
    assert_eq!(current_title(&s), Some("b".to_string()));
    assert!(s.next.is_none());
    assert!(s.is_playing);
}

#[test]
fn prefetch_fires_once_inside_the_window_and_not_while_the_slot_is_full() {
    let mut s = PlayerState::new();
    s.queue_step(&Queue::Add("a".to_string()), Some(track_secs("a", 100)));
    s.queue_step(&Queue::Add("b".to_string()), Some(track_secs("b", 100)));
    let first = s.play_select(&Play::Current).expect("cursor on a track");
    s.play_apply_fresh(handle_for(&first));

    // More than ten seconds left: not due.
    assert!(!s.prefetch_due(80));
    // The remaining time crosses below ten seconds: due.
    assert!(s.prefetch_due(91));

    // The lazy play it triggers fills the next slot and rolls the cursor
    // back so that it still points at the current track.
    let picked = s.play_select(&Play::Next).expect("a next track exists");
    assert!(s.lazy_available(true));
    assert_eq!(s.queue.pos(), 1);
    s.play_apply_lazy(handle_for(&picked));
    assert_eq!(s.queue.pos(), 0);

    // Occupied slot: not due again, however the clock moves.
    assert!(!s.prefetch_due(95));
    assert!(!s.prefetch_due(99));
}

#[test]
fn prefetch_needs_a_next_track_in_the_queue() {
    let mut s = PlayerState::new();
    s.queue_step(&Queue::Add("a".to_string()), Some(track_secs("a", 100)));
    let first = s.play_select(&Play::Current).expect("cursor on a track");
    s.play_apply_fresh(handle_for(&first));
    assert!(!s.prefetch_due(95));
}

#[test]
fn handoff_promotes_the_prefetched_track_when_the_signal_fires() {
    let mut s = PlayerState::new();
    s.queue_step(&Queue::Add("a".to_string()), Some(track_secs("a", 30)));
    s.queue_step(&Queue::Add("b".to_string()), Some(track_secs("b", 30)));
    let first = s.play_select(&Play::Current).expect("cursor on a track");
    s.play_apply_fresh(handle_for(&first));
    let picked = s.play_select(&Play::Next).expect("a next track exists");
    s.play_apply_lazy(handle_for(&picked));
    assert_eq!(s.queue.pos(), 0);

    // Nothing happens while the signal is pending.
    assert_eq!(s.handoff_step(SignalEvent::Pending), HandoffAction::NoChange);
    assert_eq!(current_title(&s), Some("a".to_string()));

    // The signal fires: the prefetched track becomes current and the cursor
    // advances, completing the rollback done at prefetch time.
    assert_eq!(s.handoff_step(SignalEvent::Fired), HandoffAction::Promoted);
    assert_eq!(current_title(&s), Some("b".to_string()));
    assert!(s.next.is_none());
    assert_eq!(s.queue.pos(), 1);
}

#[test]
fn handoff_pauses_the_sink_when_nothing_is_prefetched() {
    let mut s = PlayerState::new();
    s.queue_step(&Queue::Add("a".to_string()), Some(track_secs("a", 30)));
    let first = s.play_select(&Play::Current).expect("cursor on a track");
    s.play_apply_fresh(handle_for(&first));
    assert!(s.is_playing);

    assert_eq!(s.handoff_step(SignalEvent::Fired), HandoffAction::PauseSink);
    assert!(!s.is_playing);
    // The last-played track stays in place.
    assert_eq!(current_title(&s), Some("a".to_string()));
}

#[test]
fn handoff_on_a_disconnected_signal_promotes_without_advancing_the_cursor() {
    let mut s = PlayerState::new();
    s.queue_step(&Queue::Add("a".to_string()), Some(track_secs("a", 30)));
    s.queue_step(&Queue::Add("b".to_string()), Some(track_secs("b", 30)));
    let first = s.play_select(&Play::Current).expect("cursor on a track");
    s.play_apply_fresh(handle_for(&first));
    let picked = s.play_select(&Play::Next).expect("a next track exists");
    s.play_apply_lazy(handle_for(&picked));
    assert_eq!(s.queue.pos(), 0);

    assert_eq!(s.handoff_step(SignalEvent::Disconnected), HandoffAction::Promoted);
    assert_eq!(current_title(&s), Some("b".to_string()));
    assert_eq!(s.queue.pos(), 0);
}

#[test]
fn handoff_without_a_current_signal_does_nothing() {
    let mut s = PlayerState::new();
    assert_eq!(s.handoff_step(SignalEvent::Fired), HandoffAction::NoChange);
    assert_eq!(s.queue.pos(), 0);
}

#[test]
fn play_pos_clamps_and_plays_the_track_there() {
    let mut s = PlayerState::new();
    s.queue_step(&Queue::Add("a".to_string()), Some(track_secs("a", 30)));
    s.queue_step(&Queue::Add("b".to_string()), Some(track_secs("b", 30)));
    let picked = s.play_select(&Play::Pos(1)).expect("a track at position 1");
    assert_eq!(picked.title, "b".to_string());
    assert_eq!(s.queue.pos(), 1);
    assert!(s.play_select(&Play::Pos(99)).is_none());
    assert_eq!(s.queue.pos(), 2);
}

#[test]
fn queue_commands_mutate_the_queue() {
    let mut s = PlayerState::new();
    s.queue_step(&Queue::Add("a".to_string()), Some(track_secs("a", 30)));
    s.queue_step(&Queue::Add("b".to_string()), Some(track_secs("b", 30)));
    // A failed resolution adds nothing.
    s.queue_step(&Queue::Add("missing".to_string()), None);
    assert_eq!(s.queue.len(), 2);

    s.queue_step(&Queue::Swap(0, 1), None);
    assert_eq!(s.queue.current().map(|t| t.title.clone()), Some("b".to_string()));

    s.queue_step(&Queue::Remove(0), None);
    assert_eq!(s.queue.len(), 1);
    assert_eq!(s.queue.current().map(|t| t.title.clone()), Some("a".to_string()));

    s.queue_step(&Queue::Clear, None);
    assert_eq!(s.queue.len(), 0);
    assert_eq!(s.queue.pos(), 0);
}

#[test]
fn seek_is_a_no_op_without_a_current_track() {
    let mut s = PlayerState::new();
    assert!(!s.should_seek());
    s.queue_step(&Queue::Add("a".to_string()), Some(track_secs("a", 30)));
    let first = s.play_select(&Play::Current).expect("cursor on a track");
    s.play_apply_fresh(handle_for(&first));
    assert!(s.should_seek());
}

#[test]
fn the_monitor_mirrors_the_sink_pause_state() {
    let mut s = PlayerState::new();
    s.observe_sink(false);
    assert!(s.is_playing);
    s.observe_sink(true);
    assert!(!s.is_playing);
}
