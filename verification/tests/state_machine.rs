use musicbox::player::{
    ControlAction, PlayStep, PlayerEvent, Status, BARE_SEEK_MS, LOOKBACK_CAP,
};
use musicbox::tracks::TrackFormat;

fn fresh() -> Status {
    Status::new(vec!["it".to_string(), "xm".to_string()])
}

fn load_path(step: PlayStep) -> String {
    match step {
        PlayStep::Load(p) => p,
        _ => panic!("expected a load step"),
    }
}

#[test]
fn advance_on_empty_queue_is_exhausted() {
    let mut s = fresh();
    assert!(matches!(s.advance(), PlayStep::Exhausted));
    // Calling again without refilling changes nothing further.
    assert!(matches!(s.advance(), PlayStep::Exhausted));
    assert!(!s.is_active());
}

#[test]
fn advance_pops_front_and_records_history() {
    let mut s = fresh();
    s.enqueue("a.wav".to_string());
    s.enqueue("b.wav".to_string());
    let step = s.advance();
    assert_eq!(load_path(step), "a.wav");
    assert_eq!(s.upcoming_len(), 1);
    assert_eq!(s.lookback_len(), 1);
    assert_eq!(s.lookback_at(0), "a.wav");
    // The host loaded it fine.
    s.note_loaded();
    assert!(s.is_active());
}

#[test]
fn advance_stops_the_current_source() {
    let mut s = fresh();
    s.enqueue("a.wav".to_string());
    let _ = s.advance();
    s.note_loaded();
    s.enqueue("b.wav".to_string());
    let step = s.advance();
    assert!(!s.is_active());
    assert_eq!(load_path(step), "b.wav");
}

#[test]
fn marker_expands_in_place_without_history() {
    let mut s = fresh();
    s.enqueue("@ \"one.wav\" \"two.wav\"".to_string());
    s.enqueue("later.wav".to_string());
    let step = s.advance();
    assert!(matches!(step, PlayStep::Expanded));
    // The sub-entries stand at the front, in order; the marker itself never
    // entered the lookback.
    assert_eq!(s.upcoming_len(), 3);
    assert_eq!(s.upcoming_at(0), "one.wav");
    assert_eq!(s.upcoming_at(1), "two.wav");
    assert_eq!(s.upcoming_at(2), "later.wav");
    assert_eq!(s.lookback_len(), 0);
    // Advancing again plays the first sub-entry.
    let step = s.advance();
    assert_eq!(load_path(step), "one.wav");
}

#[test]
fn lookback_is_bounded_with_fifo_eviction() {
    let mut s = fresh();
    let total = LOOKBACK_CAP + 8;
    for i in 0..total {
        s.push_song_to_lookback(format!("song{}", i));
    }
    // Exactly the capacity stays: the most recent entries, newest first.
    assert_eq!(s.lookback_len(), LOOKBACK_CAP);
    for i in 0..LOOKBACK_CAP {
        assert_eq!(s.lookback_at(i), &format!("song{}", total - 1 - i));
    }
}

#[test]
fn previous_with_single_history_entry_replays_it() {
    let mut s = fresh();
    s.enqueue("b.wav".to_string());
    s.enqueue("c.wav".to_string());
    let step = s.advance();
    assert_eq!(load_path(step), "b.wav");
    assert_eq!(s.lookback_len(), 1);
    // Only one history entry exists, so "previous" replays the same track.
    let step = s.do_the_previous_one();
    assert_eq!(load_path(step), "b.wav");
    // And the queue order is intact: the next advance plays the following
    // entry.
    let step = s.advance();
    assert_eq!(load_path(step), "c.wav");
}

#[test]
fn previous_with_two_history_entries_steps_back() {
    let mut s = fresh();
    s.enqueue("a.wav".to_string());
    s.enqueue("b.wav".to_string());
    let _ = s.advance();
    let _ = s.advance();
    // History is [b, a], newest first; "previous" makes a play next, then b.
    let step = s.do_the_previous_one();
    assert_eq!(load_path(step), "a.wav");
    let step = s.advance();
    assert_eq!(load_path(step), "b.wav");
}

#[test]
fn previous_with_no_history_is_exhausted_on_empty_queue() {
    let mut s = fresh();
    assert!(matches!(s.do_the_previous_one(), PlayStep::Exhausted));
}

#[test]
fn unsupported_extension_is_not_fatal() {
    let mut s = fresh();
    s.enqueue("weird.xyz".to_string());
    s.enqueue("next.wav".to_string());
    let path = load_path(s.advance());
    assert_eq!(s.classify(&path), TrackFormat::Unsupported);
    // The host skips it and the player stands ready to advance.
    let path = load_path(s.advance());
    assert_eq!(s.classify(&path), TrackFormat::Direct);
}

#[test]
fn classify_uses_the_cached_tracker_list() {
    let s = fresh();
    assert_eq!(s.classify("dir/mod.xm"), TrackFormat::Tracker);
    assert_eq!(s.classify("dir/tune.it"), TrackFormat::Tracker);
    assert_eq!(s.classify("dir/tune.ogg"), TrackFormat::Direct);
    assert_eq!(s.classify("dir/tune.doc"), TrackFormat::Unsupported);
}

#[test]
fn handle_event_pause_play_toggle() {
    let mut s = fresh();
    assert_eq!(s.handle_event(PlayerEvent::Pause), ControlAction::PauseAudio);
    assert!(s.is_paused());
    assert_eq!(s.handle_event(PlayerEvent::Play), ControlAction::ResumeAudio);
    assert!(!s.is_paused());
    assert_eq!(s.handle_event(PlayerEvent::Toggle), ControlAction::PauseAudio);
    assert!(s.is_paused());
    assert_eq!(s.handle_event(PlayerEvent::Toggle), ControlAction::ResumeAudio);
    assert!(!s.is_paused());
}

#[test]
fn handle_event_navigation_and_quit() {
    let mut s = fresh();
    s.enqueue("b.wav".to_string());
    let _ = s.advance();
    assert_eq!(s.handle_event(PlayerEvent::Next), ControlAction::StartNext);
    // Previous rewinds the history before the host advances.
    assert_eq!(s.handle_event(PlayerEvent::Previous), ControlAction::StartNext);
    assert_eq!(s.upcoming_at(0), "b.wav");
    assert_eq!(s.lookback_len(), 0);
    assert_eq!(s.handle_event(PlayerEvent::Stop), ControlAction::Quit);
}

#[test]
fn handle_event_seeks_in_milliseconds() {
    let mut s = fresh();
    assert_eq!(
        s.handle_event(PlayerEvent::SeekForward),
        ControlAction::SeekRelative(true, BARE_SEEK_MS)
    );
    assert_eq!(
        s.handle_event(PlayerEvent::SeekBackward),
        ControlAction::SeekRelative(false, BARE_SEEK_MS)
    );
    assert_eq!(
        s.handle_event(PlayerEvent::SetPosition(90500)),
        ControlAction::SeekTo(90500)
    );
    assert_eq!(
        s.handle_event(PlayerEvent::SeekBy(false, 1000)),
        ControlAction::SeekRelative(false, 1000)
    );
}

#[test]
fn handle_event_unknown_is_logged_not_fatal() {
    let mut s = fresh();
    assert_eq!(s.handle_event(PlayerEvent::Other), ControlAction::Ignored);
    assert!(!s.is_active());
    assert!(!s.is_paused());
}

#[test]
fn stopit_and_note_loaded_flip_activity() {
    let mut s = fresh();
    assert!(!s.is_active());
    s.note_loaded();
    assert!(s.is_active());
    s.stopit();
    assert!(!s.is_active());
}
