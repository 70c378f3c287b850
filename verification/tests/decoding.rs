use musicbox::decoder::{ModDecoder, DECODE_CHUNK, MODULE_RATE};
use musicbox::frame::Frame;
use musicbox::poll::{poll_plan, HandleState};

fn fr(left: u32, right: u32) -> Frame {
    Frame { left, right }
}

#[test]
fn decoder_pairs_batches_under_the_convention() {
    let mut d = ModDecoder::new();
    d.push_batch(&vec![1, 2], &vec![7, 8]);
    d.push_batch(&vec![3], &vec![9]);
    assert_eq!(d.num_frames(), 3);
    let chunk = d.decode();
    assert_eq!(chunk, vec![fr(1, 8), fr(2, 7), fr(3, 9)]);
}

#[test]
fn decoder_reports_the_module_rate() {
    let d = ModDecoder::new();
    assert_eq!(d.sample_rate(), MODULE_RATE);
    assert_eq!(MODULE_RATE, 22050);
}

#[test]
fn decode_chunks_are_capped_and_then_empty() {
    let mut d = ModDecoder::new();
    let n = DECODE_CHUNK + 3;
    let left: Vec<u32> = (0..n as u32).collect();
    let right: Vec<u32> = vec![0; n];
    d.push_batch(&left, &right);
    let first = d.decode();
    assert_eq!(first.len(), DECODE_CHUNK);
    assert_eq!(first[0], fr(0, 0));
    assert_eq!(first[1], fr(1, 0));
    let second = d.decode();
    assert_eq!(second.len(), 3);
    // Reading past the end is not an error: it is the exhaustion signal.
    let third = d.decode();
    assert!(third.is_empty());
    let fourth = d.decode();
    assert!(fourth.is_empty());
}

#[test]
fn decoder_seek_moves_and_clamps() {
    let mut d = ModDecoder::new();
    d.push_batch(&vec![1, 2, 3], &vec![0, 0, 0]);
    assert_eq!(d.seek(2), 2);
    let chunk = d.decode();
    assert_eq!(chunk, vec![fr(3, 0)]);
    assert_eq!(d.seek(100), 3);
    assert!(d.decode().is_empty());
    assert_eq!(d.seek(0), 0);
    assert_eq!(d.decode().len(), 3);
}

#[test]
fn poll_terminates_when_spent_and_not_looping() {
    // Queue empty, nothing playing, looping off: the run ends, and the
    // playlist is not re-expanded.
    for h in [HandleState::Absent, HandleState::Stopped] {
        let plan = poll_plan(true, h, false);
        assert!(plan.terminate);
        assert!(!plan.refill);
        assert!(!plan.clear_handle);
        assert!(!plan.play_next);
        assert!(!plan.update);
    }
}

#[test]
fn poll_regenerates_when_spent_and_looping() {
    for h in [HandleState::Absent, HandleState::Stopped] {
        let plan = poll_plan(true, h, true);
        assert!(!plan.terminate);
        assert!(plan.clear_handle);
        assert!(plan.refill);
        assert!(plan.play_next);
        assert!(!plan.update);
    }
}

#[test]
fn poll_advances_after_a_track_ends_midlist() {
    let plan = poll_plan(false, HandleState::Stopped, false);
    assert!(!plan.terminate);
    assert!(!plan.refill);
    assert!(plan.play_next);
    let plan = poll_plan(false, HandleState::Absent, true);
    assert!(plan.play_next);
    assert!(!plan.refill);
}

#[test]
fn poll_refills_an_empty_queue_while_nothing_is_loaded() {
    let plan = poll_plan(true, HandleState::Absent, false);
    assert!(!plan.terminate || !plan.refill);
    // With looping off and no handle the run is over.
    assert!(plan.terminate);
    let plan = poll_plan(true, HandleState::Absent, true);
    assert!(plan.refill && plan.play_next);
}

#[test]
fn poll_only_updates_while_playing_or_paused() {
    for looping in [false, true] {
        for upcoming_empty in [false, true] {
            for h in [HandleState::Playing, HandleState::Paused] {
                let plan = poll_plan(upcoming_empty, h, looping);
                assert!(!plan.terminate);
                assert!(!plan.clear_handle);
                assert!(!plan.refill);
                assert!(!plan.play_next);
                assert!(plan.update);
            }
        }
    }
}
