use midi_looper::clip::TimestampedMessage;
use midi_looper::playback::{PlaybackPass, PlayStep, loop_duration, next_sleep_slice};
use midi_looper::session::{SamplerState, handle_record_toggle, handle_normal_event, copy_clip};
use midi_looper::dispatch::LOOKBACK_MS;

fn msg(bytes: &[u8], offset: u64) -> TimestampedMessage {
    TimestampedMessage { data: bytes.to_vec(), offset }
}

/// Drive one full pass at simulated time, collecting each emitted event
/// with the pass time it was emitted at. Returns the events and the loop
/// duration reported at the end of the pass.
fn run_one_pass(p: &mut PlaybackPass, gen: u64) -> (Vec<(u64, Vec<u8>)>, u64) {
    let mut now: u64 = 0;
    let mut out: Vec<(u64, Vec<u8>)> = Vec::new();
    loop {
        match p.step(gen, now) {
            PlayStep::Emit(data) => out.push((now, data)),
            PlayStep::Wait(until) => now = until,
            PlayStep::PassDone(d) => return (out, d),
            PlayStep::Cancelled(_) => panic!("pass cancelled unexpectedly"),
        }
    }
}

#[test]
fn empty_clip_starts_no_pass() {
    let r = PlaybackPass::start(Vec::new(), 7);
    assert!(r.is_none());
}

#[test]
fn loop_duration_is_the_last_offset() {
    let clip = vec![msg(&[0x90, 60, 100], 0), msg(&[0x80, 60, 0], 450)];
    assert_eq!(loop_duration(&clip), 450);
    let empty: Vec<TimestampedMessage> = Vec::new();
    assert_eq!(loop_duration(&empty), 0);
}

#[test]
fn sleep_slices_are_bounded() {
    assert_eq!(next_sleep_slice(10, 3), 3);
    assert_eq!(next_sleep_slice(2, 3), 2);
    assert_eq!(next_sleep_slice(0, 3), 0);
}

#[test]
fn two_pairs_replay_and_repeat_without_drift() {
    // Record two note-on/note-off pairs 200 ms apart, stop, trigger: the
    // loop plays A at 0, A-off at 100, B at 200, B-off at 300, then
    // repeats with loop duration 300, for three consecutive passes.
    let mut s = SamplerState::new();
    handle_record_toggle(&mut s, LOOKBACK_MS, 1000);
    handle_normal_event(&mut s, vec![0x90, 60, 100], 1000);
    handle_normal_event(&mut s, vec![0x80, 60, 0], 1100);
    handle_normal_event(&mut s, vec![0x90, 64, 100], 1200);
    handle_normal_event(&mut s, vec![0x80, 64, 0], 1300);
    handle_record_toggle(&mut s, LOOKBACK_MS, 1350);

    let clip = copy_clip(&s);
    assert_eq!(clip.len(), 4);
    assert_eq!(loop_duration(&clip), 300);

    let mut p = PlaybackPass::start(clip, 1).expect("non-empty clip must start a pass");
    for _ in 0..3 {
        let (events, d) = run_one_pass(&mut p, 1);
        assert_eq!(d, 300);
        assert_eq!(events.len(), 4);
        assert_eq!(events[0], (0, vec![0x90, 60, 100]));
        assert_eq!(events[1], (100, vec![0x80, 60, 0]));
        assert_eq!(events[2], (200, vec![0x90, 64, 100]));
        assert_eq!(events[3], (300, vec![0x80, 64, 0]));
    }
}

#[test]
fn stale_epoch_silences_held_notes_and_emits_nothing_else() {
    // Start a pass, play two note-ons and one note-off, then move the
    // shared counter on: the pass must emit a note-off for exactly the
    // note still held on, and nothing further.
    let clip = vec![
        msg(&[0x90, 60, 100], 0),
        msg(&[0x91, 64, 100], 10),
        msg(&[0x80, 60, 0], 20),
    ];
    let mut p = PlaybackPass::start(clip, 1).unwrap();
    assert!(matches!(p.step(1, 0), PlayStep::Emit(_)));
    assert!(matches!(p.step(1, 10), PlayStep::Emit(_)));
    assert!(matches!(p.step(1, 20), PlayStep::Emit(_)));

    // The counter moves on: the pass is cancelled.
    match p.step(2, 25) {
        PlayStep::Cancelled(offs) => {
            assert_eq!(offs.len(), 1);
            assert_eq!(offs[0], vec![0x81, 64, 0]);
        }
        _ => panic!("a stale epoch must cancel the pass"),
    }
    assert!(p.finished);
    assert_eq!(p.active.pairs.len(), 0);
}

#[test]
fn cancellation_before_any_event_emits_no_note_offs() {
    let clip = vec![msg(&[0x90, 60, 100], 50)];
    let mut p = PlaybackPass::start(clip, 3).unwrap();
    match p.step(4, 0) {
        PlayStep::Cancelled(offs) => assert_eq!(offs.len(), 0),
        _ => panic!("a stale epoch must cancel the pass"),
    }
}

#[test]
fn note_off_velocity_zero_idiom_clears_the_active_set() {
    // A note-on with velocity zero counts as a note-off for tracking.
    let clip = vec![msg(&[0x90, 60, 100], 0), msg(&[0x90, 60, 0], 10)];
    let mut p = PlaybackPass::start(clip, 1).unwrap();
    assert!(matches!(p.step(1, 0), PlayStep::Emit(_)));
    assert!(matches!(p.step(1, 10), PlayStep::Emit(_)));
    match p.step(9, 10) {
        PlayStep::Cancelled(offs) => assert_eq!(offs.len(), 0),
        _ => panic!("a stale epoch must cancel the pass"),
    }
}

#[test]
fn same_note_twice_is_held_once() {
    // The same (channel, note) turned on twice without an intervening off
    // is tracked once: one safety note-off suffices.
    let clip = vec![msg(&[0x90, 60, 100], 0), msg(&[0x90, 60, 90], 10)];
    let mut p = PlaybackPass::start(clip, 1).unwrap();
    assert!(matches!(p.step(1, 0), PlayStep::Emit(_)));
    assert!(matches!(p.step(1, 10), PlayStep::Emit(_)));
    match p.step(2, 15) {
        PlayStep::Cancelled(offs) => {
            assert_eq!(offs.len(), 1);
            assert_eq!(offs[0], vec![0x80, 60, 0]);
        }
        _ => panic!("a stale epoch must cancel the pass"),
    }
}

#[test]
fn waiting_leaves_the_pass_unchanged() {
    let clip = vec![msg(&[0x90, 60, 100], 40)];
    let mut p = PlaybackPass::start(clip, 1).unwrap();
    match p.step(1, 0) {
        PlayStep::Wait(until) => assert_eq!(until, 40),
        _ => panic!("an event not yet due must yield a wait"),
    }
    assert_eq!(p.idx, 0);
    match p.step(1, 40) {
        PlayStep::Emit(data) => assert_eq!(data, vec![0x90, 60, 100]),
        _ => panic!("a due event must be emitted"),
    }
}
