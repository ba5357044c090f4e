use midi_looper::edo72::Edo72State;

#[test]
fn instruction_splits_the_normalised_note() {
    // Note 60: normalised 60 - 21 - 5 = 34 = 12 * 2 + 10, so channel
    // 1 + 2 = 3 and note 28 + 10 * 6 = 88 with no shift stored.
    let s = Edo72State::new();
    assert_eq!(s.edo72_instruction(60), (3, 88));
    // Note 21 (lowest A): normalised -5, Euclidean divmod gives -1 rem 7:
    // channel 0, note 28 + 42 = 70.
    assert_eq!(s.edo72_instruction(21), (0, 70));
    // Note 96: normalised 70 = 12 * 5 + 10: channel 6, note 88.
    assert_eq!(s.edo72_instruction(96), (6, 88));
}

#[test]
fn short_and_non_note_messages_pass_through_unchanged() {
    let mut s = Edo72State::new();
    assert_eq!(s.transform_message(&[0xF8]), vec![vec![0xF8]]);
    assert_eq!(s.transform_message(&[0xB0, 7, 100]), vec![vec![0xB0, 7, 100]]);
    assert_eq!(s.transform_message(&[0x90, 60]), vec![vec![0x90, 60]]);
}

#[test]
fn regular_note_on_and_off_are_routed() {
    let mut s = Edo72State::new();
    let out = s.transform_message(&[0x90, 60, 100]);
    assert_eq!(out, vec![vec![0x93, 88, 100]]);
    // The note-off is routed the way its note-on went.
    let out = s.transform_message(&[0x80, 60, 64]);
    assert_eq!(out, vec![vec![0x83, 88, 64]]);
}

#[test]
fn offset_control_keys_produce_no_output() {
    let mut s = Edo72State::new();
    let out = s.transform_message(&[0x90, 103, 100]);
    assert_eq!(out.len(), 0);
    assert_eq!(s.current_total_shift(), Some(1));
    let out = s.transform_message(&[0x80, 103, 0]);
    assert_eq!(out.len(), 0);
    assert_eq!(s.current_total_shift(), None);
}

#[test]
fn held_shift_keys_sum_and_freeze_into_the_pitch_class() {
    let mut s = Edo72State::new();
    // G7 contributes +1, F7 contributes -1; F#7 is zero.
    s.transform_message(&[0x90, 103, 100]);
    s.transform_message(&[0x90, 104, 100]);
    assert_eq!(s.current_total_shift(), Some(3));
    // Playing note 60 while the keys are held freezes shift 3 into pitch
    // class 0: output note 88 + 3.
    let out = s.transform_message(&[0x90, 60, 100]);
    assert_eq!(out, vec![vec![0x93, 91, 100]]);
    // Releasing the keys keeps the frozen shift for that pitch class.
    s.transform_message(&[0x80, 103, 0]);
    s.transform_message(&[0x80, 104, 0]);
    assert_eq!(s.current_total_shift(), None);
    s.transform_message(&[0x80, 60, 0]);
    let out = s.transform_message(&[0x90, 72, 100]);
    // Note 72 shares pitch class 0: normalised 46 = 12 * 3 + 10, so
    // channel 4, note 88 + 3.
    assert_eq!(out, vec![vec![0x94, 91, 100]]);
}

#[test]
fn negative_shift_keys_lower_the_output() {
    let mut s = Edo72State::new();
    // F7 (101) means -1.
    s.transform_message(&[0x90, 101, 100]);
    assert_eq!(s.current_total_shift(), Some(-1));
    let out = s.transform_message(&[0x90, 60, 100]);
    assert_eq!(out, vec![vec![0x93, 87, 100]]);
}

#[test]
fn retrigger_with_changed_routing_silences_the_old_note() {
    let mut s = Edo72State::new();
    s.transform_message(&[0x90, 60, 100]);
    // A shift key goes down; the same input note is struck again and now
    // routes elsewhere: the old output must be silenced first.
    s.transform_message(&[0x90, 105, 100]);
    let out = s.transform_message(&[0x90, 60, 100]);
    assert_eq!(out.len(), 2);
    assert_eq!(out[0], vec![0x83, 88, 0]);
    assert_eq!(out[1], vec![0x93, 91, 100]);
}

#[test]
fn retrigger_with_same_routing_does_not_silence() {
    let mut s = Edo72State::new();
    s.transform_message(&[0x90, 60, 100]);
    let out = s.transform_message(&[0x90, 60, 90]);
    assert_eq!(out, vec![vec![0x93, 88, 90]]);
}

#[test]
fn note_off_without_record_uses_current_settings() {
    let mut s = Edo72State::new();
    let out = s.transform_message(&[0x80, 62, 0]);
    // Note 62: normalised 36 = 12 * 3 + 0: channel 4, note 28.
    assert_eq!(out, vec![vec![0x84, 28, 0]]);
}

#[test]
fn velocity_zero_note_on_acts_as_note_off() {
    let mut s = Edo72State::new();
    s.transform_message(&[0x90, 60, 100]);
    let out = s.transform_message(&[0x90, 60, 0]);
    assert_eq!(out, vec![vec![0x83, 88, 0]]);
}

#[test]
fn tables_are_reachable_and_start_empty() {
    let s = Edo72State::new();
    assert!(s.ongoing_notes().get(60).is_none());
    assert!(s.ongoing_shifts().get(103).is_none());
    assert!(s.pitch_class_shifts().get(0).is_none());
}
