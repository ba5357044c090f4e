use midi_looper::classifier::{is_note_event, is_note_on, is_note_off, get_note, get_channel};

#[test]
fn note_on_is_a_note_event() {
    let msg: Vec<u8> = vec![0x90, 60, 100];
    assert!(is_note_event(&msg));
    assert!(is_note_on(&msg));
    assert!(!is_note_off(&msg));
}

#[test]
fn note_off_is_a_note_event() {
    let msg: Vec<u8> = vec![0x80, 60, 0];
    assert!(is_note_event(&msg));
    assert!(!is_note_on(&msg));
    assert!(is_note_off(&msg));
}

#[test]
fn note_on_with_zero_velocity_is_note_off() {
    let msg: Vec<u8> = vec![0x91, 72, 0];
    assert!(is_note_event(&msg));
    assert!(!is_note_on(&msg));
    assert!(is_note_off(&msg));
}

#[test]
fn control_change_is_not_a_note_event() {
    let msg: Vec<u8> = vec![0xB0, 7, 100];
    assert!(!is_note_event(&msg));
    assert!(!is_note_on(&msg));
    assert!(!is_note_off(&msg));
    assert_eq!(get_note(&msg), None);
}

#[test]
fn short_messages_degrade_to_not_a_note() {
    let empty: Vec<u8> = vec![];
    let one: Vec<u8> = vec![0x90];
    let two: Vec<u8> = vec![0x90, 60];
    assert!(!is_note_event(&empty));
    assert!(!is_note_on(&one));
    assert!(!is_note_off(&two));
    assert!(is_note_event(&two));
    assert_eq!(get_note(&empty), None);
    assert_eq!(get_note(&two), Some(60));
    assert_eq!(get_channel(&empty), None);
}

#[test]
fn note_and_channel_extraction() {
    let msg: Vec<u8> = vec![0x93, 65, 100];
    assert_eq!(get_note(&msg), Some(65));
    assert_eq!(get_channel(&msg), Some(3));
    let off: Vec<u8> = vec![0x8F, 12, 0];
    assert_eq!(get_channel(&off), Some(0x0F));
}
