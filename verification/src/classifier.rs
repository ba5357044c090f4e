//! Message classifier: pure predicates over a raw 1–3 byte MIDI message.
//!
//! A malformed or short message never raises an error; it simply does not
//! count as a note event.

use vstd::prelude::*;

verus! {

/// The message has a note-on or note-off status nibble.
pub open spec fn spec_is_note_event(data: Seq<u8>) -> bool {
    data.len() >= 1 && (data[0] & 0xF0 == 0x80 || data[0] & 0xF0 == 0x90)
}

/// The message is a note-on: status nibble 0x90 with a non-zero velocity.
pub open spec fn spec_is_note_on(data: Seq<u8>) -> bool {
    data.len() >= 3 && data[0] & 0xF0 == 0x90 && data[2] > 0
}

/// The message is a note-off: status nibble 0x80, or the standard idiom of a
/// note-on with velocity zero.
pub open spec fn spec_is_note_off(data: Seq<u8>) -> bool {
    data.len() >= 3 && (data[0] & 0xF0 == 0x80 || (data[0] & 0xF0 == 0x90 && data[2] == 0))
}

/// The note number of a note event, defined when the message is long enough.
pub open spec fn spec_note(data: Seq<u8>) -> Option<u8> {
    if data.len() >= 2 && spec_is_note_event(data) {
        Some(data[1])
    } else {
        None
    }
}

/// The channel (low nibble of the status byte) of a non-empty message.
pub open spec fn spec_channel(data: Seq<u8>) -> Option<u8> {
    if data.len() >= 1 {
        Some(data[0] & 0x0F)
    } else {
        None
    }
}

pub fn is_note_event(data: &[u8]) -> (r: bool)
    ensures
        r == spec_is_note_event(data@),
{
    if data.len() == 0 {
        return false;
    }
    let status: u8 = data[0] & 0xF0;
    status == 0x80 || status == 0x90
}

pub fn is_note_on(data: &[u8]) -> (r: bool)
    ensures
        r == spec_is_note_on(data@),
{
    if data.len() >= 3 {
        let status: u8 = data[0] & 0xF0;
        status == 0x90 && data[2] > 0
    } else {
        false
    }
}

pub fn is_note_off(data: &[u8]) -> (r: bool)
    ensures
        r == spec_is_note_off(data@),
{
    if data.len() >= 3 {
        let status: u8 = data[0] & 0xF0;
        status == 0x80 || (status == 0x90 && data[2] == 0)
    } else {
        false
    }
}

pub fn get_note(data: &[u8]) -> (r: Option<u8>)
    ensures
        r == spec_note(data@),
{
    if data.len() >= 2 && is_note_event(data) {
        Some(data[1])
    } else {
        None
    }
}

pub fn get_channel(data: &[u8]) -> (r: Option<u8>)
    ensures
        r == spec_channel(data@),
{
    if data.len() > 0 {
        Some(data[0] & 0x0F)
    } else {
        None
    }
}

} // verus!
