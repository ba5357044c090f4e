//! 72-EDO MIDI transformer: maps piano notes onto multi-channel output for
//! 72-tone equal temperament, with a top control octave that sets a
//! microtonal offset.
//!
//! For each regular note the input note is normalised, split by twelve into
//! a channel offset and a note offset, and shifted by the per-pitch-class
//! microtonal offset. Held keys of the control octave sum to the current
//! total shift. The three tables live as fields of one explicitly
//! constructed state rather than as process-wide singletons.

use vstd::prelude::*;
use vstd::pervasive::VecAdditionalExecFns;
use vstd::arithmetic::div_mod::{lemma_hoist_over_denominator, lemma_mod_multiples_vanish};

verus! {

/// Added to the MIDI note before processing.
pub const SHIFT_IN_12_EDO: i8 = -5;

/// A0, the lowest note on an 88-key piano.
pub const LOWEST_A: u8 = 21;

/// First output channel.
pub const MIN_CHANNEL: u8 = 1;

/// First output note: (128 - 72) / 2 centres the range.
pub const MIN_NOTE: u8 = 28;

/// 72 / 12: output notes per semitone.
pub const EDO_OVER_12: u8 = 6;

/// C#7, first note of the offset control octave.
pub const OFFSET_OCTAVE_START: u8 = 97;

/// F#7, the control note that means offset zero.
pub const OFFSET_ZERO_NOTE: u8 = 102;

/// Number of keys a table holds: one per 7-bit MIDI note.
pub const TABLE_SIZE: usize = 128;

/// The output a note-on produced, remembered so its note-off can be routed
/// the same way.
#[derive(Clone, Copy, PartialEq, Eq, Structural)]
pub struct TransformedNote {
    pub output_channel: u8,
    pub output_note: u8,
}

/// A held key of the control octave and the shift it contributes.
#[derive(Clone, Copy, PartialEq, Eq, Structural)]
pub struct ShiftPress {
    pub input_note: u8,
    pub shift_value: i8,
}

/// A table keyed by 7-bit note number: one optional value per key.
pub struct NoteTable<V> {
    pub slots: Vec<Option<V>>,
}

impl<V: Copy> NoteTable<V> {
    pub open spec fn wf(self) -> bool {
        self.slots@.len() == TABLE_SIZE
    }

    pub fn new() -> (r: NoteTable<V>)
        ensures
            r.wf(),
            forall|k: int| 0 <= k < TABLE_SIZE ==> r.slots@[k] is None,
    {
        let mut slots: Vec<Option<V>> = Vec::new();
        let mut i: usize = 0;
        while i < TABLE_SIZE
            invariant
                i <= TABLE_SIZE,
                slots@.len() == i,
                forall|k: int| 0 <= k < i ==> slots@[k] is None,
            decreases TABLE_SIZE - i,
        {
            slots.push(None);
            i = i + 1;
        }
        NoteTable { slots }
    }

    pub fn get(&self, key: u8) -> (r: Option<V>)
        requires
            self.wf(),
            key < TABLE_SIZE,
        ensures
            r == self.slots@[key as int],
    {
        self.slots[key as usize]
    }

    pub fn insert(&mut self, key: u8, value: V)
        requires
            old(self).wf(),
            key < TABLE_SIZE,
        ensures
            final(self).wf(),
            final(self).slots@ == old(self).slots@.update(key as int, Some(value)),
    {
        self.slots.set(key as usize, Some(value));
    }

    pub fn remove(&mut self, key: u8)
        requires
            old(self).wf(),
            key < TABLE_SIZE,
        ensures
            final(self).wf(),
            final(self).slots@ == old(self).slots@.update(key as int, None),
    {
        self.slots.set(key as usize, None);
    }
}

/// The abstract content of the transformer state: three tables as
/// sequences of optional values, one slot per 7-bit note.
#[verifier::ext_equal]
pub ghost struct Edo72Model {
    pub ongoing: Seq<Option<TransformedNote>>,
    pub shifts: Seq<Option<ShiftPress>>,
    pub pc_shifts: Seq<Option<i8>>,
}

/// The transformer state: which input notes are sounding and where they
/// were routed, which shift keys are held, and the persistent per-pitch-
/// class shifts.
pub struct Edo72State {
    pub ongoing: NoteTable<TransformedNote>,
    pub shifts: NoteTable<ShiftPress>,
    pub pc_shifts: NoteTable<i8>,
}

impl View for Edo72State {
    type V = Edo72Model;

    open spec fn view(&self) -> Edo72Model {
        Edo72Model {
            ongoing: self.ongoing.slots@,
            shifts: self.shifts.slots@,
            pc_shifts: self.pc_shifts.slots@,
        }
    }
}

impl Edo72State {
    pub open spec fn wf(self) -> bool {
        &&& self.ongoing.wf()
        &&& self.shifts.wf()
        &&& self.pc_shifts.wf()
    }

    pub fn new() -> (r: Edo72State)
        ensures
            r.wf(),
            forall|k: int| 0 <= k < TABLE_SIZE ==> r@.ongoing[k] is None,
            forall|k: int| 0 <= k < TABLE_SIZE ==> r@.shifts[k] is None,
            forall|k: int| 0 <= k < TABLE_SIZE ==> r@.pc_shifts[k] is None,
    {
        Edo72State {
            ongoing: NoteTable::new(),
            shifts: NoteTable::new(),
            pc_shifts: NoteTable::new(),
        }
    }

    /// The map from sounding input note to the output it produced.
    pub fn ongoing_notes(&self) -> (r: &NoteTable<TransformedNote>)
        ensures
            r == &self.ongoing,
    {
        &self.ongoing
    }

    /// The map from held control-octave key to its shift contribution.
    pub fn ongoing_shifts(&self) -> (r: &NoteTable<ShiftPress>)
        ensures
            r == &self.shifts,
    {
        &self.shifts
    }

    /// The persistent per-pitch-class microtonal shifts.
    pub fn pitch_class_shifts(&self) -> (r: &NoteTable<i8>)
        ensures
            r == &self.pc_shifts,
    {
        &self.pc_shifts
    }

    /// The sum of all held shift keys, or nothing when none is held.
    pub fn current_total_shift(&self) -> (r: Option<i16>)
        requires
            self.wf(),
        ensures
            (r is Some) <==> spec_count_some(self@.shifts) > 0,
            r matches Some(total) ==> total == spec_sum_shifts(self@.shifts),
    {
        let mut sum: i16 = 0;
        let mut any: bool = false;
        let mut k: usize = 0;
        while k < TABLE_SIZE
            invariant
                self.wf(),
                k <= TABLE_SIZE,
                any <==> spec_count_some(self.shifts.slots@.subrange(0, k as int)) > 0,
                sum == spec_sum_shifts(self.shifts.slots@.subrange(0, k as int)),
                -128 * k <= sum <= 127 * k,
            decreases TABLE_SIZE - k,
        {
            let entry: Option<ShiftPress> = self.shifts.slots[k];
            proof {
                assert(self.shifts.slots@.subrange(0, k + 1).drop_last()
                    =~= self.shifts.slots@.subrange(0, k as int));
                assert(self.shifts.slots@.subrange(0, k + 1).last() == self.shifts.slots@[k as int]);
            }
            match entry {
                Some(p) => {
                    sum = sum + p.shift_value as i16;
                    any = true;
                }
                None => {}
            }
            k = k + 1;
        }
        proof {
            assert(self.shifts.slots@.subrange(0, TABLE_SIZE as int) =~= self.shifts.slots@);
        }
        if any {
            Some(sum)
        } else {
            None
        }
    }

    /// Where a regular note goes: the output channel from the normalised
    /// note divided by twelve, and the output note from the remainder
    /// spread over six steps plus the pitch class's persistent shift.
    pub fn edo72_instruction(&self, original_note: u8) -> (r: (i16, i16))
        requires
            self.wf(),
        ensures
            r.0 == spec_channel_of(original_note),
            r.1 == spec_note_of(self@.pc_shifts, original_note),
    {
        let t: u16 = original_note as u16 + 94;
        let q: u16 = t / 12;
        let rm: u16 = t % 12;
        proof {
            let n = spec_normalized(original_note);
            assert(t == n + 10 * 12);
            lemma_hoist_over_denominator(n, 10, 12nat);
            assert(q == n / 12 + 10);
            assert(t == 12 * 10 + n);
            lemma_mod_multiples_vanish(10, n, 12);
            assert(rm == n % 12);
        }
        let channel: i16 = MIN_CHANNEL as i16 + q as i16 - 10;
        let pc: u8 = original_note % 12;
        let shift: i16 = match self.pc_shifts.get(pc) {
            Some(s) => s as i16,
            None => 0,
        };
        proof {
            assert(rm < 12);
            assert(0 <= rm * EDO_OVER_12 <= 66) by (nonlinear_arith)
                requires rm < 12;
        }
        let note: i16 = MIN_NOTE as i16 + (rm as i16) * (EDO_OVER_12 as i16) + shift;
        (channel, note)
    }

    /// A key of the control octave went down or up: update the set of held
    /// shift keys. Control notes produce no output of their own.
    pub fn handle_offset_control(&mut self, status: u8, velocity: u8, input_note: u8) -> (r: Vec<
        Vec<u8>>)
        requires
            old(self).wf(),
            OFFSET_OCTAVE_START <= input_note < TABLE_SIZE,
        ensures
            final(self).wf(),
            final(self)@ == spec_offset_control(old(self)@, status, velocity, input_note),
            r@.len() == 0,
    {
        let note_on: bool = status == 0x90 && velocity > 0;
        let note_off: bool = status == 0x80 || (status == 0x90 && velocity == 0);
        if note_on {
            let shift_value: i8 = (input_note as i8) - (OFFSET_ZERO_NOTE as i8);
            self.shifts.insert(input_note, ShiftPress { input_note, shift_value });
        } else if note_off {
            self.shifts.remove(input_note);
        }
        proof {
            assert(final(self)@ =~= spec_offset_control(old(self)@, status, velocity, input_note));
        }
        Vec::new()
    }

    /// A regular (non-control) note event. A note-on first freezes the
    /// current total shift into the note's pitch class (if any shift key is
    /// held), then sounds the transformed note, silencing a differently
    /// routed earlier sounding of the same input note. A note-off is routed
    /// the way its note-on went, or by the current settings when no
    /// sounding note is on record.
    pub fn handle_regular_note(&mut self, status: u8, velocity: u8, original_note: u8) -> (r: Vec<
        Vec<u8>>)
        requires
            old(self).wf(),
            original_note < TABLE_SIZE,
        ensures
            final(self).wf(),
            final(self)@ == spec_regular_note(old(self)@, status, velocity, original_note).0,
            msgs_view(r@) == spec_regular_note(old(self)@, status, velocity, original_note).1,
    {
        let note_on: bool = status == 0x90 && velocity > 0;
        let note_off: bool = status == 0x80 || (status == 0x90 && velocity == 0);
        if note_on {
            match self.current_total_shift() {
                Some(total) => {
                    let pitch_class: u8 = original_note % 12;
                    let frozen: i8 = #[verifier::truncate] (total as i8);
                    self.pc_shifts.insert(pitch_class, frozen);
                }
                None => {}
            }
        }
        let ghost m1 = spec_regular_note_shift_step(old(self)@, status, velocity, original_note);
        proof {
            assert(self@ =~= m1);
        }
        let (new_channel, new_note): (i16, i16) = self.edo72_instruction(original_note);
        let output_in_range: bool = new_channel >= 0 && new_channel <= 15 && new_note >= 0
            && new_note <= 127;
        let mut results: Vec<Vec<u8>> = Vec::new();
        if note_on {
            match self.ongoing.get(original_note) {
                Some(old_tn) => {
                    if !output_in_range || old_tn.output_channel != new_channel as u8
                        || old_tn.output_note != new_note as u8 {
                        let off_status: u8 = 0x80 | old_tn.output_channel;
                        results.push(msg3(off_status, old_tn.output_note, 0));
                    }
                }
                None => {}
            }
            if output_in_range {
                self.ongoing.insert(
                    original_note,
                    TransformedNote {
                        output_channel: new_channel as u8,
                        output_note: new_note as u8,
                    },
                );
                let on_status: u8 = 0x90 | new_channel as u8;
                results.push(msg3(on_status, new_note as u8, velocity));
            }
        } else if note_off {
            match self.ongoing.get(original_note) {
                Some(old_tn) => {
                    self.ongoing.remove(original_note);
                    let off_status: u8 = 0x80 | old_tn.output_channel;
                    results.push(msg3(off_status, old_tn.output_note, velocity));
                }
                None => {
                    if output_in_range {
                        let off_status: u8 = 0x80 | new_channel as u8;
                        results.push(msg3(off_status, new_note as u8, velocity));
                    }
                }
            }
        }
        proof {
            assert(final(self)@ =~= spec_regular_note(old(self)@, status, velocity,
                original_note).0);
            assert(msgs_view(results@) =~= spec_regular_note(old(self)@, status, velocity,
                original_note).1);
        }
        results
    }

    /// One raw message through the transformer: short or non-note messages
    /// pass through unchanged, the control octave adjusts the shifts, and
    /// everything else is a regular note.
    pub fn transform_message(&mut self, message: &[u8]) -> (r: Vec<Vec<u8>>)
        requires
            old(self).wf(),
            message@.len() >= 3 && (message@[0] & 0xF0 == 0x80 || message@[0] & 0xF0 == 0x90)
                ==> message@[1] < TABLE_SIZE,
        ensures
            final(self).wf(),
            final(self)@ == spec_transform(old(self)@, message@).0,
            msgs_view(r@) == spec_transform(old(self)@, message@).1,
    {
        if message.len() < 2 {
            let mut r: Vec<Vec<u8>> = Vec::new();
            r.push(vstd::slice::slice_to_vec(message));
            proof {
                assert(msgs_view(r@) =~= seq![message@]);
            }
            return r;
        }
        let status: u8 = message[0] & 0xF0;
        if message.len() < 3 || !(status == 0x80 || status == 0x90) {
            let mut r: Vec<Vec<u8>> = Vec::new();
            r.push(vstd::slice::slice_to_vec(message));
            proof {
                assert(msgs_view(r@) =~= seq![message@]);
            }
            return r;
        }
        let original_note: u8 = message[1];
        let velocity: u8 = message[2];
        if original_note >= OFFSET_OCTAVE_START {
            let r = self.handle_offset_control(status, velocity, original_note);
            proof {
                assert(msgs_view(r@) =~= Seq::<Seq<u8>>::empty());
            }
            r
        } else {
            self.handle_regular_note(status, velocity, original_note)
        }
    }
}

/// Build a three-byte message.
fn msg3(a: u8, b: u8, c: u8) -> (r: Vec<u8>)
    ensures
        r@ == seq![a, b, c],
{
    let mut r: Vec<u8> = Vec::new();
    r.push(a);
    r.push(b);
    r.push(c);
    proof {
        assert(r@ =~= seq![a, b, c]);
    }
    r
}

/// The byte content of a list of messages.
pub open spec fn msgs_view(r: Seq<Vec<u8>>) -> Seq<Seq<u8>> {
    r.map_values(|v: Vec<u8>| v@)
}

/// The first half of a regular note's effect: a note-on freezes the
/// current total shift (truncated to a byte, as stored) into the note's
/// pitch class, provided any shift key is held.
pub open spec fn spec_regular_note_shift_step(m: Edo72Model, status: u8, velocity: u8, note: u8)
    -> Edo72Model {
    if spec_on(status, velocity) && spec_count_some(m.shifts) > 0 {
        Edo72Model {
            pc_shifts: m.pc_shifts.update(
                (note % 12) as int,
                Some(((spec_sum_shifts(m.shifts) as i16) as i8)),
            ),
            ..m
        }
    } else {
        m
    }
}

/// A regular note's full effect: the updated state and the messages sent,
/// in order.
pub open spec fn spec_regular_note(m: Edo72Model, status: u8, velocity: u8, note: u8) -> (
    Edo72Model, Seq<Seq<u8>>) {
    let m1 = spec_regular_note_shift_step(m, status, velocity, note);
    let ch = spec_channel_of(note);
    let nt = spec_note_of(m1.pc_shifts, note);
    let in_range = 0 <= ch <= 15 && 0 <= nt <= 127;
    if spec_on(status, velocity) {
        let silence = match m1.ongoing[note as int] {
            Some(old_tn) => {
                if !in_range || old_tn.output_channel != ch || old_tn.output_note != nt {
                    seq![seq![0x80u8 | old_tn.output_channel, old_tn.output_note, 0u8]]
                } else {
                    Seq::<Seq<u8>>::empty()
                }
            },
            None => Seq::<Seq<u8>>::empty(),
        };
        if in_range {
            (
                Edo72Model {
                    ongoing: m1.ongoing.update(
                        note as int,
                        Some(TransformedNote {
                            output_channel: ch as u8,
                            output_note: nt as u8,
                        }),
                    ),
                    ..m1
                },
                silence.push(seq![0x90u8 | (ch as u8), nt as u8, velocity]),
            )
        } else {
            (m1, silence)
        }
    } else if spec_off(status, velocity) {
        match m1.ongoing[note as int] {
            Some(old_tn) => (
                Edo72Model { ongoing: m1.ongoing.update(note as int, None), ..m1 },
                seq![seq![0x80u8 | old_tn.output_channel, old_tn.output_note, velocity]],
            ),
            None => {
                if in_range {
                    (m1, seq![seq![0x80u8 | (ch as u8), nt as u8, velocity]])
                } else {
                    (m1, Seq::<Seq<u8>>::empty())
                }
            },
        }
    } else {
        (m1, Seq::<Seq<u8>>::empty())
    }
}

/// One raw message's effect on the transformer: the updated state and the
/// messages sent. Short or non-note messages pass through unchanged; the
/// control octave produces no output.
pub open spec fn spec_transform(m: Edo72Model, msg: Seq<u8>) -> (Edo72Model, Seq<Seq<u8>>) {
    if msg.len() < 3 || !(msg[0] & 0xF0 == 0x80 || msg[0] & 0xF0 == 0x90) {
        (m, seq![msg])
    } else if msg[1] >= OFFSET_OCTAVE_START {
        (spec_offset_control(m, msg[0] & 0xF0, msg[2], msg[1]), Seq::<Seq<u8>>::empty())
    } else {
        spec_regular_note(m, msg[0] & 0xF0, msg[2], msg[1])
    }
}

/// How many slots of a table are filled.
pub open spec fn spec_count_some<V>(s: Seq<Option<V>>) -> nat
    decreases s.len(),
{
    if s.len() == 0 {
        0
    } else {
        spec_count_some(s.drop_last()) + if s.last() is Some {
            1nat
        } else {
            0nat
        }
    }
}

/// The sum of the shift values of all held shift keys.
pub open spec fn spec_sum_shifts(s: Seq<Option<ShiftPress>>) -> int
    decreases s.len(),
{
    if s.len() == 0 {
        0
    } else {
        spec_sum_shifts(s.drop_last()) + match s.last() {
            Some(p) => p.shift_value as int,
            None => 0int,
        }
    }
}

/// The input note normalised: relative to the lowest piano key, with the
/// fixed 12-EDO shift applied.
pub open spec fn spec_normalized(note: u8) -> int {
    note - LOWEST_A + SHIFT_IN_12_EDO
}

/// The output channel a regular note is routed to.
pub open spec fn spec_channel_of(note: u8) -> int {
    MIN_CHANNEL + spec_normalized(note) / 12
}

/// The persistent shift stored for a note's pitch class, zero when unset.
pub open spec fn spec_pc_shift(pc_shifts: Seq<Option<i8>>, note: u8) -> int {
    match pc_shifts[(note % 12) as int] {
        Some(s) => s as int,
        None => 0int,
    }
}

/// The output note a regular note is routed to.
pub open spec fn spec_note_of(pc_shifts: Seq<Option<i8>>, note: u8) -> int {
    MIN_NOTE + (spec_normalized(note) % 12) * EDO_OVER_12 + spec_pc_shift(pc_shifts, note)
}

/// Note-on, as the transformer sees it: the masked status with velocity.
pub open spec fn spec_on(status: u8, velocity: u8) -> bool {
    status == 0x90 && velocity > 0
}

/// Note-off, including a note-on with velocity zero.
pub open spec fn spec_off(status: u8, velocity: u8) -> bool {
    status == 0x80 || (status == 0x90 && velocity == 0)
}

/// The effect of a control-octave key on the held-shift table: a note-on
/// records the key with its shift (its distance from the zero note), a
/// note-off removes it, anything else changes nothing.
pub open spec fn spec_offset_control(m: Edo72Model, status: u8, velocity: u8, input_note: u8)
    -> Edo72Model {
    if spec_on(status, velocity) {
        Edo72Model {
            shifts: m.shifts.update(
                input_note as int,
                Some(ShiftPress {
                    input_note,
                    shift_value: (input_note - OFFSET_ZERO_NOTE) as i8,
                }),
            ),
            ..m
        }
    } else if spec_off(status, velocity) {
        Edo72Model { shifts: m.shifts.update(input_note as int, None), ..m }
    } else {
        m
    }
}

} // verus!
