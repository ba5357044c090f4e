//! Session state machine: whether recording is active, the clip store, and
//! the memo of the last normal note used for lookback capture.
//!
//! Every transition is described twice: once as a spec function over the
//! abstract [`SessionModel`], and once as executable code whose contract pins
//! the new state to the spec transition. The caller supplies `now`, a reading
//! of a monotonic millisecond clock; [`clock_ahead`] says that `now` is not
//! before anything the session has already seen, which a monotonic clock
//! guarantees.

use vstd::prelude::*;
use crate::clip::{TimestampedMessage, clip_view, offsets_nondecreasing, copy_bytes};

verus! {

/// The abstract state of a session: the mathematical content of
/// [`SamplerState`].
#[verifier::ext_equal]
pub ghost struct SessionModel {
    pub recording: bool,
    pub clip: Seq<(Seq<u8>, u64)>,
    pub record_start: Option<u64>,
    pub last_normal_note: Option<(u64, Seq<u8>)>,
}

/// The state a session starts in: idle, with an empty clip.
pub open spec fn spec_initial_session() -> SessionModel {
    SessionModel {
        recording: false,
        clip: Seq::empty(),
        record_start: None,
        last_normal_note: None,
    }
}

/// Well-formedness: offsets never decrease, and a recording start time is
/// held exactly while recording is active.
pub open spec fn model_wf(m: SessionModel) -> bool {
    &&& offsets_nondecreasing(m.clip)
    &&& (m.recording <==> m.record_start is Some)
}

/// `now` is not before anything the session has seen: the recording start,
/// the end of the clip, and the last-note memo all lie at or before `now`.
pub open spec fn clock_ahead(m: SessionModel, now: u64) -> bool {
    &&& (m.record_start matches Some(st) ==> st <= now)
    &&& (m.recording && m.clip.len() > 0 ==> (m.record_start matches Some(st)
            && st + m.clip.last().1 <= now))
    &&& (m.last_normal_note matches Some((t, _)) ==> t <= now)
}

/// Freezing the clip: recording ends, the clip stays as it is.
pub open spec fn spec_stop_recording(m: SessionModel) -> SessionModel {
    SessionModel { recording: false, record_start: None, ..m }
}

/// The stop command's effect on the session: stop recording if active,
/// otherwise change nothing.
pub open spec fn spec_stop_session(m: SessionModel) -> SessionModel {
    if m.recording {
        spec_stop_recording(m)
    } else {
        m
    }
}

/// Lookback applies when a normal note was observed within the window
/// before the record toggle.
pub open spec fn spec_lookback_applies(m: SessionModel, lookback_ms: u64, now: u64) -> bool {
    m.last_normal_note matches Some((t, _)) && t <= now && now - t <= lookback_ms
}

/// Starting a recording: the clip is cleared; if a normal note arrived
/// within the lookback window it becomes the first entry at offset zero and
/// the recording start is backdated to its arrival time, otherwise the
/// recording starts now with an empty clip.
pub open spec fn spec_start_recording(m: SessionModel, lookback_ms: u64, now: u64) -> SessionModel {
    if spec_lookback_applies(m, lookback_ms, now) {
        let (t, d) = m.last_normal_note->Some_0;
        SessionModel {
            recording: true,
            clip: seq![(d, 0u64)],
            record_start: Some(t),
            ..m
        }
    } else {
        SessionModel {
            recording: true,
            clip: Seq::empty(),
            record_start: Some(now),
            ..m
        }
    }
}

/// The record toggle: start recording when idle, stop when recording.
pub open spec fn spec_record_toggle(m: SessionModel, lookback_ms: u64, now: u64) -> SessionModel {
    if m.recording {
        spec_stop_recording(m)
    } else {
        spec_start_recording(m, lookback_ms, now)
    }
}

/// A note event refreshes the last-note memo; other messages leave it alone.
pub open spec fn spec_note_memo(m: SessionModel, now: u64, data: Seq<u8>) -> SessionModel {
    if crate::classifier::spec_is_note_event(data) {
        SessionModel { last_normal_note: Some((now, data)), ..m }
    } else {
        m
    }
}

/// A normal (non-control) message: the memo is refreshed for note events,
/// and while recording the message is appended to the clip at the offset
/// `now - record_start`.
pub open spec fn spec_normal_event(m: SessionModel, now: u64, data: Seq<u8>) -> SessionModel {
    let m1 = spec_note_memo(m, now, data);
    if m1.recording && m1.record_start is Some {
        SessionModel {
            clip: m1.clip.push((data, (now - m1.record_start->Some_0) as u64)),
            ..m1
        }
    } else {
        m1
    }
}

/// The event times of a batch of messages never decrease.
pub open spec fn times_nondecreasing(evs: Seq<(u64, Seq<u8>)>) -> bool {
    forall|i: int, j: int| 0 <= i <= j < evs.len()
        ==> (#[trigger] evs[i]).0 <= (#[trigger] evs[j]).0
}

/// The session after a batch of normal messages, applied in order.
pub open spec fn spec_run_events(m: SessionModel, evs: Seq<(u64, Seq<u8>)>) -> SessionModel
    decreases evs.len(),
{
    if evs.len() == 0 {
        m
    } else {
        spec_run_events(spec_normal_event(m, evs[0].0, evs[0].1), evs.drop_first())
    }
}

/// Stopping with no recording active changes nothing, so stopping twice is
/// the same as stopping once; and stopping keeps the session well-formed.
pub proof fn lemma_stop_session_idempotent(m: SessionModel)
    ensures
        spec_stop_session(spec_stop_session(m)) == spec_stop_session(m),
        model_wf(m) ==> model_wf(spec_stop_session(m)),
{
    assert(spec_stop_session(spec_stop_session(m)) =~= spec_stop_session(m));
}

/// The record toggle keeps the session well-formed and never runs ahead of
/// the clock reading it was given.
pub proof fn lemma_record_toggle_preserves_wf(m: SessionModel, lookback_ms: u64, now: u64)
    requires
        model_wf(m),
        clock_ahead(m, now),
    ensures
        model_wf(spec_record_toggle(m, lookback_ms, now)),
        clock_ahead(spec_record_toggle(m, lookback_ms, now), now),
{
}

/// A normal message keeps the session well-formed — in particular the clip
/// offsets stay non-decreasing — and leaves the recording flag and start
/// time alone.
pub proof fn lemma_normal_event_preserves_wf(m: SessionModel, now: u64, data: Seq<u8>)
    requires
        model_wf(m),
        clock_ahead(m, now),
    ensures
        model_wf(spec_normal_event(m, now, data)),
        clock_ahead(spec_normal_event(m, now, data), now),
        spec_normal_event(m, now, data).recording == m.recording,
        spec_normal_event(m, now, data).record_start == m.record_start,
        spec_normal_event(m, now, data).clip.len() >= m.clip.len(),
{
    let m1 = spec_note_memo(m, now, data);
    let m2 = spec_normal_event(m, now, data);
    if m1.recording && m1.record_start is Some {
        let st = m1.record_start->Some_0;
        assert forall|i: int, j: int| 0 <= i <= j < m2.clip.len() implies
            m2.clip[i].1 <= m2.clip[j].1 by {
            if j == m.clip.len() as int {
                if i < j {
                    assert(m.clip[i].1 <= m.clip[m.clip.len() - 1].1);
                }
            }
        }
    }
}

/// A later clock reading is still ahead of everything the session has seen.
pub proof fn lemma_clock_ahead_monotone(m: SessionModel, now1: u64, now2: u64)
    requires
        clock_ahead(m, now1),
        now1 <= now2,
    ensures
        clock_ahead(m, now2),
{
}

/// While recording, a batch of normal messages at nondecreasing times is
/// appended in order: each message lands at the end of the clip with offset
/// equal to its arrival time minus the recording start.
pub proof fn lemma_run_records_timings(m: SessionModel, evs: Seq<(u64, Seq<u8>)>)
    requires
        model_wf(m),
        m.recording,
        times_nondecreasing(evs),
        evs.len() > 0 ==> clock_ahead(m, evs[0].0),
    ensures ({
        let mend = spec_run_events(m, evs);
        let st = m.record_start->Some_0;
        &&& mend.recording
        &&& mend.record_start == m.record_start
        &&& mend.clip.len() == m.clip.len() + evs.len()
        &&& forall|i: int| 0 <= i < m.clip.len() ==> #[trigger] mend.clip[i] == m.clip[i]
        &&& forall|i: int| 0 <= i < evs.len()
            ==> #[trigger] mend.clip[m.clip.len() + i] == (evs[i].1, (evs[i].0 - st) as u64)
        &&& model_wf(mend)
    })
    decreases evs.len(),
{
    if evs.len() > 0 {
        let m1 = spec_normal_event(m, evs[0].0, evs[0].1);
        lemma_normal_event_preserves_wf(m, evs[0].0, evs[0].1);
        let rest = evs.drop_first();
        if rest.len() > 0 {
            assert(evs[0].0 <= rest[0].0);
            lemma_clock_ahead_monotone(m1, evs[0].0, rest[0].0);
        }
        lemma_run_records_timings(m1, rest);
        let mend = spec_run_events(m, evs);
        assert(mend == spec_run_events(m1, rest));
        let st = m.record_start->Some_0;
        assert(m1.clip[m.clip.len() as int] == (evs[0].1, (evs[0].0 - st) as u64));
        assert forall|i: int| 0 <= i < evs.len() implies
            #[trigger] mend.clip[m.clip.len() + i] == (evs[i].1, (evs[i].0 - st) as u64) by {
            if i > 0 {
                assert(mend.clip[m1.clip.len() + (i - 1)] == (rest[i - 1].1, (rest[i - 1].0 - st) as u64));
                assert(rest[i - 1] == evs[i]);
            } else {
                assert(mend.clip[m.clip.len() as int] == m1.clip[m.clip.len() as int]);
            }
        }
    }
}

/// Toggling recording on at time `t` and then recording a batch of normal
/// messages yields a clip of exactly N entries — N + 1 when lookback capture
/// applied — whose offsets reproduce the arrival times relative to the
/// recording start; and when every message arrives strictly after the
/// toggle, the first offset is zero exactly when the clip began via
/// lookback capture.
pub proof fn lemma_recorded_clip_reproduces_timings(
    m0: SessionModel,
    lookback_ms: u64,
    t: u64,
    evs: Seq<(u64, Seq<u8>)>,
)
    requires
        model_wf(m0),
        clock_ahead(m0, t),
        !m0.recording,
        times_nondecreasing(evs),
        forall|i: int| 0 <= i < evs.len() ==> t < (#[trigger] evs[i]).0,
    ensures ({
        let m1 = spec_record_toggle(m0, lookback_ms, t);
        let mend = spec_run_events(m1, evs);
        let lk = spec_lookback_applies(m0, lookback_ms, t);
        let base: int = if lk { 1 } else { 0 };
        let st = m1.record_start->Some_0;
        &&& model_wf(mend)
        &&& mend.clip.len() == evs.len() + base
        &&& (lk ==> mend.clip[0] == (m0.last_normal_note->Some_0.1, 0u64)
                && st == m0.last_normal_note->Some_0.0)
        &&& (!lk ==> st == t)
        &&& forall|i: int| 0 <= i < evs.len()
            ==> #[trigger] mend.clip[base + i] == (evs[i].1, (evs[i].0 - st) as u64)
        &&& (mend.clip.len() > 0 ==> (mend.clip[0].1 == 0 <==> lk))
    })
{
    let m1 = spec_record_toggle(m0, lookback_ms, t);
    let lk = spec_lookback_applies(m0, lookback_ms, t);
    lemma_record_toggle_preserves_wf(m0, lookback_ms, t);
    if evs.len() > 0 {
        lemma_clock_ahead_monotone(m1, t, evs[0].0);
    }
    lemma_run_records_timings(m1, evs);
    let mend = spec_run_events(m1, evs);
    let st = m1.record_start->Some_0;
    let base: int = if lk { 1 } else { 0 };
    if mend.clip.len() > 0 {
        if !lk {
            assert(m1.clip.len() == 0);
            assert(mend.clip[m1.clip.len() as int + 0] == (evs[0].1, (evs[0].0 - st) as u64));
            assert(mend.clip[0] == (evs[0].1, (evs[0].0 - st) as u64));
            assert(evs[0].0 > st);
        }
    }
}

/// The single mutable session record. All fields are mutated only through
/// the transition functions below; the embedding program keeps it behind
/// one lock and holds that lock only for these short, non-blocking calls.
pub struct SamplerState {
    pub recording: bool,
    pub clip: Vec<TimestampedMessage>,
    pub record_start: Option<u64>,
    pub last_normal_note: Option<(u64, Vec<u8>)>,
}

impl View for SamplerState {
    type V = SessionModel;

    open spec fn view(&self) -> SessionModel {
        SessionModel {
            recording: self.recording,
            clip: clip_view(self.clip@),
            record_start: self.record_start,
            last_normal_note: match self.last_normal_note {
                Some((t, d)) => Some((t, d@)),
                None => None,
            },
        }
    }
}

impl SamplerState {
    /// A fresh session: idle, empty clip, nothing memorised.
    pub fn new() -> (s: Self)
        ensures
            s@ == spec_initial_session(),
    {
        let s = SamplerState {
            recording: false,
            clip: Vec::new(),
            record_start: None,
            last_normal_note: None,
        };
        proof {
            assert(s@ =~= spec_initial_session());
        }
        s
    }
}

/// Freeze the clip as it stands and leave the recording state.
pub fn stop_recording(state: &mut SamplerState)
    ensures
        final(state)@ == spec_stop_recording(old(state)@),
{
    state.recording = false;
    state.record_start = None;
    proof {
        assert(final(state)@ =~= spec_stop_recording(old(state)@));
    }
}

/// Start a recording at `now`, clearing the clip and applying lookback
/// capture when the last normal note arrived within `lookback_ms`.
pub fn start_recording(state: &mut SamplerState, lookback_ms: u64, now: u64)
    requires
        old(state)@.last_normal_note matches Some((t, _)) ==> t <= now,
    ensures
        final(state)@ == spec_start_recording(old(state)@, lookback_ms, now),
{
    state.recording = true;
    state.clip.clear();
    let mut lookback_entry: Option<(u64, Vec<u8>)> = None;
    match &state.last_normal_note {
        Some((t, d)) => {
            if now - *t <= lookback_ms {
                lookback_entry = Some((*t, copy_bytes(d)));
            }
        }
        None => {}
    }
    match lookback_entry {
        Some((t, d)) => {
            state.record_start = Some(t);
            state.clip.push(TimestampedMessage { data: d, offset: 0 });
        }
        None => {
            state.record_start = Some(now);
        }
    }
    proof {
        assert(final(state)@ =~= spec_start_recording(old(state)@, lookback_ms, now));
    }
}

/// Drive the record toggle: start when idle, stop when recording.
pub fn handle_record_toggle(state: &mut SamplerState, lookback_ms: u64, now: u64)
    requires
        old(state)@.last_normal_note matches Some((t, _)) ==> t <= now,
    ensures
        final(state)@ == spec_record_toggle(old(state)@, lookback_ms, now),
{
    if state.recording {
        stop_recording(state);
    } else {
        start_recording(state, lookback_ms, now);
    }
}

/// A normal (non-control) message arriving at `now`: refresh the last-note
/// memo, append to the clip while recording, and hand back the bytes to be
/// forwarded unconditionally to the pass-through sink.
pub fn handle_normal_event(state: &mut SamplerState, data: Vec<u8>, now: u64) -> (forward: Vec<u8>)
    requires
        old(state)@.record_start matches Some(st) ==> st <= now,
    ensures
        forward@ == data@,
        final(state)@ == spec_normal_event(old(state)@, now, data@),
{
    let forward = copy_bytes(&data);
    if crate::classifier::is_note_event(data.as_slice()) {
        let memo = copy_bytes(&data);
        state.last_normal_note = Some((now, memo));
    }
    if state.recording {
        match state.record_start {
            Some(start) => {
                let offset: u64 = now - start;
                state.clip.push(TimestampedMessage { data, offset });
            }
            None => {}
        }
    }
    proof {
        assert(final(state)@ =~= spec_normal_event(old(state)@, now, data@));
    }
    forward
}

/// Copy the frozen clip so a playback pass owns it independently of any
/// later mutation of the live clip.
pub fn copy_clip(state: &SamplerState) -> (r: Vec<TimestampedMessage>)
    ensures
        clip_view(r@) == state@.clip,
{
    let mut r: Vec<TimestampedMessage> = Vec::new();
    let mut i: usize = 0;
    while i < state.clip.len()
        invariant
            i <= state.clip.len(),
            r@.len() == i,
            forall|j: int| 0 <= j < i ==> r@[j]@ == state.clip@[j]@,
        decreases state.clip.len() - i,
    {
        let m = &state.clip[i];
        r.push(TimestampedMessage { data: copy_bytes(&m.data), offset: m.offset });
        i = i + 1;
    }
    proof {
        assert(clip_view(r@) =~= state@.clip);
    }
    r
}

} // verus!
