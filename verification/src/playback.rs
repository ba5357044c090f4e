//! Playback engine: replays a frozen clip in an endless loop, tracks which
//! notes it has turned on, and cancels within one polling slice once the
//! shared generation counter moves past the epoch it was started with.
//!
//! The engine is a step machine over simulated pass time. The caller owns
//! the clock and the output sink: it reads the shared counter, computes the
//! milliseconds elapsed since the pass started, calls [`PlaybackPass::step`],
//! and performs the returned action (send, sleep, or restart). Every
//! decision — which event is due, how the active-note set changes, and what
//! must be silenced on a stale epoch — is made and proved here.

use vstd::prelude::*;
use crate::clip::{TimestampedMessage, clip_view, offsets_nondecreasing};
use crate::classifier::{spec_is_note_on, spec_is_note_off};

verus! {

/// The safety note-off for a (channel, note) pair: status 0x80 with the
/// channel in the low nibble, velocity zero.
pub open spec fn spec_note_off_message(channel: u8, note: u8) -> Seq<u8> {
    seq![0x80 | channel, note, 0u8]
}

/// The set of currently-sounding (channel, note) pairs inside one playback
/// pass, used only to emit safety note-offs before the pass is abandoned.
pub struct ActiveNotes {
    pub pairs: Vec<(u8, u8)>,
}

impl ActiveNotes {
    /// No pair occurs twice, and every channel fits in the MIDI low nibble.
    pub open spec fn wf(self) -> bool {
        &&& forall|i: int, j: int| 0 <= i < j < self.pairs@.len()
                ==> #[trigger] self.pairs@[i] != #[trigger] self.pairs@[j]
        &&& forall|i: int| 0 <= i < self.pairs@.len() ==> (#[trigger] self.pairs@[i]).0 < 16
    }

    /// The pair (channel, note) is currently sounding.
    pub open spec fn holds(self, channel: u8, note: u8) -> bool {
        self.pairs@.contains((channel, note))
    }

    pub fn new() -> (r: ActiveNotes)
        ensures
            r.wf(),
            r.pairs@.len() == 0,
    {
        ActiveNotes { pairs: Vec::new() }
    }

    /// Record that a note has been turned on.
    pub fn note_on(&mut self, channel: u8, note: u8)
        requires
            old(self).wf(),
            channel < 16,
        ensures
            final(self).wf(),
            forall|c: u8, n: u8| final(self).holds(c, n)
                <==> (old(self).holds(c, n) || (c == channel && n == note)),
    {
        let found = find_pair(&self.pairs, channel, note);
        match found {
            Some(_) => {
                proof {
                    assert(old(self).holds(channel, note));
                }
            }
            None => {
                self.pairs.push((channel, note));
                proof {
                    let s_old = old(self).pairs@;
                    let s_new = final(self).pairs@;
                    assert forall|c: u8, n: u8| final(self).holds(c, n)
                        implies (old(self).holds(c, n) || (c == channel && n == note)) by {
                        let k = choose|k: int| 0 <= k < s_new.len() && s_new[k] == (c, n);
                        if k < s_old.len() {
                            assert(s_old[k] == (c, n));
                        }
                    }
                    assert forall|c: u8, n: u8|
                        (old(self).holds(c, n) || (c == channel && n == note))
                        implies final(self).holds(c, n) by {
                        if old(self).holds(c, n) {
                            let k = choose|k: int| 0 <= k < s_old.len() && s_old[k] == (c, n);
                            assert(s_new[k] == (c, n));
                        } else {
                            assert(s_new[s_old.len() as int] == (c, n));
                        }
                    }
                }
            }
        }
    }

    /// Record that a note has been turned off.
    pub fn note_off(&mut self, channel: u8, note: u8)
        requires
            old(self).wf(),
        ensures
            final(self).wf(),
            forall|c: u8, n: u8| final(self).holds(c, n)
                <==> (old(self).holds(c, n) && !(c == channel && n == note)),
    {
        let found = find_pair(&self.pairs, channel, note);
        match found {
            None => {
                proof {
                    assert forall|c: u8, n: u8| final(self).holds(c, n)
                        implies (old(self).holds(c, n) && !(c == channel && n == note)) by {
                        let k = choose|k: int|
                            0 <= k < self.pairs@.len() && self.pairs@[k] == (c, n);
                        assert(self.pairs@[k] != (channel, note));
                    }
                }
            }
            Some(i) => {
                proof {
                    old(self).pairs@.remove_ensures(i as int);
                }
                self.pairs.remove(i);
                proof {
                    let s_old = old(self).pairs@;
                    let s_new = s_old.remove(i as int);
                    assert(final(self).pairs@ == s_new);
                    assert(s_old[i as int] == (channel, note));
                    assert forall|c: u8, n: u8| final(self).holds(c, n)
                        implies (old(self).holds(c, n) && !(c == channel && n == note)) by {
                        let k = choose|k: int| 0 <= k < s_new.len() && s_new[k] == (c, n);
                        if k < i as int {
                            assert(s_new[k] == s_old[k]);
                            assert(s_old[k] != s_old[i as int]);
                        } else {
                            assert(s_new[k] == s_old[k + 1]);
                            assert(s_old[k + 1] != s_old[i as int]);
                        }
                    }
                    assert forall|c: u8, n: u8|
                        (old(self).holds(c, n) && !(c == channel && n == note))
                        implies final(self).holds(c, n) by {
                        let k = choose|k: int| 0 <= k < s_old.len() && s_old[k] == (c, n);
                        if k < i as int {
                            assert(s_new[k] == s_old[k]);
                        } else {
                            assert(k != i as int);
                            assert(s_new[k - 1] == s_old[k]);
                        }
                    }
                    assert forall|a: int, b: int| 0 <= a < b < s_new.len()
                        implies #[trigger] s_new[a] != #[trigger] s_new[b] by {
                        if b < i as int {
                            assert(s_new[a] == s_old[a] && s_new[b] == s_old[b]);
                        } else if a < i as int {
                            assert(s_new[a] == s_old[a] && s_new[b] == s_old[b + 1]);
                        } else {
                            assert(s_new[a] == s_old[a + 1] && s_new[b] == s_old[b + 1]);
                        }
                    }
                    assert forall|k: int| 0 <= k < s_new.len()
                        implies (#[trigger] s_new[k]).0 < 16 by {
                        if k < i as int {
                            assert(s_new[k] == s_old[k]);
                        } else {
                            assert(s_new[k] == s_old[k + 1]);
                        }
                    }
                }
            }
        }
    }
}

/// Find the index of a (channel, note) pair in the list, if it is there.
fn find_pair(pairs: &Vec<(u8, u8)>, channel: u8, note: u8) -> (r: Option<usize>)
    ensures
        r matches Some(i) ==> i < pairs@.len() && pairs@[i as int] == (channel, note),
        r is None ==> forall|j: int| 0 <= j < pairs@.len()
            ==> #[trigger] pairs@[j] != (channel, note),
{
    let mut i: usize = 0;
    while i < pairs.len()
        invariant
            i <= pairs@.len(),
            forall|j: int| 0 <= j < i ==> #[trigger] pairs@[j] != (channel, note),
        decreases pairs@.len() - i,
    {
        if pairs[i].0 == channel && pairs[i].1 == note {
            return Some(i);
        }
        i = i + 1;
    }
    None
}

/// Build the safety note-off list: one note-off per currently-sounding
/// pair. Every pair the set holds is covered, and every emitted message is
/// itself a note-off.
pub fn all_notes_off_messages(active: &ActiveNotes) -> (r: Vec<Vec<u8>>)
    requires
        active.wf(),
    ensures
        r@.len() == active.pairs@.len(),
        forall|i: int| 0 <= i < r@.len()
            ==> #[trigger] r@[i]@ == spec_note_off_message(active.pairs@[i].0, active.pairs@[i].1),
        forall|i: int| 0 <= i < r@.len() ==> spec_is_note_off(#[trigger] r@[i]@),
        forall|c: u8, n: u8| active.holds(c, n)
            ==> exists|i: int| 0 <= i < r@.len() && #[trigger] r@[i]@ == spec_note_off_message(c, n),
{
    let mut r: Vec<Vec<u8>> = Vec::new();
    let mut i: usize = 0;
    while i < active.pairs.len()
        invariant
            active.wf(),
            i <= active.pairs@.len(),
            r@.len() == i,
            forall|j: int| 0 <= j < i
                ==> #[trigger] r@[j]@ == spec_note_off_message(active.pairs@[j].0, active.pairs@[j].1),
        decreases active.pairs@.len() - i,
    {
        let (channel, note) = active.pairs[i];
        let mut msg: Vec<u8> = Vec::new();
        msg.push(0x80 | channel);
        msg.push(note);
        msg.push(0);
        proof {
            assert(msg@ =~= spec_note_off_message(channel, note));
        }
        r.push(msg);
        i = i + 1;
    }
    proof {
        assert forall|i: int| 0 <= i < r@.len() implies spec_is_note_off(#[trigger] r@[i]@) by {
            let c = active.pairs@[i].0;
            assert(c < 16);
            assert((0x80u8 | c) & 0xF0u8 == 0x80u8) by (bit_vector)
                requires c < 16u8;
        }
        assert forall|c: u8, n: u8| active.holds(c, n)
            implies exists|i: int| 0 <= i < r@.len() && #[trigger] r@[i]@ == spec_note_off_message(c, n) by {
            let k = choose|k: int|
                0 <= k < active.pairs@.len() && active.pairs@[k] == (c, n);
            assert(r@[k]@ == spec_note_off_message(c, n));
        }
    }
    r
}

/// The length of one full loop pass: the offset of the clip's last event,
/// or zero for an empty clip.
pub fn loop_duration(clip: &Vec<TimestampedMessage>) -> (d: u64)
    ensures
        d == if clip@.len() > 0 { clip_view(clip@).last().1 } else { 0u64 },
{
    if clip.len() > 0 {
        clip[clip.len() - 1].offset
    } else {
        0
    }
}

/// The length of the next cancellation-polling slice: the remaining wait,
/// capped at the configured slice so staleness is observed within one slice.
pub fn next_sleep_slice(remaining: u64, slice_ms: u64) -> (r: u64)
    ensures
        r == if remaining <= slice_ms { remaining } else { slice_ms },
{
    if remaining <= slice_ms {
        remaining
    } else {
        slice_ms
    }
}

/// The active-note set `after` is `before` updated by one emitted message:
/// a note-on inserts its (channel, note) pair, a note-off removes it, and
/// any other message leaves the set alone.
pub open spec fn spec_tracked(before: ActiveNotes, after: ActiveNotes, data: Seq<u8>) -> bool {
    if spec_is_note_on(data) {
        forall|c: u8, n: u8| after.holds(c, n)
            <==> (before.holds(c, n) || (c == data[0] & 0x0F && n == data[1]))
    } else if spec_is_note_off(data) {
        forall|c: u8, n: u8| after.holds(c, n)
            <==> (before.holds(c, n) && !(c == data[0] & 0x0F && n == data[1]))
    } else {
        after == before
    }
}

/// What the engine asks its caller to do next.
pub enum PlayStep {
    /// The epoch went stale: send these safety note-offs to the loop sink
    /// and abandon the pass.
    Cancelled(Vec<Vec<u8>>),
    /// Send this event to the loop sink now.
    Emit(Vec<u8>),
    /// The next event is not due yet: sleep (in bounded slices) until this
    /// many milliseconds have passed since the pass started.
    Wait(u64),
    /// The pass is complete: once this many milliseconds have passed since
    /// the pass started, begin the next pass.
    PassDone(u64),
}

/// One replay pass over a frozen clip, bound to the epoch it was started
/// with.
pub struct PlaybackPass {
    pub clip: Vec<TimestampedMessage>,
    pub idx: usize,
    pub active: ActiveNotes,
    pub my_gen: u64,
    pub finished: bool,
}

impl PlaybackPass {
    pub open spec fn wf(self) -> bool {
        &&& self.idx <= self.clip@.len()
        &&& self.clip@.len() > 0
        &&& offsets_nondecreasing(clip_view(self.clip@))
        &&& self.active.wf()
    }

    /// Begin playback of a clip copy under the given epoch. An empty clip
    /// is a no-op: no pass starts.
    pub fn start(clip: Vec<TimestampedMessage>, my_gen: u64) -> (r: Option<PlaybackPass>)
        requires
            offsets_nondecreasing(clip_view(clip@)),
        ensures
            (r is Some) <==> clip@.len() > 0,
            r matches Some(p) ==> {
                &&& p.wf()
                &&& p.clip@ == clip@
                &&& p.idx == 0
                &&& p.active.pairs@.len() == 0
                &&& p.my_gen == my_gen
                &&& !p.finished
            },
    {
        if clip.len() == 0 {
            None
        } else {
            Some(PlaybackPass {
                clip,
                idx: 0,
                active: ActiveNotes::new(),
                my_gen,
                finished: false,
            })
        }
    }

    /// One decision of the replay loop, given the observed value of the
    /// shared generation counter and the milliseconds elapsed since this
    /// pass started. A stale counter cancels the pass: nothing is emitted
    /// except one safety note-off for every note still held on, and the
    /// pass is finished for good.
    pub fn step(&mut self, observed_gen: u64, pass_time: u64) -> (r: PlayStep)
        requires
            old(self).wf(),
            !old(self).finished,
        ensures
            final(self).wf(),
            final(self).my_gen == old(self).my_gen,
            final(self).clip@ == old(self).clip@,
            final(self).finished <==> observed_gen != old(self).my_gen,
            (r matches PlayStep::Cancelled(_)) <==> observed_gen != old(self).my_gen,
            r matches PlayStep::Cancelled(offs) ==> {
                &&& offs@.len() == old(self).active.pairs@.len()
                &&& forall|i: int| 0 <= i < offs@.len() ==> #[trigger] offs@[i]@
                        == spec_note_off_message(old(self).active.pairs@[i].0, old(self).active.pairs@[i].1)
                &&& forall|i: int| 0 <= i < offs@.len() ==> spec_is_note_off(#[trigger] offs@[i]@)
                &&& forall|c: u8, n: u8| old(self).active.holds(c, n)
                        ==> exists|i: int| 0 <= i < offs@.len()
                            && #[trigger] offs@[i]@ == spec_note_off_message(c, n)
                &&& final(self).active.pairs@.len() == 0
            },
            observed_gen == old(self).my_gen ==> {
                let due = old(self).idx < old(self).clip@.len()
                    && pass_time >= clip_view(old(self).clip@)[old(self).idx as int].1;
                &&& (r matches PlayStep::Emit(data) ==> {
                    &&& due
                    &&& data@ == clip_view(old(self).clip@)[old(self).idx as int].0
                    &&& final(self).idx == old(self).idx + 1
                    &&& spec_tracked(old(self).active, final(self).active, data@)
                })
                &&& (due ==> r matches PlayStep::Emit(_))
                &&& (r matches PlayStep::Wait(until) ==> {
                    &&& old(self).idx < old(self).clip@.len()
                    &&& !due
                    &&& until == clip_view(old(self).clip@)[old(self).idx as int].1
                    &&& *final(self) == *old(self)
                })
                &&& (old(self).idx < old(self).clip@.len() && !due ==> r matches PlayStep::Wait(_))
                &&& (r matches PlayStep::PassDone(d) ==> {
                    &&& old(self).idx == old(self).clip@.len()
                    &&& d == clip_view(old(self).clip@).last().1
                    &&& final(self).idx == 0
                    &&& final(self).active == old(self).active
                })
                &&& (old(self).idx == old(self).clip@.len() ==> r matches PlayStep::PassDone(_))
            },
    {
        if observed_gen != self.my_gen {
            let offs = all_notes_off_messages(&self.active);
            self.active = ActiveNotes::new();
            self.finished = true;
            return PlayStep::Cancelled(offs);
        }
        if self.idx < self.clip.len() {
            let offset = self.clip[self.idx].offset;
            if pass_time >= offset {
                let data = crate::clip::copy_bytes(&self.clip[self.idx].data);
                if crate::classifier::is_note_on(data.as_slice()) {
                    let status: u8 = data[0];
                    let channel: u8 = status & 0x0F;
                    let note = data[1];
                    proof {
                        assert(status & 0x0F < 16) by (bit_vector);
                    }
                    self.active.note_on(channel, note);
                } else if crate::classifier::is_note_off(data.as_slice()) {
                    let channel = data[0] & 0x0F;
                    let note = data[1];
                    self.active.note_off(channel, note);
                }
                self.idx = self.idx + 1;
                PlayStep::Emit(data)
            } else {
                PlayStep::Wait(offset)
            }
        } else {
            let d = loop_duration(&self.clip);
            self.idx = 0;
            PlayStep::PassDone(d)
        }
    }
}

} // verus!
