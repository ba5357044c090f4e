//! Command dispatch and routing: three reserved control notes are
//! intercepted before the pass-through/record path and never forwarded
//! downstream; every other message is forwarded unconditionally and,
//! while recording, appended to the clip.
//!
//! The caller owns the shared generation counter and the two sinks: on a
//! [`Command`] outcome it advances the counter (cancelling any stale
//! playback pass) and hands the command to the playback thread.

use vstd::prelude::*;
use crate::classifier::spec_is_note_on;
use crate::session::{
    SamplerState, spec_stop_session, spec_record_toggle, spec_normal_event, clock_ahead,
    stop_recording, handle_record_toggle, handle_normal_event,
};

verus! {

/// Reserved stop control note (Bb7).
pub const TOP_BFLAT: u8 = 106;

/// Reserved record-toggle control note (B7).
pub const TOP_B: u8 = 107;

/// Reserved trigger control note (C8).
pub const TOP_C: u8 = 108;

/// Default lookback window in milliseconds.
pub const LOOKBACK_MS: u64 = 50;

/// Default cancellation-polling slice in milliseconds.
pub const TRIGGER_SLEEP_MS: u64 = 3;

/// Static configuration, fixed at startup: the three reserved control
/// notes, the lookback window, and the polling slice.
#[derive(Clone, Copy)]
pub struct Config {
    pub stop_note: u8,
    pub record_note: u8,
    pub trigger_note: u8,
    pub lookback_ms: u64,
    pub slice_ms: u64,
}

/// The configuration the stock looper runs with.
pub open spec fn spec_standard_config() -> Config {
    Config {
        stop_note: TOP_BFLAT,
        record_note: TOP_B,
        trigger_note: TOP_C,
        lookback_ms: LOOKBACK_MS,
        slice_ms: TRIGGER_SLEEP_MS,
    }
}

impl Config {
    pub fn standard() -> (c: Config)
        ensures
            c == spec_standard_config(),
    {
        Config {
            stop_note: TOP_BFLAT,
            record_note: TOP_B,
            trigger_note: TOP_C,
            lookback_ms: LOOKBACK_MS,
            slice_ms: TRIGGER_SLEEP_MS,
        }
    }
}

/// A command for the playback thread.
pub enum Command {
    StartLoop,
    Stop,
}

/// What the dispatcher decided about one incoming message.
pub enum RouteOutcome {
    /// A control note: advance the generation counter, then send the
    /// command to the playback thread. The note is not forwarded.
    Control(Command),
    /// The record toggle was driven. The note is not forwarded.
    RecordToggled,
    /// A normal message: forward these bytes to the pass-through sink.
    PassThrough(Vec<u8>),
}

/// The message is a note-on for the given control note.
pub open spec fn spec_is_control_on(data: Seq<u8>, ctrl: u8) -> bool {
    spec_is_note_on(data) && data[1] == ctrl
}

/// The stop command's session side: stop recording if it is active. The
/// caller then advances the generation counter, which cancels any playback
/// pass; with no recording and no playback this whole path changes nothing.
pub fn handle_stop(state: &mut SamplerState) -> (cmd: Command)
    ensures
        final(state)@ == spec_stop_session(old(state)@),
        cmd is Stop,
{
    if state.recording {
        stop_recording(state);
    }
    Command::Stop
}

/// The trigger command's session side: stop recording if it is active,
/// exactly as a stop would. The caller then advances the generation counter
/// and starts playback from a copy of the frozen clip.
pub fn handle_trigger(state: &mut SamplerState) -> (cmd: Command)
    ensures
        final(state)@ == spec_stop_session(old(state)@),
        cmd is StartLoop,
{
    if state.recording {
        stop_recording(state);
    }
    Command::StartLoop
}

/// The next value of the generation counter. It always differs from the
/// old value, so a pass started under the old value observes the mismatch.
pub fn next_generation(gen: u64) -> (r: u64)
    ensures
        r == if gen == u64::MAX { 0u64 } else { (gen + 1) as u64 },
        r != gen,
{
    if gen == u64::MAX {
        0
    } else {
        gen + 1
    }
}

/// Route one incoming message at time `now`: intercept the three reserved
/// control notes (checked in stop, record, trigger order), and hand every
/// other message to the normal pass-through/record path.
pub fn route_message(state: &mut SamplerState, cfg: &Config, data: Vec<u8>, now: u64) -> (r:
    RouteOutcome)
    requires
        clock_ahead(old(state)@, now),
    ensures
        spec_is_control_on(data@, cfg.stop_note) ==> {
            &&& r matches RouteOutcome::Control(cmd) && cmd is Stop
            &&& final(state)@ == spec_stop_session(old(state)@)
        },
        !spec_is_control_on(data@, cfg.stop_note) && spec_is_control_on(data@, cfg.record_note)
            ==> {
            &&& r is RecordToggled
            &&& final(state)@ == spec_record_toggle(old(state)@, cfg.lookback_ms, now)
        },
        !spec_is_control_on(data@, cfg.stop_note) && !spec_is_control_on(data@, cfg.record_note)
            && spec_is_control_on(data@, cfg.trigger_note) ==> {
            &&& r matches RouteOutcome::Control(cmd) && cmd is StartLoop
            &&& final(state)@ == spec_stop_session(old(state)@)
        },
        !spec_is_control_on(data@, cfg.stop_note) && !spec_is_control_on(data@, cfg.record_note)
            && !spec_is_control_on(data@, cfg.trigger_note) ==> {
            &&& r matches RouteOutcome::PassThrough(fwd) && fwd@ == data@
            &&& final(state)@ == spec_normal_event(old(state)@, now, data@)
        },
{
    let is_on = crate::classifier::is_note_on(data.as_slice());
    if is_on {
        let n = data[1];
        if n == cfg.stop_note {
            let cmd = handle_stop(state);
            return RouteOutcome::Control(cmd);
        }
        if n == cfg.record_note {
            handle_record_toggle(state, cfg.lookback_ms, now);
            return RouteOutcome::RecordToggled;
        }
        if n == cfg.trigger_note {
            let cmd = handle_trigger(state);
            return RouteOutcome::Control(cmd);
        }
    }
    let fwd = handle_normal_event(state, data, now);
    RouteOutcome::PassThrough(fwd)
}

} // verus!
