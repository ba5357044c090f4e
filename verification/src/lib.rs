//! A real-time MIDI event looper.
//!
//! The library records a live MIDI performance into a timestamped clip and
//! replays it on an endless, restartable loop, while staying responsive to
//! record / trigger / stop commands arriving on the same input stream.
//! Time is modelled as milliseconds on a monotonic clock, handed in by the
//! caller; all I/O (ports, sends, sleeps) stays outside the library.
//!
//! A companion module, [`edo72`], maps piano notes onto multi-channel
//! output for 72-tone equal temperament.

pub mod classifier;
pub mod clip;
pub mod session;
pub mod playback;
pub mod dispatch;
pub mod edo72;
