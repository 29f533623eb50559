//! An embeddable audio playback engine.
//!
//! The engine behaves like a media element: it loads audio from a local path
//! or a remote URL, exposes transport controls (play / pause / stop / seek /
//! volume), tracks playback position and duration, and emits a stream of
//! lifecycle events to a single registered observer.
//!
//! The engine itself is pure state: the host embedding it owns the output
//! device, the decoder and the loader tasks, drives this state machine with
//! the outcomes it observes, and dispatches the events the machine emits.

pub mod bus;
pub mod clock;
pub mod errors;
pub mod events;
pub mod player;
