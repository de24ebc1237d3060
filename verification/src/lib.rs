//! Core logic of a character-tracking voice bot for a real-time game-event
//! stream.
//!
//! The library owns everything that can be stated and proved: the event model
//! and its role extraction, the per-event classification (including the
//! kill-streak rule), the subscription registry with its uniqueness
//! invariant, the dispatcher's fan-out decision, the per-session state
//! machine with its idle-timeout and logout sequencing, and the voicepack
//! track-list handling. Network, Discord and audio I/O live outside and hand
//! plain values in and out.

pub mod census;
pub mod classify;
pub mod dispatch;
pub mod event;
pub mod registry;
pub mod session;
pub mod sound;
