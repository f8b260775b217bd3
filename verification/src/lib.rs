//! Verified core of a desktop "now playing" widget.
//!
//! The library models the host's media session as a plain, serializable
//! snapshot, decides every transport action (seek clamping, rewind and
//! fast-forward stepping, play/pause dispatch), normalizes raw timeline
//! ticks into milliseconds, tracks which application is the current source,
//! and clamps output volume. The platform shell reads raw session fields
//! from the OS, hands them to these functions as plain values, and performs
//! the actions they decide on.

pub mod adapter;
pub mod media;
pub mod priority_stack;
pub mod state;
pub mod timeline;
pub mod volume;

