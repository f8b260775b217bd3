//! The session snapshot model: a normalized, independently owned
//! representation of one application's media playback, safe to copy and
//! hand across component boundaries.

use vstd::prelude::*;

verus! {

/// Playback state of a session, derived from the raw OS status code.
/// Any unrecognized code maps to `Stopped`: a safe default, never an error.
#[derive(Clone, Copy, Debug, PartialEq, Eq, Structural)]
pub enum PlaybackState {
    Playing,
    Paused,
    Stopped,
}

/// Raw OS playback status code that denotes an actively playing session.
pub const PLAYBACK_STATUS_PLAYING: i32 = 4;

/// Raw OS playback status code that denotes a paused session.
pub const PLAYBACK_STATUS_PAUSED: i32 = 5;

/// The playback state a raw OS status code normalizes to.
pub open spec fn playback_state_of(status: int) -> PlaybackState {
    if status == PLAYBACK_STATUS_PLAYING {
        PlaybackState::Playing
    } else if status == PLAYBACK_STATUS_PAUSED {
        PlaybackState::Paused
    } else {
        PlaybackState::Stopped
    }
}

/// Normalizes a raw OS playback status code.
pub fn playback_state_from_status(status: i32) -> (state: PlaybackState)
    ensures
        state == playback_state_of(status as int),
{
    if status == PLAYBACK_STATUS_PLAYING {
        PlaybackState::Playing
    } else if status == PLAYBACK_STATUS_PAUSED {
        PlaybackState::Paused
    } else {
        PlaybackState::Stopped
    }
}

/// Track metadata of a session. `title` and `artist` may be empty; `album`
/// is absent when the OS reported none; `artwork_url` is populated only by
/// the artwork fetch path, never by the primary snapshot query; durations
/// and positions are in milliseconds.
#[derive(Clone, Debug, PartialEq, Eq)]
pub struct MediaMetadata {
    pub title: String,
    pub artist: String,
    pub album: Option<String>,
    pub artwork_url: Option<String>,
    pub duration_ms: Option<u64>,
    pub position_ms: Option<u64>,
}

/// One application's media session: its source application identifier,
/// playback state, and track metadata.
#[derive(Clone, Debug, PartialEq, Eq)]
pub struct MediaSession {
    pub source_app: String,
    pub state: PlaybackState,
    pub metadata: Option<MediaMetadata>,
}

} // verus!
