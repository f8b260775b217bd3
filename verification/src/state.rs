//! A reduced player-state payload: a smaller snapshot shape that carries
//! only the source identity, coarse status and track text, for consumers
//! that need none of the timeline detail.

use vstd::prelude::*;

verus! {

/// Coarse playback status of a player.
#[derive(Clone, Copy, Debug, PartialEq, Eq, Structural)]
pub enum PlaybackStatus {
    Playing,
    Paused,
    Stopped,
}

/// The track text a player reports: title, artist, and an optional
/// embeddable artwork URI.
#[derive(Clone, Debug, PartialEq, Eq)]
pub struct TrackMetadata {
    pub title: String,
    pub artist: String,
    pub artwork_url: Option<String>,
}

/// One player's coarse state: who plays, whether it plays, and what.
#[derive(Clone, Debug, PartialEq, Eq)]
pub struct PlayerState {
    pub app_name: String,
    pub status: PlaybackStatus,
    pub metadata: Option<TrackMetadata>,
}

} // verus!
