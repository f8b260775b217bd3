//! The media control adapter: the decision core that turns raw session
//! fields read from the OS into a normalized snapshot, and turns control
//! requests into clamped transport actions.
//!
//! The adapter itself is stateless. The platform shell acquires the OS
//! session manager, reads the raw fields, hands them in as plain values,
//! and issues whatever action these functions decide on; absence of a
//! session is always a silent no-op, never an error.

use vstd::prelude::*;
use vstd::string::StringExecFns;

use crate::media::{playback_state_of, playback_state_from_status, MediaMetadata, MediaSession};
use crate::timeline::{
    duration_ms, duration_ms_of, fast_forward_target, position_ms, position_ms_of, seek_target,
    rewind_target, Timeline, SEEK_MARGIN_TICKS, SKIP_STEP_TICKS, TICKS_PER_MILLISECOND,
};

verus! {

/// The raw fields of the current OS media session, as the shell reads them:
/// the source application identifier, the raw playback status code, the
/// track's text fields, and its timeline in ticks.
pub struct SessionObservation {
    pub source_app: String,
    pub status: i32,
    pub title: String,
    pub artist: String,
    pub album: Option<String>,
    pub timeline: Timeline,
}

/// A one-shot transport request to issue against the current session.
#[derive(Clone, Copy, Debug, PartialEq, Eq, Structural)]
pub enum TransportCommand {
    Play,
    Pause,
    SkipPrevious,
    SkipNext,
}

/// The capability contract every platform adapter satisfies: it normalizes
/// one observed session into a snapshot, and absence of a session is a
/// value, not an error.
pub trait MediaAdapter {
    /// Builds the normalized snapshot of the observed session, or `None`
    /// when no application currently holds one.
    fn get_current_session(&self, observation: Option<SessionObservation>) -> (snapshot: Option<
        MediaSession,
    >)
        ensures
            observation is None <==> snapshot is None,
            observation matches Some(obs) ==> snapshot matches Some(s) && {
                &&& s.source_app@ == obs.source_app@
                &&& s.state == playback_state_of(obs.status as int)
                &&& s.metadata matches Some(m) && {
                    &&& m.title@ == obs.title@
                    &&& m.artist@ == obs.artist@
                    &&& (m.album is Some <==> obs.album is Some)
                    &&& obs.album matches Some(a) ==> m.album matches Some(b) && b@ == a@
                    &&& m.artwork_url is None
                    &&& m.duration_ms matches Some(d) && d == duration_ms_of(
                        obs.timeline.start as int,
                        obs.timeline.end as int,
                    )
                    &&& m.position_ms matches Some(p) && p == position_ms_of(
                        obs.timeline.start as int,
                        obs.timeline.position as int,
                    )
                }
            },
    ;
}

/// The adapter for the host platform's media transport controls. It holds
/// no state and no OS handles: every operation works on the values handed
/// to it for that one call.
pub struct WindowsAdapter;

impl MediaAdapter for WindowsAdapter {
    fn get_current_session(&self, observation: Option<SessionObservation>) -> (snapshot: Option<
        MediaSession,
    >) {
        match observation {
            None => None,
            Some(obs) => {
                let state = playback_state_from_status(obs.status);
                let duration = duration_ms(obs.timeline.start, obs.timeline.end);
                let position = position_ms(obs.timeline.start, obs.timeline.position);
                let metadata = MediaMetadata {
                    title: obs.title,
                    artist: obs.artist,
                    album: obs.album,
                    artwork_url: None,
                    duration_ms: Some(duration),
                    position_ms: Some(position),
                };
                Some(
                    MediaSession {
                        source_app: obs.source_app,
                        state,
                        metadata: Some(metadata),
                    },
                )
            },
        }
    }
}

impl WindowsAdapter {
    /// Requests playback: issue `Play` when a session exists, otherwise do
    /// nothing and report success.
    pub fn play(&self, session_present: bool) -> (command: Option<TransportCommand>)
        ensures
            session_present ==> command == Some(TransportCommand::Play),
            !session_present ==> command is None,
    {
        if session_present {
            Some(TransportCommand::Play)
        } else {
            None
        }
    }

    /// Requests a pause: issue `Pause` when a session exists, otherwise do
    /// nothing and report success.
    pub fn pause(&self, session_present: bool) -> (command: Option<TransportCommand>)
        ensures
            session_present ==> command == Some(TransportCommand::Pause),
            !session_present ==> command is None,
    {
        if session_present {
            Some(TransportCommand::Pause)
        } else {
            None
        }
    }

    /// Requests the previous track: issue `SkipPrevious` when a session
    /// exists, otherwise do nothing and report success.
    pub fn previous(&self, session_present: bool) -> (command: Option<TransportCommand>)
        ensures
            session_present ==> command == Some(TransportCommand::SkipPrevious),
            !session_present ==> command is None,
    {
        if session_present {
            Some(TransportCommand::SkipPrevious)
        } else {
            None
        }
    }

    /// Requests the next track: issue `SkipNext` when a session exists,
    /// otherwise do nothing and report success.
    pub fn next(&self, session_present: bool) -> (command: Option<TransportCommand>)
        ensures
            session_present ==> command == Some(TransportCommand::SkipNext),
            !session_present ==> command is None,
    {
        if session_present {
            Some(TransportCommand::SkipNext)
        } else {
            None
        }
    }

    /// Decides the absolute tick position a seek request lands on, clamped
    /// into the track span with a one-second margin on long enough tracks.
    /// Absence of a session or timeline is a silent no-op.
    pub fn seek_to(&self, timeline: Option<&Timeline>, position_ms: u64) -> (target: Option<i64>)
        ensures
            timeline is None <==> target is None,
            timeline matches Some(t) ==> target matches Some(p) && p == seek_target(
                t.start as int,
                t.end as int,
                position_ms as int,
            ),
    {
        match timeline {
            None => None,
            Some(t) => {
                let start: i128 = t.start as i128;
                let end: i128 = t.end as i128;
                let target_ticks: i128 = (position_ms as i128) * (TICKS_PER_MILLISECOND as i128);
                let mut new_position: i128 = start + target_ticks;

                let margin: i128 = SEEK_MARGIN_TICKS as i128;
                if end > start + margin * 2 {
                    if new_position > end - margin {
                        new_position = end - margin;
                    } else if new_position < start + margin {
                        new_position = start + margin;
                    }
                } else {
                    if new_position > end {
                        new_position = end;
                    }
                    if new_position < start {
                        new_position = start;
                    }
                }
                Some(new_position as i64)
            },
        }
    }

    /// Decides the tick position one rewind step lands on: ten seconds
    /// back, never before the track start. Absence of a session or timeline
    /// is a silent no-op.
    pub fn rewind(&self, timeline: Option<&Timeline>) -> (target: Option<i64>)
        ensures
            timeline is None <==> target is None,
            timeline matches Some(t) ==> target matches Some(p) && p == rewind_target(
                t.start as int,
                t.position as int,
            ),
    {
        match timeline {
            None => None,
            Some(t) => {
                let back: i128 = (t.position as i128) - (SKIP_STEP_TICKS as i128);
                if back < t.start as i128 {
                    Some(t.start)
                } else {
                    Some(back as i64)
                }
            },
        }
    }

    /// Decides the tick position one fast-forward step lands on: ten
    /// seconds ahead, never past the track end. Absence of a session or
    /// timeline is a silent no-op.
    pub fn fast_forward(&self, timeline: Option<&Timeline>) -> (target: Option<i64>)
        ensures
            timeline is None <==> target is None,
            timeline matches Some(t) ==> target matches Some(p) && p == fast_forward_target(
                t.end as int,
                t.position as int,
            ),
    {
        match timeline {
            None => None,
            Some(t) => {
                let ahead: i128 = (t.position as i128) + (SKIP_STEP_TICKS as i128);
                if ahead > t.end as i128 {
                    Some(t.end)
                } else {
                    Some(ahead as i64)
                }
            },
        }
    }
}

/// What the standard base64 alphabet, with padding, encodes a byte sequence
/// to. The encoding depends on the input bytes alone.
pub uninterp spec fn base64_standard(bytes: Seq<u8>) -> Seq<char>;

/// Relies on base64's `Engine::encode` with the
/// `engine::general_purpose::STANDARD` engine: the output is a function of
/// the input bytes alone, four characters for every three input bytes
/// rounded up (the engine pads), so the empty input encodes to the empty
/// string.
#[verifier::external_body]
fn base64_encode(bytes: &Vec<u8>) -> (encoded: String)
    requires
        bytes@.len() <= usize::MAX / 4,
    ensures
        encoded@ == base64_standard(bytes@),
        encoded@.len() == 4 * ((bytes@.len() + 2) / 3),
{
    base64::Engine::encode(&base64::engine::general_purpose::STANDARD, bytes.as_slice())
}

impl WindowsAdapter {
    /// Encodes the current session's thumbnail as an embeddable image URI.
    /// `None` stands for every benign absence — no session, no thumbnail
    /// reference, or a thumbnail stream of zero length — and is never an
    /// error. The byte-count bound keeps the encoded form addressable.
    pub fn get_artwork(&self, thumbnail: Option<Vec<u8>>) -> (artwork: Option<String>)
        requires
            thumbnail matches Some(bytes) ==> bytes@.len() <= usize::MAX / 4,
        ensures
            match thumbnail {
                None => artwork is None,
                Some(bytes) => if bytes@.len() == 0 {
                    artwork is None
                } else {
                    artwork matches Some(uri) && uri@ == "data:image/png;base64,"@
                        + base64_standard(bytes@)
                },
            },
    {
        match thumbnail {
            None => None,
            Some(bytes) => {
                if bytes.len() == 0 {
                    None
                } else {
                    let encoded = base64_encode(&bytes);
                    let uri = String::from_str("data:image/png;base64,").concat(encoded.as_str());
                    Some(uri)
                }
            },
        }
    }
}

} // verus!
