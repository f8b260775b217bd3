use media_widget::adapter::{MediaAdapter, SessionObservation, TransportCommand, WindowsAdapter};
use media_widget::media::{playback_state_from_status, PlaybackState};
use media_widget::timeline::{duration_ms, position_ms, Timeline};

fn observation(
    status: i32,
    album: Option<&str>,
    start: i64,
    end: i64,
    position: i64,
) -> SessionObservation {
    SessionObservation {
        source_app: String::from("player.example"),
        status,
        title: String::from("Song"),
        artist: String::from("Band"),
        album: album.map(String::from),
        timeline: Timeline { start, end, position },
    }
}

#[test]
fn no_session_yields_none_not_error() {
    let adapter = WindowsAdapter;
    assert_eq!(adapter.get_current_session(None), None);
}

#[test]
fn snapshot_of_active_session() {
    let adapter = WindowsAdapter;
    let snapshot = adapter
        .get_current_session(Some(observation(4, None, 0, 300_000_000, 100_000_000)))
        .expect("session present");
    assert_eq!(snapshot.source_app, "player.example");
    assert_eq!(snapshot.state, PlaybackState::Playing);
    let metadata = snapshot.metadata.expect("metadata present");
    assert_eq!(metadata.title, "Song");
    assert_eq!(metadata.artist, "Band");
    assert_eq!(metadata.album, None);
    assert_eq!(metadata.artwork_url, None);
    assert_eq!(metadata.duration_ms, Some(30_000));
    assert_eq!(metadata.position_ms, Some(10_000));
}

#[test]
fn snapshot_keeps_album_when_reported() {
    let adapter = WindowsAdapter;
    let snapshot = adapter
        .get_current_session(Some(observation(5, Some("Record"), 0, 300_000_000, 0)))
        .expect("session present");
    assert_eq!(snapshot.state, PlaybackState::Paused);
    let metadata = snapshot.metadata.expect("metadata present");
    assert_eq!(metadata.album.as_deref(), Some("Record"));
}

#[test]
fn status_codes_map_with_stopped_default() {
    assert_eq!(playback_state_from_status(4), PlaybackState::Playing);
    assert_eq!(playback_state_from_status(5), PlaybackState::Paused);
    assert_eq!(playback_state_from_status(0), PlaybackState::Stopped);
    assert_eq!(playback_state_from_status(3), PlaybackState::Stopped);
    assert_eq!(playback_state_from_status(99), PlaybackState::Stopped);
    assert_eq!(playback_state_from_status(-1), PlaybackState::Stopped);
}

#[test]
fn duration_of_empty_and_malformed_span_is_zero() {
    assert_eq!(duration_ms(0, 0), 0);
    assert_eq!(duration_ms(100, 50), 0);
    assert_eq!(duration_ms(0, 300_000_000), 30_000);
    assert_eq!(duration_ms(0, 19_999), 1);
}

#[test]
fn position_is_relative_to_start() {
    assert_eq!(position_ms(0, 100_000_000), 10_000);
    assert_eq!(position_ms(50_000_000, 100_000_000), 5_000);
    // A position before start wraps through the unsigned 64-bit range,
    // as the raw conversion does.
    assert_eq!(position_ms(200_000, 0), 1_844_674_407_370_935);
}

#[test]
fn seek_inside_margins_is_untouched() {
    let adapter = WindowsAdapter;
    let timeline = Timeline { start: 0, end: 300_000_000, position: 0 };
    assert_eq!(adapter.seek_to(Some(&timeline), 25_000), Some(250_000_000));
}

#[test]
fn seek_keeps_sub_second_precision() {
    let adapter = WindowsAdapter;
    let timeline = Timeline { start: 0, end: 300_000_000, position: 0 };
    assert_eq!(adapter.seek_to(Some(&timeline), 25_500), Some(255_000_000));
    assert_eq!(adapter.seek_to(Some(&timeline), 1_750), Some(17_500_000));
}

#[test]
fn seek_clamps_to_margins_on_long_tracks() {
    let adapter = WindowsAdapter;
    let timeline = Timeline { start: 0, end: 300_000_000, position: 0 };
    assert_eq!(adapter.seek_to(Some(&timeline), 40_000), Some(290_000_000));
    assert_eq!(adapter.seek_to(Some(&timeline), 0), Some(10_000_000));
}

#[test]
fn seek_clamps_to_span_on_short_tracks() {
    let adapter = WindowsAdapter;
    let timeline = Timeline { start: 0, end: 15_000_000, position: 0 };
    assert_eq!(adapter.seek_to(Some(&timeline), 5_000), Some(15_000_000));
    assert_eq!(adapter.seek_to(Some(&timeline), 1_000), Some(10_000_000));
}

#[test]
fn seek_on_malformed_span_lands_on_start() {
    let adapter = WindowsAdapter;
    let timeline = Timeline { start: 100, end: 50, position: 0 };
    assert_eq!(adapter.seek_to(Some(&timeline), 5_000), Some(100));
}

#[test]
fn seek_without_timeline_is_a_noop() {
    let adapter = WindowsAdapter;
    assert_eq!(adapter.seek_to(None, 25_000), None);
}

#[test]
fn rewind_steps_ten_seconds_but_not_before_start() {
    let adapter = WindowsAdapter;
    let near_start = Timeline { start: 0, end: 300_000_000, position: 50_000_000 };
    assert_eq!(adapter.rewind(Some(&near_start)), Some(0));
    let mid = Timeline { start: 0, end: 300_000_000, position: 250_000_000 };
    assert_eq!(adapter.rewind(Some(&mid)), Some(150_000_000));
    assert_eq!(adapter.rewind(None), None);
}

#[test]
fn fast_forward_steps_ten_seconds_but_not_past_end() {
    let adapter = WindowsAdapter;
    let near_end = Timeline { start: 0, end: 300_000_000, position: 250_000_000 };
    assert_eq!(adapter.fast_forward(Some(&near_end)), Some(300_000_000));
    let mid = Timeline { start: 0, end: 300_000_000, position: 100_000_000 };
    assert_eq!(adapter.fast_forward(Some(&mid)), Some(200_000_000));
    assert_eq!(adapter.fast_forward(None), None);
}

#[test]
fn transport_commands_issue_only_with_a_session() {
    let adapter = WindowsAdapter;
    assert_eq!(adapter.play(true), Some(TransportCommand::Play));
    assert_eq!(adapter.pause(true), Some(TransportCommand::Pause));
    assert_eq!(adapter.previous(true), Some(TransportCommand::SkipPrevious));
    assert_eq!(adapter.next(true), Some(TransportCommand::SkipNext));
    assert_eq!(adapter.play(false), None);
    assert_eq!(adapter.pause(false), None);
    assert_eq!(adapter.previous(false), None);
    assert_eq!(adapter.next(false), None);
}

#[test]
fn empty_artwork_stream_yields_none_not_error() {
    let adapter = WindowsAdapter;
    assert_eq!(adapter.get_artwork(Some(Vec::new())), None);
    assert_eq!(adapter.get_artwork(None), None);
}

#[test]
fn artwork_bytes_become_a_data_uri() {
    let adapter = WindowsAdapter;
    assert_eq!(
        adapter.get_artwork(Some(vec![1, 2, 3])),
        Some(String::from("data:image/png;base64,AQID"))
    );
    assert_eq!(
        adapter.get_artwork(Some(vec![255])),
        Some(String::from("data:image/png;base64,/w=="))
    );
}
