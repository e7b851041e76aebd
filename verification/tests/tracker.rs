use cspot::event::{apply_player_event, AudioItemInfo, PlayerEvent, TrackRef, UniqueFields};
use cspot::status::{PlaybackState, SpircRuntimeStatus};
use cspot::store::StatusStore;

fn track(uri: &str) -> TrackRef {
    TrackRef { uri: uri.to_string(), item_id: Some("4cOdK2wGLETKBW3PvgPWqT".to_string()) }
}

fn audio_item(uri: &str, duration_ms: u32) -> AudioItemInfo {
    AudioItemInfo {
        track_id: track(uri),
        uri: uri.to_string(),
        name: "Title".to_string(),
        covers: vec!["https://example.invalid/cover".to_string()],
        duration_ms,
        unique_fields: UniqueFields::Track {
            artists: vec!["Alice".to_string(), "Bob".to_string()],
            album: "Album".to_string(),
        },
    }
}

#[test]
fn default_status_is_stopped_and_empty() {
    let status = SpircRuntimeStatus::default();
    assert!(!status.connected);
    assert_eq!(status.playback_state, PlaybackState::Stopped);
    assert_eq!(status.position_anchor_ms, 0);
    assert_eq!(status.position_anchor_at, None);
    assert_eq!(status.volume, 0);
    assert_eq!(status.track.uri, None);
    assert_eq!(status.track.duration_ms, 0);
}

#[test]
fn connection_events_set_the_flag() {
    let mut status = SpircRuntimeStatus::default();
    apply_player_event(&mut status, PlayerEvent::SessionConnected, 0);
    assert!(status.connected);
    apply_player_event(&mut status, PlayerEvent::SessionDisconnected, 0);
    assert!(!status.connected);
}

#[test]
fn loading_then_playing_then_pausing_scenario() {
    let mut status = SpircRuntimeStatus::default();

    apply_player_event(
        &mut status,
        PlayerEvent::Loading { track_id: track("spotify:track:a"), position_ms: 0 },
        1_000,
    );
    assert_eq!(status.playback_state, PlaybackState::Loading);
    assert_eq!(status.position_anchor_ms, 0);
    assert_eq!(status.position_anchor_at, None);
    assert_eq!(status.current_position_ms(1_000), 0);

    apply_player_event(
        &mut status,
        PlayerEvent::Playing { track_id: track("spotify:track:a"), position_ms: 0 },
        2_000,
    );
    assert_eq!(status.playback_state, PlaybackState::Playing);
    assert_eq!(status.position_anchor_at, Some(2_000));

    // Clock advanced by 5000 ms: the position extrapolates.
    assert_eq!(status.current_position_ms(7_000), 5_000);

    apply_player_event(
        &mut status,
        PlayerEvent::Paused { track_id: track("spotify:track:a"), position_ms: 5_000 },
        7_000,
    );
    assert_eq!(status.playback_state, PlaybackState::Paused);
    assert_eq!(status.position_anchor_at, None);
    assert_eq!(status.current_position_ms(7_000), 5_000);
    // Further clock advances change nothing while paused.
    assert_eq!(status.current_position_ms(60_000), 5_000);
}

#[test]
fn seek_is_clamped_to_a_known_duration() {
    let mut status = SpircRuntimeStatus::default();
    apply_player_event(
        &mut status,
        PlayerEvent::Playing { track_id: track("spotify:track:a"), position_ms: 0 },
        0,
    );
    apply_player_event(
        &mut status,
        PlayerEvent::TrackChanged { audio_item: audio_item("spotify:track:a", 180_000) },
        0,
    );
    assert_eq!(status.track.duration_ms, 180_000);

    apply_player_event(
        &mut status,
        PlayerEvent::Seeked { track_id: track("spotify:track:a"), position_ms: 200_000 },
        0,
    );
    assert_eq!(status.current_position_ms(0), 180_000);
    assert_eq!(status.position_anchor_ms, 180_000);
}

#[test]
fn seeked_keeps_the_anchor_timestamp_only_while_playing() {
    let mut status = SpircRuntimeStatus::default();
    apply_player_event(
        &mut status,
        PlayerEvent::Playing { track_id: track("spotify:track:a"), position_ms: 0 },
        100,
    );
    apply_player_event(
        &mut status,
        PlayerEvent::Seeked { track_id: track("spotify:track:a"), position_ms: 40 },
        200,
    );
    assert_eq!(status.position_anchor_at, Some(200));

    apply_player_event(
        &mut status,
        PlayerEvent::Paused { track_id: track("spotify:track:a"), position_ms: 40 },
        300,
    );
    apply_player_event(
        &mut status,
        PlayerEvent::Seeked { track_id: track("spotify:track:a"), position_ms: 90 },
        400,
    );
    assert_eq!(status.position_anchor_at, None);
    assert_eq!(status.position_anchor_ms, 90);
}

#[test]
fn track_metadata_is_folded_in() {
    let mut status = SpircRuntimeStatus::default();
    apply_player_event(
        &mut status,
        PlayerEvent::TrackChanged { audio_item: audio_item("spotify:track:a", 180_000) },
        0,
    );
    assert_eq!(status.track.title.as_deref(), Some("Title"));
    assert_eq!(status.track.artist.as_deref(), Some("Alice, Bob"));
    assert_eq!(status.track.album.as_deref(), Some("Album"));
    assert_eq!(status.track.artwork_url.as_deref(), Some("https://example.invalid/cover"));
    assert_eq!(status.track.uri.as_deref(), Some("spotify:track:a"));
    assert_eq!(status.track.duration_ms, 180_000);
}

#[test]
fn artist_names_are_deduplicated_and_empty_names_skipped() {
    let mut status = SpircRuntimeStatus::default();
    let item = AudioItemInfo {
        track_id: track("spotify:track:a"),
        uri: "spotify:track:a".to_string(),
        name: "Title".to_string(),
        covers: vec![],
        duration_ms: 1_000,
        unique_fields: UniqueFields::Track {
            artists: vec![
                "Alice".to_string(),
                "".to_string(),
                "Alice".to_string(),
                "Bob".to_string(),
            ],
            album: "  ".to_string(),
        },
    };
    apply_player_event(&mut status, PlayerEvent::TrackChanged { audio_item: item }, 0);
    assert_eq!(status.track.artist.as_deref(), Some("Alice, Bob"));
    // A blank album counts as absent, and so does a missing cover list.
    assert_eq!(status.track.album, None);
    assert_eq!(status.track.artwork_url, None);
}

#[test]
fn episode_metadata_uses_the_show_name() {
    let mut status = SpircRuntimeStatus::default();
    let item = AudioItemInfo {
        track_id: TrackRef { uri: "spotify:episode:a".to_string(), item_id: None },
        uri: "spotify:episode:a".to_string(),
        name: "Episode One".to_string(),
        covers: vec![],
        duration_ms: 0,
        unique_fields: UniqueFields::Episode { show_name: "The Show".to_string() },
    };
    apply_player_event(&mut status, PlayerEvent::TrackChanged { audio_item: item }, 0);
    assert_eq!(status.track.artist, None);
    assert_eq!(status.track.album.as_deref(), Some("The Show"));
}

#[test]
fn identity_change_resets_descriptive_metadata() {
    let mut status = SpircRuntimeStatus::default();
    apply_player_event(
        &mut status,
        PlayerEvent::TrackChanged { audio_item: audio_item("spotify:track:a", 180_000) },
        0,
    );
    apply_player_event(
        &mut status,
        PlayerEvent::Playing { track_id: track("spotify:track:b"), position_ms: 10 },
        0,
    );
    assert_eq!(status.track.artist, None);
    assert_eq!(status.track.album, None);
    assert_eq!(status.track.artwork_url, None);
    assert_eq!(status.track.title, None);
    assert_eq!(status.track.duration_ms, 0);
    assert_eq!(status.track.uri.as_deref(), Some("spotify:track:b"));
}

#[test]
fn same_identity_keeps_descriptive_metadata() {
    let mut status = SpircRuntimeStatus::default();
    apply_player_event(
        &mut status,
        PlayerEvent::TrackChanged { audio_item: audio_item("spotify:track:a", 180_000) },
        0,
    );
    apply_player_event(
        &mut status,
        PlayerEvent::Playing { track_id: track("spotify:track:a"), position_ms: 10 },
        0,
    );
    assert_eq!(status.track.title.as_deref(), Some("Title"));
    assert_eq!(status.track.duration_ms, 180_000);
}

#[test]
fn volume_event_is_idempotent() {
    let mut status = SpircRuntimeStatus::default();
    apply_player_event(&mut status, PlayerEvent::VolumeChanged { volume: 21_000 }, 0);
    let volume_after_once = status.volume;
    apply_player_event(&mut status, PlayerEvent::VolumeChanged { volume: 21_000 }, 5);
    assert_eq!(status.volume, volume_after_once);
    assert_eq!(status.volume, 21_000);
}

#[test]
fn shuffle_and_repeat_flags_are_overwritten() {
    let mut status = SpircRuntimeStatus::default();
    apply_player_event(&mut status, PlayerEvent::ShuffleChanged { shuffle: true }, 0);
    apply_player_event(&mut status, PlayerEvent::RepeatChanged { context: true, track: false }, 0);
    assert!(status.shuffle_enabled);
    assert!(status.repeat_context_enabled);
    assert!(!status.repeat_track_enabled);
}

#[test]
fn stopped_resets_the_position() {
    let mut status = SpircRuntimeStatus::default();
    apply_player_event(
        &mut status,
        PlayerEvent::Playing { track_id: track("spotify:track:a"), position_ms: 50_000 },
        0,
    );
    apply_player_event(
        &mut status,
        PlayerEvent::Stopped { track_id: track("spotify:track:a") },
        1_000,
    );
    assert_eq!(status.playback_state, PlaybackState::Stopped);
    assert_eq!(status.position_anchor_ms, 0);
    assert_eq!(status.position_anchor_at, None);
}

#[test]
fn other_events_change_nothing() {
    let mut status = SpircRuntimeStatus::default();
    apply_player_event(&mut status, PlayerEvent::VolumeChanged { volume: 7 }, 0);
    let volume = status.volume;
    let state = status.playback_state;
    apply_player_event(&mut status, PlayerEvent::Other, 99);
    assert_eq!(status.volume, volume);
    assert_eq!(status.playback_state, state);
}

#[test]
fn extrapolation_saturates_without_a_duration() {
    let mut status = SpircRuntimeStatus::default();
    apply_player_event(
        &mut status,
        PlayerEvent::Playing { track_id: track("spotify:track:a"), position_ms: 10 },
        0,
    );
    // With no known duration, a huge elapsed time saturates the position.
    assert_eq!(status.current_position_ms(u64::MAX), u32::MAX);
}

#[test]
fn position_never_exceeds_a_known_duration() {
    let mut status = SpircRuntimeStatus::default();
    apply_player_event(
        &mut status,
        PlayerEvent::TrackChanged { audio_item: audio_item("spotify:track:a", 30_000) },
        0,
    );
    apply_player_event(
        &mut status,
        PlayerEvent::Playing { track_id: track("spotify:track:a"), position_ms: 29_000 },
        0,
    );
    assert_eq!(status.current_position_ms(500), 29_500);
    assert_eq!(status.current_position_ms(10_000), 30_000);
    assert_eq!(status.current_position_ms(u64::MAX), 30_000);
}

#[test]
fn snapshot_copies_every_field() {
    let mut status = SpircRuntimeStatus::default();
    apply_player_event(&mut status, PlayerEvent::SessionConnected, 0);
    apply_player_event(
        &mut status,
        PlayerEvent::TrackChanged { audio_item: audio_item("spotify:track:a", 180_000) },
        0,
    );
    apply_player_event(
        &mut status,
        PlayerEvent::Playing { track_id: track("spotify:track:a"), position_ms: 1_000 },
        10_000,
    );
    apply_player_event(&mut status, PlayerEvent::VolumeChanged { volume: 300 }, 10_000);

    let snapshot = status.snapshot(12_500);
    assert!(snapshot.connected);
    assert_eq!(snapshot.playback_state, PlaybackState::Playing);
    assert_eq!(snapshot.position_ms, 3_500);
    assert_eq!(snapshot.duration_ms, 180_000);
    assert_eq!(snapshot.volume, 300);
    assert_eq!(snapshot.track.title.as_deref(), Some("Title"));
    assert_eq!(snapshot.track.uri.as_deref(), Some("spotify:track:a"));
}

#[test]
fn store_applies_events_in_order_and_snapshots_consistently() {
    let store = StatusStore::new();
    for i in 0..1_000u32 {
        let event = match i % 5 {
            0 => PlayerEvent::Playing {
                track_id: track("spotify:track:a"),
                position_ms: i * 10,
            },
            1 => PlayerEvent::VolumeChanged { volume: (i % 600) as u16 },
            2 => PlayerEvent::Seeked { track_id: track("spotify:track:a"), position_ms: i },
            3 => PlayerEvent::TrackChanged {
                audio_item: audio_item("spotify:track:a", 10_000 + i),
            },
            _ => PlayerEvent::Paused { track_id: track("spotify:track:a"), position_ms: i },
        };
        store.apply(event, i as u64);
        let snapshot = store.snapshot(i as u64);
        // Every snapshot is internally consistent: the clamp invariant
        // holds whatever prefix of events it reflects.
        if snapshot.duration_ms > 0 {
            assert!(snapshot.position_ms <= snapshot.duration_ms);
        }
    }
    let end = store.snapshot(2_000);
    assert_eq!(end.playback_state, PlaybackState::Paused);
}
