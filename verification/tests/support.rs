use cspot::capi::{cspot_auth_type_t, cspot_playback_state_t};
use cspot::clock::MonotonicClock;
use cspot::device_id::device_id_from_name;
use cspot::status::{non_empty, PlaybackState};

#[test]
fn device_id_matches_known_sha1_vectors() {
    // SHA-1("abc") and SHA-1("") are standard test vectors.
    assert_eq!(device_id_from_name("abc"), "a9993e364706816aba3e25717850c26c9cd0d89d");
    assert_eq!(device_id_from_name(""), "da39a3ee5e6b4b0d3255bfef95601890afd80709");
}

#[test]
fn device_id_is_forty_hex_digits() {
    let id = device_id_from_name("living room speaker");
    assert_eq!(id.len(), 40);
    assert!(id.chars().all(|c| c.is_ascii_hexdigit() && !c.is_ascii_uppercase()));
}

#[test]
fn non_empty_treats_blank_strings_as_absent() {
    assert_eq!(non_empty(String::new()), None);
    assert_eq!(non_empty("   \t\n".to_string()), None);
    assert_eq!(non_empty(" x ".to_string()).as_deref(), Some(" x "));
    assert_eq!(non_empty("title".to_string()).as_deref(), Some("title"));
}

#[test]
fn playback_states_map_to_their_codes() {
    assert_eq!(
        cspot_playback_state_t::from(PlaybackState::Stopped),
        cspot_playback_state_t::CSPOT_PLAYBACK_STATE_STOPPED
    );
    assert_eq!(
        cspot_playback_state_t::from(PlaybackState::Loading),
        cspot_playback_state_t::CSPOT_PLAYBACK_STATE_LOADING
    );
    assert_eq!(
        cspot_playback_state_t::from(PlaybackState::Playing),
        cspot_playback_state_t::CSPOT_PLAYBACK_STATE_PLAYING
    );
    assert_eq!(
        cspot_playback_state_t::from(PlaybackState::Paused),
        cspot_playback_state_t::CSPOT_PLAYBACK_STATE_PAUSED
    );
}

#[test]
fn auth_types_have_names() {
    assert_eq!(cspot_auth_type_t::CSPOT_AUTH_TYPE_USER_PASS.name(), "USER_PASS");
    assert_eq!(
        cspot_auth_type_t::CSPOT_AUTH_TYPE_STORED_SPOTIFY_CREDENTIALS.name(),
        "STORED_SPOTIFY_CREDENTIALS"
    );
    assert_eq!(
        cspot_auth_type_t::CSPOT_AUTH_TYPE_STORED_FACEBOOK_CREDENTIALS.name(),
        "STORED_FACEBOOK_CREDENTIALS"
    );
    assert_eq!(cspot_auth_type_t::CSPOT_AUTH_TYPE_SPOTIFY_TOKEN.name(), "SPOTIFY_TOKEN");
    assert_eq!(cspot_auth_type_t::CSPOT_AUTH_TYPE_FACEBOOK_TOKEN.name(), "FACEBOOK_TOKEN");
    assert_eq!(cspot_auth_type_t::CSPOT_AUTH_TYPE_INVALID.name(), "INVALID");
}

#[test]
fn monotonic_clock_readings_do_not_go_backwards() {
    let clock = MonotonicClock::new();
    let first = clock.now_ms();
    let second = clock.now_ms();
    assert!(first <= second);
}
