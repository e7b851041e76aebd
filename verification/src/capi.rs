//! Plain models of the value types that cross the C interface: status
//! codes, configuration values and credentials, kept as ordinary data so
//! the logic about them can be verified. The pointer-level marshaling
//! lives outside the library.

use vstd::prelude::*;

use crate::status::PlaybackState;

verus! {

/// Playback state codes of the C interface.
#[allow(non_camel_case_types)]
#[derive(Clone, Copy, Debug, Eq, PartialEq, Structural)]
pub enum cspot_playback_state_t {
    CSPOT_PLAYBACK_STATE_STOPPED,
    CSPOT_PLAYBACK_STATE_LOADING,
    CSPOT_PLAYBACK_STATE_PLAYING,
    CSPOT_PLAYBACK_STATE_PAUSED,
    CSPOT_PLAYBACK_STATE_INVALID,
}

/// The code a playback state is reported as; `INVALID` stands only for a
/// missing status and corresponds to no state.
pub open spec fn code_of_playback_state(s: PlaybackState) -> cspot_playback_state_t {
    match s {
        PlaybackState::Stopped => cspot_playback_state_t::CSPOT_PLAYBACK_STATE_STOPPED,
        PlaybackState::Loading => cspot_playback_state_t::CSPOT_PLAYBACK_STATE_LOADING,
        PlaybackState::Playing => cspot_playback_state_t::CSPOT_PLAYBACK_STATE_PLAYING,
        PlaybackState::Paused => cspot_playback_state_t::CSPOT_PLAYBACK_STATE_PAUSED,
    }
}

impl From<PlaybackState> for cspot_playback_state_t {
    fn from(value: PlaybackState) -> Self {
        match value {
            PlaybackState::Stopped => Self::CSPOT_PLAYBACK_STATE_STOPPED,
            PlaybackState::Loading => Self::CSPOT_PLAYBACK_STATE_LOADING,
            PlaybackState::Playing => Self::CSPOT_PLAYBACK_STATE_PLAYING,
            PlaybackState::Paused => Self::CSPOT_PLAYBACK_STATE_PAUSED,
        }
    }
}

impl vstd::std_specs::convert::FromSpecImpl<PlaybackState> for cspot_playback_state_t {
    open spec fn obeys_from_spec() -> bool {
        true
    }

    open spec fn from_spec(v: PlaybackState) -> Self {
        code_of_playback_state(v)
    }
}

/// Device type codes of the C interface.
#[allow(non_camel_case_types)]
#[derive(Clone, Copy, Debug, Eq, PartialEq, Structural)]
pub enum cspot_device_type_t {
    CSPOT_DEVICE_TYPE_UNKNOWN,
    CSPOT_DEVICE_TYPE_COMPUTER,
    CSPOT_DEVICE_TYPE_TABLET,
    CSPOT_DEVICE_TYPE_SMARTPHONE,
    CSPOT_DEVICE_TYPE_SPEAKER,
    CSPOT_DEVICE_TYPE_TV,
    CSPOT_DEVICE_TYPE_AVR,
    CSPOT_DEVICE_TYPE_STB,
    CSPOT_DEVICE_TYPE_AUDIO_DONGLE,
    CSPOT_DEVICE_TYPE_GAME_CONSOLE,
    CSPOT_DEVICE_TYPE_CAST_AUDIO,
    CSPOT_DEVICE_TYPE_CAST_VIDEO,
    CSPOT_DEVICE_TYPE_AUTOMOBILE,
    CSPOT_DEVICE_TYPE_SMARTWATCH,
    CSPOT_DEVICE_TYPE_CHROMEBOOK,
    CSPOT_DEVICE_TYPE_UNKNOWN_SPOTIFY,
    CSPOT_DEVICE_TYPE_CAR_THING,
    CSPOT_DEVICE_TYPE_OBSERVER,
}

/// Authentication type codes of the C interface.
#[allow(non_camel_case_types)]
#[derive(Clone, Copy, Debug, Eq, PartialEq, Structural)]
pub enum cspot_auth_type_t {
    CSPOT_AUTH_TYPE_USER_PASS,
    CSPOT_AUTH_TYPE_STORED_SPOTIFY_CREDENTIALS,
    CSPOT_AUTH_TYPE_STORED_FACEBOOK_CREDENTIALS,
    CSPOT_AUTH_TYPE_SPOTIFY_TOKEN,
    CSPOT_AUTH_TYPE_FACEBOOK_TOKEN,
    CSPOT_AUTH_TYPE_INVALID,
}

impl cspot_auth_type_t {
    /// The human-readable name of the authentication type.
    pub fn name(&self) -> (r: &'static str)
        ensures
            r@ == match *self {
                cspot_auth_type_t::CSPOT_AUTH_TYPE_USER_PASS => "USER_PASS"@,
                cspot_auth_type_t::CSPOT_AUTH_TYPE_STORED_SPOTIFY_CREDENTIALS =>
                    "STORED_SPOTIFY_CREDENTIALS"@,
                cspot_auth_type_t::CSPOT_AUTH_TYPE_STORED_FACEBOOK_CREDENTIALS =>
                    "STORED_FACEBOOK_CREDENTIALS"@,
                cspot_auth_type_t::CSPOT_AUTH_TYPE_SPOTIFY_TOKEN => "SPOTIFY_TOKEN"@,
                cspot_auth_type_t::CSPOT_AUTH_TYPE_FACEBOOK_TOKEN => "FACEBOOK_TOKEN"@,
                cspot_auth_type_t::CSPOT_AUTH_TYPE_INVALID => "INVALID"@,
            },
    {
        match self {
            cspot_auth_type_t::CSPOT_AUTH_TYPE_USER_PASS => "USER_PASS",
            cspot_auth_type_t::CSPOT_AUTH_TYPE_STORED_SPOTIFY_CREDENTIALS => {
                "STORED_SPOTIFY_CREDENTIALS"
            },
            cspot_auth_type_t::CSPOT_AUTH_TYPE_STORED_FACEBOOK_CREDENTIALS => {
                "STORED_FACEBOOK_CREDENTIALS"
            },
            cspot_auth_type_t::CSPOT_AUTH_TYPE_SPOTIFY_TOKEN => "SPOTIFY_TOKEN",
            cspot_auth_type_t::CSPOT_AUTH_TYPE_FACEBOOK_TOKEN => "FACEBOOK_TOKEN",
            cspot_auth_type_t::CSPOT_AUTH_TYPE_INVALID => "INVALID",
        }
    }
}

/// Outcomes of polling discovery for the next credential event.
#[allow(non_camel_case_types)]
#[derive(Clone, Copy, Debug, Eq, PartialEq, Structural)]
pub enum cspot_discovery_next_result_t {
    CSPOT_DISCOVERY_NEXT_CREDENTIALS,
    CSPOT_DISCOVERY_NEXT_END,
    CSPOT_DISCOVERY_NEXT_ERROR,
}

/// An error carried across the interface: its message.
#[allow(non_camel_case_types)]
pub struct cspot_error_t {
    pub message: String,
}

impl cspot_error_t {
    /// An error with the given message.
    pub fn new(message: String) -> (r: cspot_error_t)
        ensures
            r.message@ == message@,
    {
        cspot_error_t { message }
    }

    /// The message the error carries.
    pub fn message(&self) -> (r: &str)
        ensures
            r@ == self.message@,
    {
        self.message.as_str()
    }
}

/// Credentials a discovery run hands out: the account name where known,
/// the authentication type, and the opaque authentication data.
#[allow(non_camel_case_types)]
pub struct cspot_credentials_t {
    pub username: Option<String>,
    pub auth_type: cspot_auth_type_t,
    pub auth_data: Vec<u8>,
}

/// The values a connect configuration carries across the interface.
#[allow(non_camel_case_types)]
pub struct cspot_connect_config_t {
    pub name: String,
    pub device_type: cspot_device_type_t,
}

/// The values a load request carries across the interface.
#[allow(non_camel_case_types)]
pub struct cspot_load_request_options_t {
    pub start_playing: bool,
    pub seek_to_ms: u32,
}

} // verus!
