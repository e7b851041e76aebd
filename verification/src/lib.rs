//! Playback status tracking for a Spotify Connect device.
//!
//! The heart of the crate is a verified event folder: an ordered stream of
//! player events is folded, one event at a time, into a single
//! [`status::SpircRuntimeStatus`], and readers take consistent snapshots of
//! it through a verified reader/writer lock. Around that core the crate
//! holds the supporting logic of the device library: log filter parsing and
//! matching, device-id derivation, and track-URI normalization.

pub mod capi;
pub mod clock;
pub mod device_id;
pub mod event;
pub mod logging;
pub mod status;
pub mod store;
pub mod text;
pub mod uri;
