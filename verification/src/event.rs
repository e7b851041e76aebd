//! Player events and the fold that applies them to the runtime status.
//!
//! Events carry plain values only: a track reference is its canonical URI
//! plus, where the item kind has one, a base62 item id. The session layer
//! converts transport-level events into this form before folding.

use vstd::prelude::*;

use crate::status::{PlaybackState, SpircRuntimeStatus, StatusView, TrackMetadataView};

verus! {

/// Mathematical value of a [`TrackRef`].
pub ghost struct TrackRefView {
    pub uri: Seq<char>,
    pub item_id: Option<Seq<char>>,
}

/// Reference to a track-like item: its canonical URI, and its base62 item
/// id for the item kinds that have one (tracks and episodes).
pub struct TrackRef {
    pub uri: String,
    pub item_id: Option<String>,
}

impl View for TrackRef {
    type V = TrackRefView;

    open spec fn view(&self) -> TrackRefView {
        TrackRefView { uri: self.uri@, item_id: self.item_id.deep_view() }
    }
}

/// Mathematical value of a [`UniqueFields`].
#[allow(inconsistent_fields)]
pub ghost enum UniqueFieldsView {
    Track { artists: Seq<Seq<char>>, album: Seq<char> },
    Local { artists: Option<Seq<char>>, album: Option<Seq<char>> },
    Episode { show_name: Seq<char> },
}

/// The kind-specific part of an audio item's metadata.
#[allow(inconsistent_fields)]
pub enum UniqueFields {
    /// A catalogue track: individual artist names and an album title.
    Track { artists: Vec<String>, album: String },
    /// A local file: artist and album come as free-form strings, if at all.
    Local { artists: Option<String>, album: Option<String> },
    /// A podcast episode: only the show name.
    Episode { show_name: String },
}

impl View for UniqueFields {
    type V = UniqueFieldsView;

    open spec fn view(&self) -> UniqueFieldsView {
        match self {
            UniqueFields::Track { artists, album } => UniqueFieldsView::Track {
                artists: artists.deep_view(),
                album: album@,
            },
            UniqueFields::Local { artists, album } => UniqueFieldsView::Local {
                artists: artists.deep_view(),
                album: album.deep_view(),
            },
            UniqueFields::Episode { show_name } => UniqueFieldsView::Episode {
                show_name: show_name@,
            },
        }
    }
}

/// Mathematical value of an [`AudioItemInfo`].
pub ghost struct AudioItemView {
    pub track_id: TrackRefView,
    pub uri: Seq<char>,
    pub name: Seq<char>,
    pub covers: Seq<Seq<char>>,
    pub duration_ms: u32,
    pub unique_fields: UniqueFieldsView,
}

/// Descriptive metadata for an audio item, as delivered by a track-changed
/// event: identity, title, cover URLs, duration and kind-specific fields.
pub struct AudioItemInfo {
    pub track_id: TrackRef,
    pub uri: String,
    pub name: String,
    pub covers: Vec<String>,
    pub duration_ms: u32,
    pub unique_fields: UniqueFields,
}

impl View for AudioItemInfo {
    type V = AudioItemView;

    open spec fn view(&self) -> AudioItemView {
        AudioItemView {
            track_id: self.track_id@,
            uri: self.uri@,
            name: self.name@,
            covers: self.covers.deep_view(),
            duration_ms: self.duration_ms,
            unique_fields: self.unique_fields@,
        }
    }
}

/// One event from the player/transport stream, restricted to the plain
/// values the status tracker reads. Variants the tracker ignores are
/// collapsed into [`PlayerEvent::Other`].
pub enum PlayerEvent {
    /// The session came up.
    SessionConnected,
    /// The session went away.
    SessionDisconnected,
    /// Descriptive metadata arrived for the current item.
    TrackChanged { audio_item: AudioItemInfo },
    /// A track started loading at the given position.
    Loading { track_id: TrackRef, position_ms: u32 },
    /// Playback is running at the given position.
    Playing { track_id: TrackRef, position_ms: u32 },
    /// A periodic position report while playing.
    PositionChanged { track_id: TrackRef, position_ms: u32 },
    /// The player corrected an out-of-sync position.
    PositionCorrection { track_id: TrackRef, position_ms: u32 },
    /// Playback paused at the given position.
    Paused { track_id: TrackRef, position_ms: u32 },
    /// The position jumped without a state change.
    Seeked { track_id: TrackRef, position_ms: u32 },
    /// Playback stopped.
    Stopped { track_id: TrackRef },
    /// The mixer volume changed.
    VolumeChanged { volume: u16 },
    /// Shuffle mode was switched.
    ShuffleChanged { shuffle: bool },
    /// Repeat modes were switched.
    RepeatChanged { context: bool, track: bool },
    /// Any event the tracker does not react to.
    Other,
}

/// The status after folding one event at clock reading `now_ms`: the
/// total function the event pump applies for each event, in stream order.
///
/// A position is always clamped against the duration stored at that
/// moment. When a track-bearing event switches identity, the duration is
/// reset to unknown first, so a loading or seek position is not clamped
/// against the new track's duration until its metadata event arrives:
/// the reported position may transiently exceed the eventual duration.
pub open spec fn spec_apply(s: StatusView, event: PlayerEvent, now_ms: u64) -> StatusView {
    match event {
        PlayerEvent::SessionConnected => StatusView { connected: true, ..s },
        PlayerEvent::SessionDisconnected => StatusView { connected: false, ..s },
        PlayerEvent::TrackChanged { audio_item } => crate::status::apply_metadata(s, audio_item@),
        PlayerEvent::Loading { track_id, position_ms } => s.with_playback_state(
            PlaybackState::Loading,
        ).with_identity(track_id@).with_position(position_ms, false, now_ms),
        PlayerEvent::Playing { track_id, position_ms }
        | PlayerEvent::PositionChanged { track_id, position_ms }
        | PlayerEvent::PositionCorrection { track_id, position_ms } => s.with_playback_state(
            PlaybackState::Playing,
        ).with_identity(track_id@).with_position(position_ms, true, now_ms),
        PlayerEvent::Paused { track_id, position_ms } => s.with_playback_state(
            PlaybackState::Paused,
        ).with_identity(track_id@).with_position(position_ms, false, now_ms),
        PlayerEvent::Seeked { track_id, position_ms } => s.with_identity(track_id@).with_position(
            position_ms,
            s.playback_state == PlaybackState::Playing,
            now_ms,
        ),
        PlayerEvent::Stopped { track_id } => s.with_playback_state(
            PlaybackState::Stopped,
        ).with_identity(track_id@).with_position(0, false, now_ms),
        PlayerEvent::VolumeChanged { volume } => StatusView { volume, ..s },
        PlayerEvent::ShuffleChanged { shuffle } => StatusView { shuffle_enabled: shuffle, ..s },
        PlayerEvent::RepeatChanged { context, track } => StatusView {
            repeat_context_enabled: context,
            repeat_track_enabled: track,
            ..s
        },
        PlayerEvent::Other => s,
    }
}

/// Folds one event into the status at clock reading `now_ms`. Total over
/// every event variant; folding preserves the status invariants.
pub fn apply_player_event(status: &mut SpircRuntimeStatus, event: PlayerEvent, now_ms: u64)
    ensures
        final(status)@ == spec_apply(old(status)@, event, now_ms),
        old(status)@.wf() ==> final(status)@.wf(),
{
    proof {
        if old(status)@.wf() {
            lemma_apply_preserves_wf(old(status)@, event, now_ms);
        }
    }
    match event {
        PlayerEvent::SessionConnected => {
            status.connected = true;
        },
        PlayerEvent::SessionDisconnected => {
            status.connected = false;
        },
        PlayerEvent::TrackChanged { audio_item } => {
            status.set_track_metadata(&audio_item);
        },
        PlayerEvent::Loading { track_id, position_ms } => {
            status.set_playback_state(PlaybackState::Loading);
            status.set_track_identity(&track_id);
            status.set_position(position_ms, false, now_ms);
        },
        PlayerEvent::Playing { track_id, position_ms }
        | PlayerEvent::PositionChanged { track_id, position_ms }
        | PlayerEvent::PositionCorrection { track_id, position_ms } => {
            status.set_playback_state(PlaybackState::Playing);
            status.set_track_identity(&track_id);
            status.set_position(position_ms, true, now_ms);
        },
        PlayerEvent::Paused { track_id, position_ms } => {
            status.set_playback_state(PlaybackState::Paused);
            status.set_track_identity(&track_id);
            status.set_position(position_ms, false, now_ms);
        },
        PlayerEvent::Seeked { track_id, position_ms } => {
            status.set_track_identity(&track_id);
            let is_playing = status.playback_state == PlaybackState::Playing;
            status.set_position(position_ms, is_playing, now_ms);
        },
        PlayerEvent::Stopped { track_id } => {
            status.set_playback_state(PlaybackState::Stopped);
            status.set_track_identity(&track_id);
            status.set_position(0, false, now_ms);
        },
        PlayerEvent::VolumeChanged { volume } => {
            status.volume = volume;
        },
        PlayerEvent::ShuffleChanged { shuffle } => {
            status.shuffle_enabled = shuffle;
        },
        PlayerEvent::RepeatChanged { context, track } => {
            status.repeat_context_enabled = context;
            status.repeat_track_enabled = track;
        },
        PlayerEvent::Other => {},
    }
}

/// Folding any event preserves the status invariants: the anchor
/// timestamp stays tied to the `Playing` state, and the anchor never ends
/// up beyond a known duration.
pub proof fn lemma_apply_preserves_wf(s: StatusView, event: PlayerEvent, now_ms: u64)
    requires
        s.wf(),
    ensures
        spec_apply(s, event, now_ms).wf(),
{
}

/// The status after folding a whole ordered stream of events, each
/// paired with the clock reading at which it was applied: the meaning of
/// the event pump, which applies the stream one event at a time in
/// stream order.
pub open spec fn spec_apply_all(s: StatusView, events: Seq<(PlayerEvent, u64)>) -> StatusView
    decreases events.len(),
{
    if events.len() == 0 {
        s
    } else {
        spec_apply(spec_apply_all(s, events.drop_last()), events.last().0, events.last().1)
    }
}

/// Every status reachable from a well-formed one by folding any stream
/// of events is well formed: the anchor timestamp is present exactly
/// while playing, and the anchor never exceeds a known duration.
pub proof fn lemma_apply_all_preserves_wf(s: StatusView, events: Seq<(PlayerEvent, u64)>)
    requires
        s.wf(),
    ensures
        spec_apply_all(s, events).wf(),
    decreases events.len(),
{
    if events.len() > 0 {
        lemma_apply_all_preserves_wf(s, events.drop_last());
        lemma_apply_preserves_wf(
            spec_apply_all(s, events.drop_last()),
            events.last().0,
            events.last().1,
        );
    }
}

/// The track reference an event carries, for the variants that carry one.
pub open spec fn event_track_ref(event: PlayerEvent) -> Option<TrackRefView> {
    match event {
        PlayerEvent::Loading { track_id, .. } => Some(track_id@),
        PlayerEvent::Playing { track_id, .. } => Some(track_id@),
        PlayerEvent::PositionChanged { track_id, .. } => Some(track_id@),
        PlayerEvent::PositionCorrection { track_id, .. } => Some(track_id@),
        PlayerEvent::Paused { track_id, .. } => Some(track_id@),
        PlayerEvent::Seeked { track_id, .. } => Some(track_id@),
        PlayerEvent::Stopped { track_id, .. } => Some(track_id@),
        _ => None,
    }
}

/// A track-identity change resets the metadata: folding any track-bearing
/// event whose canonical URI differs from the stored one leaves no
/// descriptive field behind — only the new identity, with the duration
/// back to unknown.
pub proof fn lemma_identity_change_resets_metadata(
    s: StatusView,
    event: PlayerEvent,
    now_ms: u64,
)
    requires
        event_track_ref(event) is Some,
        s.track.uri != Some(event_track_ref(event)->0.uri),
    ensures
        spec_apply(s, event, now_ms).track == (TrackMetadataView {
            spotify_id: event_track_ref(event)->0.item_id,
            uri: Some(event_track_ref(event)->0.uri),
            artist: None,
            album: None,
            artwork_url: None,
            title: None,
            duration_ms: 0,
        }),
{
}

/// Applying the same volume event twice in a row yields the same status
/// as applying it once, whatever the clock reads at either application.
pub proof fn lemma_volume_idempotent(s: StatusView, volume: u16, now_ms: u64, again_ms: u64)
    ensures
        spec_apply(
            spec_apply(s, PlayerEvent::VolumeChanged { volume }, now_ms),
            PlayerEvent::VolumeChanged { volume },
            again_ms,
        ) == spec_apply(s, PlayerEvent::VolumeChanged { volume }, now_ms),
{
}

} // verus!
