//! Runtime playback status: the mutable state that event folding maintains,
//! and the immutable snapshot handed to readers.

use vstd::prelude::*;

use crate::event::{AudioItemInfo, AudioItemView, TrackRef, TrackRefView, UniqueFields,
    UniqueFieldsView};
use crate::text::{dedup_names, dedup_non_empty, is_blank, join_comma, join_with_comma,
    non_empty_view};

verus! {

/// Playback states a Connect device can report.
#[derive(Clone, Copy, Debug, Eq, PartialEq, Structural)]
pub enum PlaybackState {
    Stopped,
    Loading,
    Playing,
    Paused,
}

impl Default for PlaybackState {
    /// A session starts out stopped.
    fn default() -> (r: Self)
        ensures
            r == PlaybackState::Stopped,
    {
        Self::Stopped
    }
}

/// Mathematical value of a [`TrackMetadata`].
pub ghost struct TrackMetadataView {
    pub spotify_id: Option<Seq<char>>,
    pub uri: Option<Seq<char>>,
    pub artist: Option<Seq<char>>,
    pub album: Option<Seq<char>>,
    pub artwork_url: Option<Seq<char>>,
    pub title: Option<Seq<char>>,
    pub duration_ms: u32,
}

impl TrackMetadataView {
    /// The value a fresh session starts from: nothing known about any track.
    pub open spec fn empty() -> TrackMetadataView {
        TrackMetadataView {
            spotify_id: None,
            uri: None,
            artist: None,
            album: None,
            artwork_url: None,
            title: None,
            duration_ms: 0,
        }
    }
}

/// Identity and descriptive fields for the currently relevant track.
///
/// Absent fields are `None`, which is distinct from an empty string.
pub struct TrackMetadata {
    pub spotify_id: Option<String>,
    pub uri: Option<String>,
    pub artist: Option<String>,
    pub album: Option<String>,
    pub artwork_url: Option<String>,
    pub title: Option<String>,
    pub duration_ms: u32,
}

impl View for TrackMetadata {
    type V = TrackMetadataView;

    open spec fn view(&self) -> TrackMetadataView {
        TrackMetadataView {
            spotify_id: self.spotify_id.deep_view(),
            uri: self.uri.deep_view(),
            artist: self.artist.deep_view(),
            album: self.album.deep_view(),
            artwork_url: self.artwork_url.deep_view(),
            title: self.title.deep_view(),
            duration_ms: self.duration_ms,
        }
    }
}

impl Default for TrackMetadata {
    fn default() -> (r: Self)
        ensures
            r@ == TrackMetadataView::empty(),
    {
        TrackMetadata {
            spotify_id: None,
            uri: None,
            artist: None,
            album: None,
            artwork_url: None,
            title: None,
            duration_ms: 0,
        }
    }
}

impl TrackMetadata {
    /// Field-by-field copy; needed because a derived `Clone` would say
    /// nothing about the copy.
    pub fn duplicate(&self) -> (r: TrackMetadata)
        ensures
            r@ == self@,
    {
        TrackMetadata {
            spotify_id: self.spotify_id.clone(),
            uri: self.uri.clone(),
            artist: self.artist.clone(),
            album: self.album.clone(),
            artwork_url: self.artwork_url.clone(),
            title: self.title.clone(),
            duration_ms: self.duration_ms,
        }
    }
}

/// Mathematical value of a [`SpircRuntimeStatus`].
pub ghost struct StatusView {
    pub connected: bool,
    pub playback_state: PlaybackState,
    pub position_anchor_ms: u32,
    pub position_anchor_at: Option<u64>,
    pub volume: u16,
    pub shuffle_enabled: bool,
    pub repeat_context_enabled: bool,
    pub repeat_track_enabled: bool,
    pub track: TrackMetadataView,
}

impl StatusView {
    /// The all-default value a session starts from.
    pub open spec fn initial() -> StatusView {
        StatusView {
            connected: false,
            playback_state: PlaybackState::Stopped,
            position_anchor_ms: 0,
            position_anchor_at: None,
            volume: 0,
            shuffle_enabled: false,
            repeat_context_enabled: false,
            repeat_track_enabled: false,
            track: TrackMetadataView::empty(),
        }
    }

    /// The status after switching the playback state; leaving `Playing`
    /// drops the anchor timestamp.
    pub open spec fn with_playback_state(self, playback_state: PlaybackState) -> StatusView {
        StatusView {
            playback_state,
            position_anchor_at: if playback_state == PlaybackState::Playing {
                self.position_anchor_at
            } else {
                None
            },
            ..self
        }
    }

    /// The status after re-anchoring the position, clamped to a known
    /// duration and stamped with the clock while playing.
    pub open spec fn with_position(self, position_ms: u32, is_playing: bool, now_ms: u64)
        -> StatusView {
        StatusView {
            position_anchor_ms: clamp_to_duration(position_ms, self.track.duration_ms),
            position_anchor_at: if is_playing {
                Some(now_ms)
            } else {
                None
            },
            ..self
        }
    }

    /// The status after recording a track identity.
    pub open spec fn with_identity(self, track: TrackRefView) -> StatusView {
        StatusView { track: apply_identity(self.track, track), ..self }
    }

    /// The two status invariants that event folding maintains:
    /// the anchor timestamp is present exactly while playing, and the
    /// anchor never exceeds a known track duration.
    pub open spec fn wf(self) -> bool {
        &&& self.position_anchor_at is Some <==> self.playback_state == PlaybackState::Playing
        &&& self.track.duration_ms == 0 || self.position_anchor_ms <= self.track.duration_ms
    }
}

/// Mutable playback status for one active session.
///
/// The position is kept as an anchor: a position in milliseconds plus,
/// while playing, the clock reading (in milliseconds) at which that
/// position was current.
pub struct SpircRuntimeStatus {
    pub connected: bool,
    pub playback_state: PlaybackState,
    pub position_anchor_ms: u32,
    pub position_anchor_at: Option<u64>,
    pub volume: u16,
    pub shuffle_enabled: bool,
    pub repeat_context_enabled: bool,
    pub repeat_track_enabled: bool,
    pub track: TrackMetadata,
}

impl View for SpircRuntimeStatus {
    type V = StatusView;

    open spec fn view(&self) -> StatusView {
        StatusView {
            connected: self.connected,
            playback_state: self.playback_state,
            position_anchor_ms: self.position_anchor_ms,
            position_anchor_at: self.position_anchor_at,
            volume: self.volume,
            shuffle_enabled: self.shuffle_enabled,
            repeat_context_enabled: self.repeat_context_enabled,
            repeat_track_enabled: self.repeat_track_enabled,
            track: self.track@,
        }
    }
}

impl Default for SpircRuntimeStatus {
    fn default() -> (r: Self)
        ensures
            r@ == StatusView::initial(),
            r@.wf(),
    {
        SpircRuntimeStatus {
            connected: false,
            playback_state: PlaybackState::Stopped,
            position_anchor_ms: 0,
            position_anchor_at: None,
            volume: 0,
            shuffle_enabled: false,
            repeat_context_enabled: false,
            repeat_track_enabled: false,
            track: TrackMetadata::default(),
        }
    }
}

/// A position clamped down to a known duration; positions are left alone
/// while the duration is unknown (zero).
pub open spec fn clamp_to_duration(position_ms: u32, duration_ms: u32) -> u32 {
    if duration_ms > 0 && position_ms > duration_ms {
        duration_ms
    } else {
        position_ms
    }
}

/// The position a status reports at clock reading `now_ms`: the anchor,
/// extrapolated by the elapsed time while playing (saturating, never
/// negative), then clamped to a known duration.
pub open spec fn spec_position(s: StatusView, now_ms: u64) -> u32 {
    let extrapolated: int = if s.playback_state == PlaybackState::Playing
        && s.position_anchor_at is Some {
        let anchor_at = s.position_anchor_at->0;
        let elapsed: int = if now_ms >= anchor_at {
            now_ms - anchor_at
        } else {
            0
        };
        let capped: int = if elapsed > u32::MAX {
            u32::MAX as int
        } else {
            elapsed
        };
        let sum: int = s.position_anchor_ms + capped;
        if sum > u32::MAX {
            u32::MAX as int
        } else {
            sum
        }
    } else {
        s.position_anchor_ms as int
    };
    if s.track.duration_ms > 0 && extrapolated > s.track.duration_ms {
        s.track.duration_ms
    } else {
        extrapolated as u32
    }
}

impl SpircRuntimeStatus {
    /// Switches the playback state; leaving `Playing` drops the anchor
    /// timestamp so the position freezes.
    pub fn set_playback_state(&mut self, playback_state: PlaybackState)
        ensures
            final(self)@ == old(self)@.with_playback_state(playback_state),
    {
        self.playback_state = playback_state;
        if playback_state != PlaybackState::Playing {
            self.position_anchor_at = None;
        }
    }

    /// Re-anchors the position, clamped to a known duration; while playing
    /// the anchor is stamped with the current clock reading.
    pub fn set_position(&mut self, position_ms: u32, is_playing: bool, now_ms: u64)
        ensures
            final(self)@ == old(self)@.with_position(position_ms, is_playing, now_ms),
    {
        let position_ms = if self.track.duration_ms > 0 && position_ms > self.track.duration_ms {
            self.track.duration_ms
        } else {
            position_ms
        };
        self.position_anchor_ms = position_ms;
        self.position_anchor_at = if is_playing {
            Some(now_ms)
        } else {
            None
        };
    }

    /// The position this status reports at clock reading `now_ms`.
    pub fn current_position_ms(&self, now_ms: u64) -> (r: u32)
        ensures
            r == spec_position(self@, now_ms),
    {
        let mut position_ms = self.position_anchor_ms;
        if self.playback_state == PlaybackState::Playing {
            if let Some(anchor_at) = self.position_anchor_at {
                let elapsed: u64 = if now_ms >= anchor_at {
                    now_ms - anchor_at
                } else {
                    0
                };
                let elapsed_ms: u32 = if elapsed > u32::MAX as u64 {
                    u32::MAX
                } else {
                    elapsed as u32
                };
                position_ms = if position_ms as u64 + elapsed_ms as u64 > u32::MAX as u64 {
                    u32::MAX
                } else {
                    position_ms + elapsed_ms
                };
            }
        }
        if self.track.duration_ms > 0 && position_ms > self.track.duration_ms {
            self.track.duration_ms
        } else {
            position_ms
        }
    }
}

/// Track identity folded into the stored metadata: when the canonical URI
/// differs from the stored one, every descriptive field is cleared first,
/// so a new track never shows the previous track's details.
pub open spec fn apply_identity(t: TrackMetadataView, r: TrackRefView) -> TrackMetadataView {
    let base = if t.uri == Some(r.uri) {
        t
    } else {
        TrackMetadataView {
            artist: None,
            album: None,
            artwork_url: None,
            title: None,
            duration_ms: 0,
            ..t
        }
    };
    TrackMetadataView { spotify_id: r.item_id, uri: Some(r.uri), ..base }
}

/// The artist field an audio item yields: for catalogue tracks the
/// deduplicated non-empty artist names joined with commas, for local files
/// the free-form string if it has content, for episodes nothing.
pub open spec fn artist_of(u: UniqueFieldsView) -> Option<Seq<char>> {
    match u {
        UniqueFieldsView::Track { artists, .. } => {
            let names = dedup_non_empty(artists);
            if names.len() == 0 {
                None
            } else {
                Some(join_comma(names))
            }
        },
        UniqueFieldsView::Local { artists, .. } => match artists {
            Some(a) => non_empty_view(a),
            None => None,
        },
        UniqueFieldsView::Episode { .. } => None,
    }
}

/// The album field an audio item yields: the album title for catalogue
/// tracks and local files, the show name for episodes; blank strings count
/// as absent.
pub open spec fn album_of(u: UniqueFieldsView) -> Option<Seq<char>> {
    match u {
        UniqueFieldsView::Track { album, .. } => non_empty_view(album),
        UniqueFieldsView::Local { album, .. } => match album {
            Some(a) => non_empty_view(a),
            None => None,
        },
        UniqueFieldsView::Episode { show_name } => non_empty_view(show_name),
    }
}

/// Audio-item metadata folded into the status: the descriptive fields are
/// overwritten from the item, and an anchor beyond the new duration is
/// clamped down to it.
pub open spec fn apply_metadata(s: StatusView, a: AudioItemView) -> StatusView {
    let track = TrackMetadataView {
        spotify_id: a.track_id.item_id,
        uri: non_empty_view(a.uri),
        artist: artist_of(a.unique_fields),
        album: album_of(a.unique_fields),
        artwork_url: if a.covers.len() == 0 {
            None
        } else {
            non_empty_view(a.covers[0])
        },
        title: non_empty_view(a.name),
        duration_ms: a.duration_ms,
    };
    let anchor = if s.position_anchor_ms > track.duration_ms && track.duration_ms > 0 {
        track.duration_ms
    } else {
        s.position_anchor_ms
    };
    StatusView { position_anchor_ms: anchor, track, ..s }
}

impl SpircRuntimeStatus {
    /// Records which track the status is about; a change of canonical URI
    /// clears the descriptive fields before the new identity is set.
    pub fn set_track_identity(&mut self, track: &TrackRef)
        ensures
            final(self)@ == old(self)@.with_identity(track@),
    {
        let same = match &self.track.uri {
            Some(u) => *u == track.uri,
            None => false,
        };
        if !same {
            self.track.artist = None;
            self.track.album = None;
            self.track.artwork_url = None;
            self.track.title = None;
            self.track.duration_ms = 0;
        }
        self.track.spotify_id = track.item_id.clone();
        self.track.uri = Some(track.uri.clone());
    }

    /// Overwrites the descriptive track fields from an audio item and
    /// clamps the position anchor to the item's duration.
    pub fn set_track_metadata(&mut self, item: &AudioItemInfo)
        ensures
            final(self)@ == apply_metadata(old(self)@, item@),
    {
        self.track.spotify_id = item.track_id.item_id.clone();
        self.track.uri = non_empty(item.uri.clone());
        self.track.title = non_empty(item.name.clone());
        self.track.artwork_url = if item.covers.len() > 0 {
            assert(item.covers.deep_view()[0] == item.covers@[0]@);
            non_empty(item.covers[0].clone())
        } else {
            None
        };
        self.track.duration_ms = item.duration_ms;

        let (artist, album) = match &item.unique_fields {
            UniqueFields::Track { artists, album } => {
                let names = dedup_names(artists);
                let artist = if names.len() == 0 {
                    None
                } else {
                    Some(join_with_comma(&names))
                };
                (artist, non_empty(album.clone()))
            },
            UniqueFields::Local { artists, album } => {
                let artist = match artists {
                    Some(value) => non_empty(value.clone()),
                    None => None,
                };
                let album = match album {
                    Some(value) => non_empty(value.clone()),
                    None => None,
                };
                (artist, album)
            },
            UniqueFields::Episode { show_name } => (None, non_empty(show_name.clone())),
        };
        self.track.artist = artist;
        self.track.album = album;

        if self.position_anchor_ms > self.track.duration_ms && self.track.duration_ms > 0 {
            self.position_anchor_ms = self.track.duration_ms;
        }
    }
}

/// Mathematical value of a [`SpircStatusSnapshot`].
pub ghost struct SnapshotView {
    pub connected: bool,
    pub playback_state: PlaybackState,
    pub position_ms: u32,
    pub duration_ms: u32,
    pub volume: u16,
    pub shuffle_enabled: bool,
    pub repeat_context_enabled: bool,
    pub repeat_track_enabled: bool,
    pub track: TrackMetadataView,
}

/// The snapshot a status yields at clock reading `now_ms`: every field
/// copied, with the position anchor already resolved to a concrete
/// position.
pub open spec fn spec_snapshot(s: StatusView, now_ms: u64) -> SnapshotView {
    SnapshotView {
        connected: s.connected,
        playback_state: s.playback_state,
        position_ms: spec_position(s, now_ms),
        duration_ms: s.track.duration_ms,
        volume: s.volume,
        shuffle_enabled: s.shuffle_enabled,
        repeat_context_enabled: s.repeat_context_enabled,
        repeat_track_enabled: s.repeat_track_enabled,
        track: s.track,
    }
}

/// Immutable copy of the playback status at one instant, with the
/// position already resolved. Owns all of its data; safe to hand to any
/// reader.
pub struct SpircStatusSnapshot {
    pub connected: bool,
    pub playback_state: PlaybackState,
    pub position_ms: u32,
    pub duration_ms: u32,
    pub volume: u16,
    pub shuffle_enabled: bool,
    pub repeat_context_enabled: bool,
    pub repeat_track_enabled: bool,
    pub track: TrackMetadata,
}

impl View for SpircStatusSnapshot {
    type V = SnapshotView;

    open spec fn view(&self) -> SnapshotView {
        SnapshotView {
            connected: self.connected,
            playback_state: self.playback_state,
            position_ms: self.position_ms,
            duration_ms: self.duration_ms,
            volume: self.volume,
            shuffle_enabled: self.shuffle_enabled,
            repeat_context_enabled: self.repeat_context_enabled,
            repeat_track_enabled: self.repeat_track_enabled,
            track: self.track@,
        }
    }
}

/// Position extrapolation while playing: with the anchor at position `P`
/// taken at clock reading `T`, reading the position `delta` milliseconds
/// later yields `min(P + delta, duration)` when the duration is known,
/// and `P + delta` otherwise, as long as that sum stays representable.
pub proof fn lemma_position_extrapolation(s: StatusView, anchor_at: u64, delta: u64)
    requires
        s.playback_state == PlaybackState::Playing,
        s.position_anchor_at == Some(anchor_at),
        anchor_at + delta <= u64::MAX,
    ensures
        s.track.duration_ms > 0 ==> spec_position(s, (anchor_at + delta) as u64) == (
        if s.position_anchor_ms + delta <= s.track.duration_ms {
            s.position_anchor_ms + delta
        } else {
            s.track.duration_ms as int
        }),
        s.track.duration_ms == 0 && s.position_anchor_ms + delta <= u32::MAX
            ==> spec_position(s, (anchor_at + delta) as u64) == s.position_anchor_ms + delta,
{
}

impl SpircRuntimeStatus {
    /// An independently owned copy of every field, with the position
    /// resolved at clock reading `now_ms`.
    pub fn snapshot(&self, now_ms: u64) -> (r: SpircStatusSnapshot)
        ensures
            r@ == spec_snapshot(self@, now_ms),
    {
        SpircStatusSnapshot {
            connected: self.connected,
            playback_state: self.playback_state,
            position_ms: self.current_position_ms(now_ms),
            duration_ms: self.track.duration_ms,
            volume: self.volume,
            shuffle_enabled: self.shuffle_enabled,
            repeat_context_enabled: self.repeat_context_enabled,
            repeat_track_enabled: self.repeat_track_enabled,
            track: self.track.duplicate(),
        }
    }
}

/// A string with any content beyond whitespace, or `None`.
///
/// Strings that are empty or all whitespace are treated as absent.
pub fn non_empty(value: String) -> (r: Option<String>)
    ensures
        r.deep_view() == non_empty_view(value@),
{
    if is_blank(value.as_str()) {
        None
    } else {
        Some(value)
    }
}

} // verus!
