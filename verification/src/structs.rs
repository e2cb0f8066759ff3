//! The typed records a foreign payload decodes into.
//!
//! Decoded records are immutable value snapshots: they own plain data and
//! carry no reference back to the foreign engine. Each record has a spec
//! mirror (suffix `V`) reached through [`DeepView`], and the decoder's
//! contracts speak of those mirrors.

use vstd::prelude::*;
use crate::value::Value;

verus! {

/// The connected device, as the `ready` / `not_ready` payload names it.
#[derive(Debug, Clone, PartialEq, Eq)]
pub struct Player {
    pub device_id: String,
}

pub struct PlayerV {
    pub device_id: Seq<char>,
}

impl DeepView for Player {
    type V = PlayerV;

    open spec fn deep_view(&self) -> PlayerV {
        PlayerV { device_id: self.device_id@ }
    }
}

/// The payload of the four error notification kinds.
#[derive(Debug, Clone, PartialEq, Eq)]
pub struct EngineError {
    pub message: String,
}

pub struct EngineErrorV {
    pub message: Seq<char>,
}

impl DeepView for EngineError {
    type V = EngineErrorV;

    open spec fn deep_view(&self) -> EngineErrorV {
        EngineErrorV { message: self.message@ }
    }
}

/// Album artwork in one size.
#[derive(Debug, Clone, PartialEq, Eq)]
pub struct Image {
    pub url: String,
    pub size: Option<String>,
    pub width: Option<i64>,
    pub height: Option<i64>,
}

pub struct ImageV {
    pub url: Seq<char>,
    pub size: Option<Seq<char>>,
    pub width: Option<i64>,
    pub height: Option<i64>,
}

impl DeepView for Image {
    type V = ImageV;

    open spec fn deep_view(&self) -> ImageV {
        ImageV {
            url: self.url@,
            size: self.size.deep_view(),
            width: self.width,
            height: self.height,
        }
    }
}

#[derive(Debug, Clone, PartialEq, Eq)]
pub struct Artist {
    pub uri: String,
    pub name: String,
    pub url: Option<String>,
}

pub struct ArtistV {
    pub uri: Seq<char>,
    pub name: Seq<char>,
    pub url: Option<Seq<char>>,
}

impl DeepView for Artist {
    type V = ArtistV;

    open spec fn deep_view(&self) -> ArtistV {
        ArtistV { uri: self.uri@, name: self.name@, url: self.url.deep_view() }
    }
}

#[derive(Debug, Clone, PartialEq, Eq)]
pub struct Album {
    pub uri: String,
    pub name: String,
    pub images: Vec<Image>,
}

pub struct AlbumV {
    pub uri: Seq<char>,
    pub name: Seq<char>,
    pub images: Seq<ImageV>,
}

impl DeepView for Album {
    type V = AlbumV;

    open spec fn deep_view(&self) -> AlbumV {
        AlbumV { uri: self.uri@, name: self.name@, images: self.images.deep_view() }
    }
}

/// What kind of content a track is.
#[derive(Debug, Clone, Copy, PartialEq, Eq, Structural)]
pub enum TrackType {
    Track,
    Episode,
    Ad,
}

impl DeepView for TrackType {
    type V = TrackType;

    open spec fn deep_view(&self) -> TrackType {
        *self
    }
}

/// What kind of file backs a track.
#[derive(Debug, Clone, Copy, PartialEq, Eq, Structural)]
pub enum MediaType {
    Audio,
    Video,
}

impl DeepView for MediaType {
    type V = MediaType;

    open spec fn deep_view(&self) -> MediaType {
        *self
    }
}

/// Where a relinked track came from.
#[derive(Debug, Clone, PartialEq, Eq)]
pub struct LinkedFrom {
    pub uri: Option<String>,
    pub id: Option<String>,
}

pub struct LinkedFromV {
    pub uri: Option<Seq<char>>,
    pub id: Option<Seq<char>>,
}

impl DeepView for LinkedFrom {
    type V = LinkedFromV;

    open spec fn deep_view(&self) -> LinkedFromV {
        LinkedFromV { uri: self.uri.deep_view(), id: self.id.deep_view() }
    }
}

/// One track of the playback window.
///
/// `metadata` is an opaque foreign attachment: the library keeps it as the
/// raw [`Value`] tree and promises nothing about its content, only whether
/// it was present.
#[derive(Debug)]
pub struct Track {
    pub uri: String,
    pub id: Option<String>,
    pub track_type: TrackType,
    pub media_type: MediaType,
    pub name: String,
    pub is_playable: bool,
    pub album: Album,
    pub artists: Vec<Artist>,
    pub linked_from: Option<LinkedFrom>,
    pub metadata: Option<Value>,
}

pub struct TrackV {
    pub uri: Seq<char>,
    pub id: Option<Seq<char>>,
    pub track_type: TrackType,
    pub media_type: MediaType,
    pub name: Seq<char>,
    pub is_playable: bool,
    pub album: AlbumV,
    pub artists: Seq<ArtistV>,
    pub linked_from: Option<LinkedFromV>,
    pub has_metadata: bool,
}

impl DeepView for Track {
    type V = TrackV;

    open spec fn deep_view(&self) -> TrackV {
        TrackV {
            uri: self.uri@,
            id: self.id.deep_view(),
            track_type: self.track_type,
            media_type: self.media_type,
            name: self.name@,
            is_playable: self.is_playable,
            album: self.album.deep_view(),
            artists: self.artists.deep_view(),
            linked_from: self.linked_from.deep_view(),
            has_metadata: self.metadata is Some,
        }
    }
}

/// Free-text description attached to a playback context.
#[derive(Debug, Clone, PartialEq, Eq)]
pub struct ContextMetadata {
    pub context_description: Option<String>,
}

pub struct ContextMetadataV {
    pub context_description: Option<Seq<char>>,
}

impl DeepView for ContextMetadata {
    type V = ContextMetadataV;

    open spec fn deep_view(&self) -> ContextMetadataV {
        ContextMetadataV { context_description: self.context_description.deep_view() }
    }
}

/// What the engine is playing from.
#[derive(Debug, Clone, PartialEq, Eq)]
pub struct Context {
    pub uri: Option<String>,
    pub metadata: Option<ContextMetadata>,
}

pub struct ContextV {
    pub uri: Option<Seq<char>>,
    pub metadata: Option<ContextMetadataV>,
}

impl DeepView for Context {
    type V = ContextV;

    open spec fn deep_view(&self) -> ContextV {
        ContextV { uri: self.uri.deep_view(), metadata: self.metadata.deep_view() }
    }
}

/// Which transport operations the engine currently forbids.
///
/// An absent field means the operation is allowed.
#[derive(Debug, Clone, Copy, PartialEq, Eq)]
pub struct Disallows {
    pub pausing: Option<bool>,
    pub peeking_next: Option<bool>,
    pub peeking_prev: Option<bool>,
    pub resuming: Option<bool>,
    pub seeking: Option<bool>,
    pub skipping_next: Option<bool>,
    pub skipping_prev: Option<bool>,
}

impl DeepView for Disallows {
    type V = Disallows;

    open spec fn deep_view(&self) -> Disallows {
        *self
    }
}

/// The current track with its neighbours.
#[derive(Debug)]
pub struct TrackWindow {
    pub current_track: Track,
    pub previous_tracks: Vec<Track>,
    pub next_tracks: Vec<Track>,
}

pub struct TrackWindowV {
    pub current_track: TrackV,
    pub previous_tracks: Seq<TrackV>,
    pub next_tracks: Seq<TrackV>,
}

impl DeepView for TrackWindow {
    type V = TrackWindowV;

    open spec fn deep_view(&self) -> TrackWindowV {
        TrackWindowV {
            current_track: self.current_track.deep_view(),
            previous_tracks: self.previous_tracks.deep_view(),
            next_tracks: self.next_tracks.deep_view(),
        }
    }
}

/// The repeat mode: none, the whole context, or the current track.
#[derive(Debug, Clone, Copy, PartialEq, Eq, Structural)]
pub enum RepeatMode {
    Off,
    Context,
    Track,
}

impl DeepView for RepeatMode {
    type V = RepeatMode;

    open spec fn deep_view(&self) -> RepeatMode {
        *self
    }
}

/// The record the on-demand state query returns.
#[derive(Debug)]
pub struct PlaybackState {
    pub context: Context,
    pub disallows: Disallows,
    pub paused: bool,
    /// Position in the current track, in milliseconds.
    pub position: i32,
    pub repeat_mode: RepeatMode,
    pub shuffle: bool,
    pub track_window: TrackWindow,
}

pub struct PlaybackStateV {
    pub context: ContextV,
    pub disallows: Disallows,
    pub paused: bool,
    pub position: i32,
    pub repeat_mode: RepeatMode,
    pub shuffle: bool,
    pub track_window: TrackWindowV,
}

impl DeepView for PlaybackState {
    type V = PlaybackStateV;

    open spec fn deep_view(&self) -> PlaybackStateV {
        PlaybackStateV {
            context: self.context.deep_view(),
            disallows: self.disallows,
            paused: self.paused,
            position: self.position,
            repeat_mode: self.repeat_mode,
            shuffle: self.shuffle,
            track_window: self.track_window.deep_view(),
        }
    }
}

/// The engine's speed setting.
#[derive(Debug, Clone, Copy, PartialEq, Eq)]
pub struct SpeedSetting {
    pub current: i64,
    pub restricted: bool,
    pub selected: i64,
}

impl DeepView for SpeedSetting {
    type V = SpeedSetting;

    open spec fn deep_view(&self) -> SpeedSetting {
        *self
    }
}

/// Capability block of the richer state-change payload.
#[derive(Debug, Clone, PartialEq, Eq)]
pub struct PlaybackFeatures {
    pub hifi_status: String,
    pub playback_speed: SpeedSetting,
    pub signal_ids: Vec<String>,
}

pub struct PlaybackFeaturesV {
    pub hifi_status: Seq<char>,
    pub playback_speed: SpeedSetting,
    pub signal_ids: Seq<Seq<char>>,
}

impl DeepView for PlaybackFeatures {
    type V = PlaybackFeaturesV;

    open spec fn deep_view(&self) -> PlaybackFeaturesV {
        PlaybackFeaturesV {
            hifi_status: self.hifi_status@,
            playback_speed: self.playback_speed,
            signal_ids: self.signal_ids.deep_view(),
        }
    }
}

/// Why each forbidden operation is forbidden; an absent list means no reasons.
#[derive(Debug, Clone, PartialEq, Eq)]
pub struct Restrictions {
    pub disallow_peeking_next_reasons: Vec<String>,
    pub disallow_peeking_prev_reasons: Vec<String>,
    pub disallow_seeking_reasons: Vec<String>,
    pub disallow_skipping_next_reasons: Vec<String>,
    pub disallow_skipping_prev_reasons: Vec<String>,
    pub disallow_toggling_repeat_context_reasons: Vec<String>,
    pub disallow_toggling_repeat_track_reasons: Vec<String>,
    pub disallow_toggling_shuffle_reasons: Vec<String>,
}

pub struct RestrictionsV {
    pub disallow_peeking_next_reasons: Seq<Seq<char>>,
    pub disallow_peeking_prev_reasons: Seq<Seq<char>>,
    pub disallow_seeking_reasons: Seq<Seq<char>>,
    pub disallow_skipping_next_reasons: Seq<Seq<char>>,
    pub disallow_skipping_prev_reasons: Seq<Seq<char>>,
    pub disallow_toggling_repeat_context_reasons: Seq<Seq<char>>,
    pub disallow_toggling_repeat_track_reasons: Seq<Seq<char>>,
    pub disallow_toggling_shuffle_reasons: Seq<Seq<char>>,
}

impl DeepView for Restrictions {
    type V = RestrictionsV;

    open spec fn deep_view(&self) -> RestrictionsV {
        RestrictionsV {
            disallow_peeking_next_reasons: self.disallow_peeking_next_reasons.deep_view(),
            disallow_peeking_prev_reasons: self.disallow_peeking_prev_reasons.deep_view(),
            disallow_seeking_reasons: self.disallow_seeking_reasons.deep_view(),
            disallow_skipping_next_reasons: self.disallow_skipping_next_reasons.deep_view(),
            disallow_skipping_prev_reasons: self.disallow_skipping_prev_reasons.deep_view(),
            disallow_toggling_repeat_context_reasons: self
                .disallow_toggling_repeat_context_reasons
                .deep_view(),
            disallow_toggling_repeat_track_reasons: self
                .disallow_toggling_repeat_track_reasons
                .deep_view(),
            disallow_toggling_shuffle_reasons: self.disallow_toggling_shuffle_reasons.deep_view(),
        }
    }
}

/// The richer, structurally distinct payload of `player_state_changed`.
///
/// It overlaps [`PlaybackState`] but is a schema of its own; the two are
/// deliberately not unified.
#[derive(Debug)]
pub struct PlaybackStateChange {
    pub context: Context,
    pub disallows: Disallows,
    pub paused: bool,
    pub position: i32,
    pub repeat_mode: RepeatMode,
    pub shuffle: bool,
    pub track_window: TrackWindow,
    /// Length of the current track, in milliseconds.
    pub duration: i64,
    pub loading: bool,
    pub playback_id: String,
    pub playback_quality: String,
    pub playback_speed: i64,
    pub playback_features: PlaybackFeatures,
    pub restrictions: Restrictions,
    pub shuffle_mode: i64,
    pub timestamp: i64,
}

pub struct PlaybackStateChangeV {
    pub context: ContextV,
    pub disallows: Disallows,
    pub paused: bool,
    pub position: i32,
    pub repeat_mode: RepeatMode,
    pub shuffle: bool,
    pub track_window: TrackWindowV,
    pub duration: i64,
    pub loading: bool,
    pub playback_id: Seq<char>,
    pub playback_quality: Seq<char>,
    pub playback_speed: i64,
    pub playback_features: PlaybackFeaturesV,
    pub restrictions: RestrictionsV,
    pub shuffle_mode: i64,
    pub timestamp: i64,
}

impl DeepView for PlaybackStateChange {
    type V = PlaybackStateChangeV;

    open spec fn deep_view(&self) -> PlaybackStateChangeV {
        PlaybackStateChangeV {
            context: self.context.deep_view(),
            disallows: self.disallows,
            paused: self.paused,
            position: self.position,
            repeat_mode: self.repeat_mode,
            shuffle: self.shuffle,
            track_window: self.track_window.deep_view(),
            duration: self.duration,
            loading: self.loading,
            playback_id: self.playback_id@,
            playback_quality: self.playback_quality@,
            playback_speed: self.playback_speed,
            playback_features: self.playback_features.deep_view(),
            restrictions: self.restrictions.deep_view(),
            shuffle_mode: self.shuffle_mode,
            timestamp: self.timestamp,
        }
    }
}

} // verus!
