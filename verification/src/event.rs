//! The events a player reports, and what each of them says.
//!
//! The set of events is closed. Every function here matches on all of its
//! variants without a catch-all arm, so that a new variant cannot be added
//! without deciding its name and its payload.

use crate::json::{text_array, Json};
use crate::track_id::TrackId;
use vstd::prelude::*;

verus! {

/// The state of the audio output.
#[derive(Clone, Copy, Debug, PartialEq, Eq, Structural)]
pub enum SinkStatus {
    Running,
    TemporarilyClosed,
    Closed,
}

/// What tracks and episodes do not have in common.
#[derive(Clone, Debug, PartialEq, Eq)]
pub enum UniqueFields {
    Track {
        /// The names of the artists.
        artists: Vec<String>,
        album: String,
        album_artists: Vec<String>,
        popularity: u8,
        number: u32,
        disc_number: u32,
    },
    Episode {
        description: String,
        /// Seconds since the Unix epoch.
        publish_time: i64,
        show_name: String,
    },
}

/// A track or an episode, as far as a notification describes it.
#[derive(Clone, Debug, PartialEq, Eq)]
pub struct AudioItem {
    pub track_id: TrackId,
    pub uri: String,
    pub name: String,
    /// The addresses of the cover images.
    pub covers: Vec<String>,
    pub language: Vec<String>,
    pub duration_ms: u32,
    pub is_explicit: bool,
    pub unique_fields: UniqueFields,
}

/// An event reported by the player.
#[derive(Clone, Debug, PartialEq, Eq)]
pub enum PlayerEvent {
    PlayRequestIdChanged { play_request_id: u64 },
    TrackChanged { audio_item: AudioItem },
    Stopped { track_id: TrackId },
    Playing { track_id: TrackId, position_ms: u32 },
    Paused { track_id: TrackId, position_ms: u32 },
    Loading { track_id: TrackId },
    Preloading { track_id: TrackId },
    TimeToPreloadNextTrack { track_id: TrackId },
    EndOfTrack { track_id: TrackId },
    Unavailable { track_id: TrackId },
    VolumeChanged { volume: u16 },
    Seeked { track_id: TrackId, position_ms: u32 },
    PositionCorrection { track_id: TrackId, position_ms: u32 },
    SessionConnected { connection_id: String, user_name: String },
    SessionDisconnected { connection_id: String, user_name: String },
    SessionClientChanged {
        client_id: String,
        client_name: String,
        client_brand_name: String,
        client_model_name: String,
    },
    ShuffleChanged { shuffle: bool },
    RepeatChanged { repeat: bool },
    AutoPlayChanged { auto_play: bool },
    FilterExplicitContentChanged { filter: bool },
}

/// The variant of an event, without its fields.
#[derive(Clone, Copy, Debug, PartialEq, Eq, Structural)]
pub enum EventKind {
    PlayRequestIdChanged,
    TrackChanged,
    Stopped,
    Playing,
    Paused,
    Loading,
    Preloading,
    TimeToPreloadNextTrack,
    EndOfTrack,
    Unavailable,
    VolumeChanged,
    Seeked,
    PositionCorrection,
    SessionConnected,
    SessionDisconnected,
    SessionClientChanged,
    ShuffleChanged,
    RepeatChanged,
    AutoPlayChanged,
    FilterExplicitContentChanged,
}

impl SinkStatus {
    /// The word by which a notification names the status.
    pub open spec fn spec_name(self) -> Seq<char> {
        match self {
            SinkStatus::Running => "running"@,
            SinkStatus::TemporarilyClosed => "temporarily_closed"@,
            SinkStatus::Closed => "closed"@,
        }
    }

    /// What a notification of the status holds.
    pub open spec fn fields(self) -> Map<Seq<char>, Json> {
        map!["sinkStatus"@ => Json::Text(self.spec_name())]
    }

    /// The word by which a notification names the status.
    pub fn name(self) -> (name: &'static str)
        ensures
            name@ == self.spec_name(),
    {
        match self {
            SinkStatus::Running => "running",
            SinkStatus::TemporarilyClosed => "temporarily_closed",
            SinkStatus::Closed => "closed",
        }
    }
}

impl EventKind {
    /// The name of the notification that an event of this kind raises.
    pub open spec fn spec_name(self) -> Seq<char> {
        match self {
            EventKind::PlayRequestIdChanged => "playRequestId"@,
            EventKind::TrackChanged => "trackChanged"@,
            EventKind::Stopped => "stopped"@,
            EventKind::Playing => "playing"@,
            EventKind::Paused => "paused"@,
            EventKind::Loading => "loading"@,
            EventKind::Preloading => "preloading"@,
            EventKind::TimeToPreloadNextTrack => "timeToPreloadNextTrack"@,
            EventKind::EndOfTrack => "endOfTrack"@,
            EventKind::Unavailable => "unavailable"@,
            EventKind::VolumeChanged => "volumeChanged"@,
            EventKind::Seeked => "seeked"@,
            EventKind::PositionCorrection => "positionCorrection"@,
            EventKind::SessionConnected => "sessionConnected"@,
            EventKind::SessionDisconnected => "sessionDisconnected"@,
            EventKind::SessionClientChanged => "sessionClientChanged"@,
            EventKind::ShuffleChanged => "shuffleChanged"@,
            EventKind::RepeatChanged => "repeatChanged"@,
            EventKind::AutoPlayChanged => "autoPlayChanged"@,
            EventKind::FilterExplicitContentChanged => "filterExplicitContentChanged"@,
        }
    }

    /// The name of the variant itself, as warnings spell it.
    pub open spec fn spec_variant(self) -> Seq<char> {
        match self {
            EventKind::PlayRequestIdChanged => "PlayRequestIdChanged"@,
            EventKind::TrackChanged => "TrackChanged"@,
            EventKind::Stopped => "Stopped"@,
            EventKind::Playing => "Playing"@,
            EventKind::Paused => "Paused"@,
            EventKind::Loading => "Loading"@,
            EventKind::Preloading => "Preloading"@,
            EventKind::TimeToPreloadNextTrack => "TimeToPreloadNextTrack"@,
            EventKind::EndOfTrack => "EndOfTrack"@,
            EventKind::Unavailable => "Unavailable"@,
            EventKind::VolumeChanged => "VolumeChanged"@,
            EventKind::Seeked => "Seeked"@,
            EventKind::PositionCorrection => "PositionCorrection"@,
            EventKind::SessionConnected => "SessionConnected"@,
            EventKind::SessionDisconnected => "SessionDisconnected"@,
            EventKind::SessionClientChanged => "SessionClientChanged"@,
            EventKind::ShuffleChanged => "ShuffleChanged"@,
            EventKind::RepeatChanged => "RepeatChanged"@,
            EventKind::AutoPlayChanged => "AutoPlayChanged"@,
            EventKind::FilterExplicitContentChanged => "FilterExplicitContentChanged"@,
        }
    }

    /// Whether an event of this kind names a track, whose identifier its
    /// notification gives as text.
    pub open spec fn spec_has_track(self) -> bool {
        match self {
            EventKind::TrackChanged
            | EventKind::Stopped
            | EventKind::Playing
            | EventKind::Paused
            | EventKind::Loading
            | EventKind::Preloading
            | EventKind::TimeToPreloadNextTrack
            | EventKind::EndOfTrack
            | EventKind::Unavailable
            | EventKind::Seeked
            | EventKind::PositionCorrection => true,
            EventKind::PlayRequestIdChanged
            | EventKind::VolumeChanged
            | EventKind::SessionConnected
            | EventKind::SessionDisconnected
            | EventKind::SessionClientChanged
            | EventKind::ShuffleChanged
            | EventKind::RepeatChanged
            | EventKind::AutoPlayChanged
            | EventKind::FilterExplicitContentChanged => false,
        }
    }

    /// The keys of the fields that the notification of an event of this kind
    /// holds.
    pub open spec fn spec_keys(self) -> Set<Seq<char>> {
        match self {
            EventKind::PlayRequestIdChanged => set!["playRequestId"@],
            EventKind::TrackChanged => set![
                "trackId"@,
                "uri"@,
                "name"@,
                "covers"@,
                "language"@,
                "durationMs"@,
                "isExplicit"@,
                "extraFields"@,
            ],
            EventKind::Stopped
            | EventKind::Loading
            | EventKind::Preloading
            | EventKind::TimeToPreloadNextTrack
            | EventKind::EndOfTrack
            | EventKind::Unavailable => set!["trackId"@],
            EventKind::Playing
            | EventKind::Paused
            | EventKind::Seeked
            | EventKind::PositionCorrection => set!["trackId"@, "positionMs"@],
            EventKind::VolumeChanged => set!["volume"@],
            EventKind::SessionConnected | EventKind::SessionDisconnected => set![
                "connectionId"@,
                "userName"@,
            ],
            EventKind::SessionClientChanged => set![
                "clientId"@,
                "clientName"@,
                "clientBrandName"@,
                "cleintModelName"@,
            ],
            EventKind::ShuffleChanged => set!["shuffle"@],
            EventKind::RepeatChanged => set!["repeat"@],
            EventKind::AutoPlayChanged => set!["autoPlay"@],
            EventKind::FilterExplicitContentChanged => set!["filter"@],
        }
    }

    /// The name of the notification that an event of this kind raises.
    pub fn name(self) -> (name: &'static str)
        ensures
            name@ == self.spec_name(),
    {
        match self {
            EventKind::PlayRequestIdChanged => "playRequestId",
            EventKind::TrackChanged => "trackChanged",
            EventKind::Stopped => "stopped",
            EventKind::Playing => "playing",
            EventKind::Paused => "paused",
            EventKind::Loading => "loading",
            EventKind::Preloading => "preloading",
            EventKind::TimeToPreloadNextTrack => "timeToPreloadNextTrack",
            EventKind::EndOfTrack => "endOfTrack",
            EventKind::Unavailable => "unavailable",
            EventKind::VolumeChanged => "volumeChanged",
            EventKind::Seeked => "seeked",
            EventKind::PositionCorrection => "positionCorrection",
            EventKind::SessionConnected => "sessionConnected",
            EventKind::SessionDisconnected => "sessionDisconnected",
            EventKind::SessionClientChanged => "sessionClientChanged",
            EventKind::ShuffleChanged => "shuffleChanged",
            EventKind::RepeatChanged => "repeatChanged",
            EventKind::AutoPlayChanged => "autoPlayChanged",
            EventKind::FilterExplicitContentChanged => "filterExplicitContentChanged",
        }
    }

    /// The name of the variant itself, as warnings spell it.
    pub fn variant(self) -> (name: &'static str)
        ensures
            name@ == self.spec_variant(),
    {
        match self {
            EventKind::PlayRequestIdChanged => "PlayRequestIdChanged",
            EventKind::TrackChanged => "TrackChanged",
            EventKind::Stopped => "Stopped",
            EventKind::Playing => "Playing",
            EventKind::Paused => "Paused",
            EventKind::Loading => "Loading",
            EventKind::Preloading => "Preloading",
            EventKind::TimeToPreloadNextTrack => "TimeToPreloadNextTrack",
            EventKind::EndOfTrack => "EndOfTrack",
            EventKind::Unavailable => "Unavailable",
            EventKind::VolumeChanged => "VolumeChanged",
            EventKind::Seeked => "Seeked",
            EventKind::PositionCorrection => "PositionCorrection",
            EventKind::SessionConnected => "SessionConnected",
            EventKind::SessionDisconnected => "SessionDisconnected",
            EventKind::SessionClientChanged => "SessionClientChanged",
            EventKind::ShuffleChanged => "ShuffleChanged",
            EventKind::RepeatChanged => "RepeatChanged",
            EventKind::AutoPlayChanged => "AutoPlayChanged",
            EventKind::FilterExplicitContentChanged => "FilterExplicitContentChanged",
        }
    }
}

impl UniqueFields {
    /// What a notification holds of these fields. The field `itemType`
    /// tells the two variants apart.
    pub open spec fn fields(self) -> Map<Seq<char>, Json> {
        match self {
            UniqueFields::Track {
                artists,
                album,
                album_artists,
                popularity,
                number,
                disc_number,
            } => map![
                "itemType"@ => Json::Text("Track"@),
                "albumArtists"@ => text_array(album_artists@),
                "album"@ => Json::Text(album@),
                "popularity"@ => Json::Number(popularity as int),
                "number"@ => Json::Number(number as int),
                "discNumber"@ => Json::Number(disc_number as int),
                "artists"@ => text_array(artists@),
            ],
            UniqueFields::Episode { description, publish_time, show_name } => map![
                "itemType"@ => Json::Text("Episode"@),
                "description"@ => Json::Text(description@),
                "publishTime"@ => Json::Number(publish_time as int),
                "showName"@ => Json::Text(show_name@),
            ],
        }
    }
}

impl AudioItem {
    /// What a notification holds of the item, `track_text` being the text of
    /// its identifier.
    pub open spec fn fields(self, track_text: Seq<char>) -> Map<Seq<char>, Json> {
        map![
            "trackId"@ => Json::Text(track_text),
            "uri"@ => Json::Text(self.uri@),
            "name"@ => Json::Text(self.name@),
            "covers"@ => text_array(self.covers@),
            "language"@ => text_array(self.language@),
            "durationMs"@ => Json::Number(self.duration_ms as int),
            "isExplicit"@ => Json::Bool(self.is_explicit),
            "extraFields"@ => Json::Object(self.unique_fields.fields()),
        ]
    }
}

/// What a notification holds of an event that names a track and nothing
/// else.
pub open spec fn track_fields(track_text: Seq<char>) -> Map<Seq<char>, Json> {
    map!["trackId"@ => Json::Text(track_text)]
}

/// What a notification holds of an event that names a track and a position
/// in it.
pub open spec fn position_fields(track_text: Seq<char>, position_ms: u32) -> Map<
    Seq<char>,
    Json,
> {
    map![
        "trackId"@ => Json::Text(track_text),
        "positionMs"@ => Json::Number(position_ms as int),
    ]
}

/// What a notification holds of a session that was connected or
/// disconnected.
pub open spec fn session_fields(connection_id: Seq<char>, user_name: Seq<char>) -> Map<
    Seq<char>,
    Json,
> {
    map![
        "connectionId"@ => Json::Text(connection_id),
        "userName"@ => Json::Text(user_name),
    ]
}

impl PlayerEvent {
    /// The variant of the event.
    pub open spec fn spec_kind(&self) -> EventKind {
        match *self {
            PlayerEvent::PlayRequestIdChanged { .. } => EventKind::PlayRequestIdChanged,
            PlayerEvent::TrackChanged { .. } => EventKind::TrackChanged,
            PlayerEvent::Stopped { .. } => EventKind::Stopped,
            PlayerEvent::Playing { .. } => EventKind::Playing,
            PlayerEvent::Paused { .. } => EventKind::Paused,
            PlayerEvent::Loading { .. } => EventKind::Loading,
            PlayerEvent::Preloading { .. } => EventKind::Preloading,
            PlayerEvent::TimeToPreloadNextTrack { .. } => EventKind::TimeToPreloadNextTrack,
            PlayerEvent::EndOfTrack { .. } => EventKind::EndOfTrack,
            PlayerEvent::Unavailable { .. } => EventKind::Unavailable,
            PlayerEvent::VolumeChanged { .. } => EventKind::VolumeChanged,
            PlayerEvent::Seeked { .. } => EventKind::Seeked,
            PlayerEvent::PositionCorrection { .. } => EventKind::PositionCorrection,
            PlayerEvent::SessionConnected { .. } => EventKind::SessionConnected,
            PlayerEvent::SessionDisconnected { .. } => EventKind::SessionDisconnected,
            PlayerEvent::SessionClientChanged { .. } => EventKind::SessionClientChanged,
            PlayerEvent::ShuffleChanged { .. } => EventKind::ShuffleChanged,
            PlayerEvent::RepeatChanged { .. } => EventKind::RepeatChanged,
            PlayerEvent::AutoPlayChanged { .. } => EventKind::AutoPlayChanged,
            PlayerEvent::FilterExplicitContentChanged { .. } =>
                EventKind::FilterExplicitContentChanged,
        }
    }

    /// The track that the event names, if it names one.
    pub open spec fn spec_track_id(&self) -> Option<TrackId> {
        match *self {
            PlayerEvent::TrackChanged { audio_item } => Some(audio_item.track_id),
            PlayerEvent::Stopped { track_id }
            | PlayerEvent::Loading { track_id }
            | PlayerEvent::Preloading { track_id }
            | PlayerEvent::TimeToPreloadNextTrack { track_id }
            | PlayerEvent::EndOfTrack { track_id }
            | PlayerEvent::Unavailable { track_id } => Some(track_id),
            PlayerEvent::Playing { track_id, .. }
            | PlayerEvent::Paused { track_id, .. }
            | PlayerEvent::Seeked { track_id, .. }
            | PlayerEvent::PositionCorrection { track_id, .. } => Some(track_id),
            PlayerEvent::PlayRequestIdChanged { .. }
            | PlayerEvent::VolumeChanged { .. }
            | PlayerEvent::SessionConnected { .. }
            | PlayerEvent::SessionDisconnected { .. }
            | PlayerEvent::SessionClientChanged { .. }
            | PlayerEvent::ShuffleChanged { .. }
            | PlayerEvent::RepeatChanged { .. }
            | PlayerEvent::AutoPlayChanged { .. }
            | PlayerEvent::FilterExplicitContentChanged { .. } => None,
        }
    }

    /// The position in the track that the event reports, if it reports one.
    pub open spec fn position_ms(&self) -> Option<u32> {
        match *self {
            PlayerEvent::Playing { position_ms, .. }
            | PlayerEvent::Paused { position_ms, .. }
            | PlayerEvent::Seeked { position_ms, .. }
            | PlayerEvent::PositionCorrection { position_ms, .. } => Some(position_ms),
            PlayerEvent::PlayRequestIdChanged { .. }
            | PlayerEvent::TrackChanged { .. }
            | PlayerEvent::Stopped { .. }
            | PlayerEvent::Loading { .. }
            | PlayerEvent::Preloading { .. }
            | PlayerEvent::TimeToPreloadNextTrack { .. }
            | PlayerEvent::EndOfTrack { .. }
            | PlayerEvent::Unavailable { .. }
            | PlayerEvent::VolumeChanged { .. }
            | PlayerEvent::SessionConnected { .. }
            | PlayerEvent::SessionDisconnected { .. }
            | PlayerEvent::SessionClientChanged { .. }
            | PlayerEvent::ShuffleChanged { .. }
            | PlayerEvent::RepeatChanged { .. }
            | PlayerEvent::AutoPlayChanged { .. }
            | PlayerEvent::FilterExplicitContentChanged { .. } => None,
        }
    }

    /// What the notification of the event holds, `track_text` being the text
    /// of the identifier of the track that the event names. An event that
    /// names no track holds the same whatever `track_text` is.
    ///
    /// The model of the client is sent under the key `cleintModelName`.
    /// Receivers know the key by this spelling, so it is kept.
    pub open spec fn fields(self, track_text: Seq<char>) -> Map<Seq<char>, Json> {
        match self {
            PlayerEvent::PlayRequestIdChanged { play_request_id } => map![
                "playRequestId"@ => Json::Number(play_request_id as int),
            ],
            PlayerEvent::TrackChanged { audio_item } => audio_item.fields(track_text),
            PlayerEvent::Stopped { .. }
            | PlayerEvent::Loading { .. }
            | PlayerEvent::Preloading { .. }
            | PlayerEvent::TimeToPreloadNextTrack { .. }
            | PlayerEvent::EndOfTrack { .. }
            | PlayerEvent::Unavailable { .. } => track_fields(track_text),
            PlayerEvent::Playing { position_ms, .. }
            | PlayerEvent::Paused { position_ms, .. }
            | PlayerEvent::Seeked { position_ms, .. }
            | PlayerEvent::PositionCorrection { position_ms, .. } => position_fields(
                track_text,
                position_ms,
            ),
            PlayerEvent::VolumeChanged { volume } => map![
                "volume"@ => Json::Number(volume as int),
            ],
            PlayerEvent::SessionConnected { connection_id, user_name }
            | PlayerEvent::SessionDisconnected { connection_id, user_name } => session_fields(
                connection_id@,
                user_name@,
            ),
            PlayerEvent::SessionClientChanged {
                client_id,
                client_name,
                client_brand_name,
                client_model_name,
            } => map![
                "clientId"@ => Json::Text(client_id@),
                "clientName"@ => Json::Text(client_name@),
                "clientBrandName"@ => Json::Text(client_brand_name@),
                "cleintModelName"@ => Json::Text(client_model_name@),
            ],
            PlayerEvent::ShuffleChanged { shuffle } => map!["shuffle"@ => Json::Bool(shuffle)],
            PlayerEvent::RepeatChanged { repeat } => map!["repeat"@ => Json::Bool(repeat)],
            PlayerEvent::AutoPlayChanged { auto_play } => map![
                "autoPlay"@ => Json::Bool(auto_play),
            ],
            PlayerEvent::FilterExplicitContentChanged { filter } => map![
                "filter"@ => Json::Bool(filter),
            ],
        }
    }

    /// The variant of the event.
    #[verifier::when_used_as_spec(spec_kind)]
    pub fn kind(&self) -> (kind: EventKind)
        ensures
            kind == self.spec_kind(),
    {
        match self {
            PlayerEvent::PlayRequestIdChanged { .. } => EventKind::PlayRequestIdChanged,
            PlayerEvent::TrackChanged { .. } => EventKind::TrackChanged,
            PlayerEvent::Stopped { .. } => EventKind::Stopped,
            PlayerEvent::Playing { .. } => EventKind::Playing,
            PlayerEvent::Paused { .. } => EventKind::Paused,
            PlayerEvent::Loading { .. } => EventKind::Loading,
            PlayerEvent::Preloading { .. } => EventKind::Preloading,
            PlayerEvent::TimeToPreloadNextTrack { .. } => EventKind::TimeToPreloadNextTrack,
            PlayerEvent::EndOfTrack { .. } => EventKind::EndOfTrack,
            PlayerEvent::Unavailable { .. } => EventKind::Unavailable,
            PlayerEvent::VolumeChanged { .. } => EventKind::VolumeChanged,
            PlayerEvent::Seeked { .. } => EventKind::Seeked,
            PlayerEvent::PositionCorrection { .. } => EventKind::PositionCorrection,
            PlayerEvent::SessionConnected { .. } => EventKind::SessionConnected,
            PlayerEvent::SessionDisconnected { .. } => EventKind::SessionDisconnected,
            PlayerEvent::SessionClientChanged { .. } => EventKind::SessionClientChanged,
            PlayerEvent::ShuffleChanged { .. } => EventKind::ShuffleChanged,
            PlayerEvent::RepeatChanged { .. } => EventKind::RepeatChanged,
            PlayerEvent::AutoPlayChanged { .. } => EventKind::AutoPlayChanged,
            PlayerEvent::FilterExplicitContentChanged { .. } =>
                EventKind::FilterExplicitContentChanged,
        }
    }

    /// The track that the event names, if it names one.
    #[verifier::when_used_as_spec(spec_track_id)]
    pub fn track_id(&self) -> (track_id: Option<TrackId>)
        ensures
            track_id == self.spec_track_id(),
    {
        match self {
            PlayerEvent::TrackChanged { audio_item } => Some(audio_item.track_id),
            PlayerEvent::Stopped { track_id }
            | PlayerEvent::Loading { track_id }
            | PlayerEvent::Preloading { track_id }
            | PlayerEvent::TimeToPreloadNextTrack { track_id }
            | PlayerEvent::EndOfTrack { track_id }
            | PlayerEvent::Unavailable { track_id } => Some(*track_id),
            PlayerEvent::Playing { track_id, .. }
            | PlayerEvent::Paused { track_id, .. }
            | PlayerEvent::Seeked { track_id, .. }
            | PlayerEvent::PositionCorrection { track_id, .. } => Some(*track_id),
            PlayerEvent::PlayRequestIdChanged { .. }
            | PlayerEvent::VolumeChanged { .. }
            | PlayerEvent::SessionConnected { .. }
            | PlayerEvent::SessionDisconnected { .. }
            | PlayerEvent::SessionClientChanged { .. }
            | PlayerEvent::ShuffleChanged { .. }
            | PlayerEvent::RepeatChanged { .. }
            | PlayerEvent::AutoPlayChanged { .. }
            | PlayerEvent::FilterExplicitContentChanged { .. } => None,
        }
    }
}

} // verus!
