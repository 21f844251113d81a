//! From an event to its notification.
//!
//! An event that names a track is told with the track's identifier as text.
//! Encoding the identifier may fail, and then the event has no notification:
//! it is dropped, with a warning that names its variant.

use crate::event::{AudioItem, EventKind, PlayerEvent, UniqueFields};
use crate::json::{
    boolean, new_object, object, put, signed, strings, text, unsigned, value_json, Json,
};
use crate::track_id::{base62_text, InvalidTrackId};
use vstd::prelude::*;

verus! {

/// What is told of one event: a name and a JSON object.
#[derive(Debug, PartialEq)]
pub struct Notification {
    pub name: String,
    pub payload: serde_json::Value,
}

/// Why an event was dropped without a notification.
#[derive(Clone, Debug, PartialEq, Eq)]
pub enum Dropped {
    /// The identifier of the track that the event names has no text.
    InvalidTrackId { variant: EventKind, detail: String },
    /// The payload could not be written as text.
    NotSerialized { detail: String },
}

impl Notification {
    /// Whether the notification has the given name and, as its payload, the
    /// object with the given fields.
    pub open spec fn holds(&self, name: Seq<char>, fields: Map<Seq<char>, Json>) -> bool {
        &&& self.name@ == name
        &&& value_json(self.payload) == Json::Object(fields)
    }

    /// Whether this is the notification of `event`, `track_text` being the
    /// text of the identifier of the track that the event names.
    pub open spec fn tells(&self, event: PlayerEvent, track_text: Seq<char>) -> bool {
        self.holds(event.kind().spec_name(), event.fields(track_text))
    }
}

impl Dropped {
    /// The warning to record for the dropped event.
    pub open spec fn spec_warning(&self) -> Seq<char> {
        match *self {
            Dropped::InvalidTrackId { variant, detail } => "PlayerEvent::"@
                + variant.spec_variant() + ": Invalid track id: "@ + detail@,
            Dropped::NotSerialized { detail } => "Failed to serialize PlayerEvent: "@ + detail@,
        }
    }

    /// Whether the event was dropped because the identifier of its track has
    /// no text, the event being of the given variant and the encoder having
    /// reported `detail`.
    pub open spec fn is_invalid_track(&self, variant: EventKind, detail: Seq<char>) -> bool {
        *self matches Dropped::InvalidTrackId { variant: v, detail: d } && v == variant && d@
            == detail
    }

    /// Whether the event was dropped because the identifier of its track has
    /// no text, the event being of the given variant.
    pub open spec fn blames_track_of(&self, variant: EventKind) -> bool {
        *self matches Dropped::InvalidTrackId { variant: v, .. } && v == variant
    }

    /// Whether the event was dropped because its payload could not be
    /// written, the reason carrying the text of what the serializer
    /// reported.
    pub open spec fn reports(&self, error: serde_json::Error) -> bool {
        *self matches Dropped::NotSerialized { detail }
            && vstd::string::to_string_from_display_ensures::<serde_json::Error>(&error, detail)
    }

    /// The warning to record for the dropped event.
    pub fn warning(&self) -> (warning: String)
        ensures
            warning@ == self.spec_warning(),
    {
        match self {
            Dropped::InvalidTrackId { variant, detail } => {
                let mut warning = "PlayerEvent::".to_owned();
                warning.append(variant.variant());
                warning.append(": Invalid track id: ");
                warning.append(detail.as_str());
                warning
            },
            Dropped::NotSerialized { detail } => {
                let mut warning = "Failed to serialize PlayerEvent: ".to_owned();
                warning.append(detail.as_str());
                warning
            },
        }
    }
}

/// Builds the object that a notification holds of the fields that tracks and
/// episodes do not have in common.
pub fn unique_fields_payload(fields: &UniqueFields) -> (value: serde_json::Value)
    ensures
        value_json(value) == Json::Object(fields.fields()),
{
    let mut payload = new_object();
    match fields {
        UniqueFields::Track { artists, album, album_artists, popularity, number, disc_number } => {
            put(&mut payload, "itemType", text("Track"));
            put(&mut payload, "albumArtists", strings(album_artists));
            put(&mut payload, "album", text(album.as_str()));
            put(&mut payload, "popularity", unsigned(*popularity as u64));
            put(&mut payload, "number", unsigned(*number as u64));
            put(&mut payload, "discNumber", unsigned(*disc_number as u64));
            put(&mut payload, "artists", strings(artists));
        },
        UniqueFields::Episode { description, publish_time, show_name } => {
            put(&mut payload, "itemType", text("Episode"));
            put(&mut payload, "description", text(description.as_str()));
            put(&mut payload, "publishTime", signed(*publish_time));
            put(&mut payload, "showName", text(show_name.as_str()));
        },
    }
    object(payload)
}

/// Builds the object that a notification holds of a track or an episode,
/// `track_text` being the text of its identifier.
pub fn audio_item_payload(item: &AudioItem, track_text: &str) -> (value: serde_json::Value)
    ensures
        value_json(value) == Json::Object(item.fields(track_text@)),
{
    let mut payload = new_object();
    put(&mut payload, "trackId", text(track_text));
    put(&mut payload, "uri", text(item.uri.as_str()));
    put(&mut payload, "name", text(item.name.as_str()));
    put(&mut payload, "covers", strings(&item.covers));
    put(&mut payload, "language", strings(&item.language));
    put(&mut payload, "durationMs", unsigned(item.duration_ms as u64));
    put(&mut payload, "isExplicit", boolean(item.is_explicit));
    put(&mut payload, "extraFields", unique_fields_payload(&item.unique_fields));
    object(payload)
}

/// Builds the payload of the notification of `event`, `track_text` being the
/// text of the identifier of the track that the event names. It is not read
/// for an event that names no track.
pub fn payload(event: &PlayerEvent, track_text: &str) -> (value: serde_json::Value)
    ensures
        value_json(value) == Json::Object(event.fields(track_text@)),
{
    let mut payload = new_object();
    match event {
        PlayerEvent::PlayRequestIdChanged { play_request_id } => {
            put(&mut payload, "playRequestId", unsigned(*play_request_id));
        },
        PlayerEvent::TrackChanged { audio_item } => {
            return audio_item_payload(audio_item, track_text);
        },
        PlayerEvent::Stopped { .. }
        | PlayerEvent::Loading { .. }
        | PlayerEvent::Preloading { .. }
        | PlayerEvent::TimeToPreloadNextTrack { .. }
        | PlayerEvent::EndOfTrack { .. }
        | PlayerEvent::Unavailable { .. } => {
            put(&mut payload, "trackId", text(track_text));
        },
        PlayerEvent::Playing { position_ms, .. }
        | PlayerEvent::Paused { position_ms, .. }
        | PlayerEvent::Seeked { position_ms, .. }
        | PlayerEvent::PositionCorrection { position_ms, .. } => {
            put(&mut payload, "trackId", text(track_text));
            put(&mut payload, "positionMs", unsigned(*position_ms as u64));
        },
        PlayerEvent::VolumeChanged { volume } => {
            put(&mut payload, "volume", unsigned(*volume as u64));
        },
        PlayerEvent::SessionConnected { connection_id, user_name }
        | PlayerEvent::SessionDisconnected { connection_id, user_name } => {
            put(&mut payload, "connectionId", text(connection_id.as_str()));
            put(&mut payload, "userName", text(user_name.as_str()));
        },
        PlayerEvent::SessionClientChanged {
            client_id,
            client_name,
            client_brand_name,
            client_model_name,
        } => {
            put(&mut payload, "clientId", text(client_id.as_str()));
            put(&mut payload, "clientName", text(client_name.as_str()));
            put(&mut payload, "clientBrandName", text(client_brand_name.as_str()));
            put(&mut payload, "cleintModelName", text(client_model_name.as_str()));
        },
        PlayerEvent::ShuffleChanged { shuffle } => {
            put(&mut payload, "shuffle", boolean(*shuffle));
        },
        PlayerEvent::RepeatChanged { repeat } => {
            put(&mut payload, "repeat", boolean(*repeat));
        },
        PlayerEvent::AutoPlayChanged { auto_play } => {
            put(&mut payload, "autoPlay", boolean(*auto_play));
        },
        PlayerEvent::FilterExplicitContentChanged { filter } => {
            put(&mut payload, "filter", boolean(*filter));
        },
    }
    object(payload)
}

/// The text of an encoded identifier, and no text where encoding failed.
pub open spec fn encoded_text(encoded: Result<String, InvalidTrackId>) -> Seq<char> {
    match encoded {
        Ok(text) => text@,
        Err(_) => Seq::empty(),
    }
}

/// Translates `event`, `encoded` being the outcome of encoding the
/// identifier of the track that it names.
///
/// An event that names a track whose identifier has no text is dropped.
/// Every other event has a notification: its name is that of the variant,
/// its payload holds the fields of the event. For an event that names no
/// track `encoded` is not read.
pub fn translate_encoded(event: &PlayerEvent, encoded: Result<String, InvalidTrackId>) -> (result:
    Result<Notification, Dropped>)
    ensures
        event.track_id() is Some && encoded is Err ==> result is Err
            && result->Err_0.is_invalid_track(event.kind(), encoded->Err_0.detail@),
        event.track_id() is None || encoded is Ok ==> result is Ok && result->Ok_0.tells(
            *event,
            encoded_text(encoded),
        ),
{
    let kind = event.kind();
    match encoded {
        Ok(track_text) => Ok(
            Notification {
                name: kind.name().to_owned(),
                payload: payload(event, track_text.as_str()),
            },
        ),
        Err(invalid) => match event.track_id() {
            Some(_) => Err(Dropped::InvalidTrackId { variant: kind, detail: invalid.detail }),
            None => {
                let no_text = String::new();
                Ok(
                    Notification {
                        name: kind.name().to_owned(),
                        payload: payload(event, no_text.as_str()),
                    },
                )
            },
        },
    }
}

impl PlayerEvent {
    /// The text of the identifier of the track that the event names, and no
    /// text for an event that names none.
    pub open spec fn track_text(&self) -> Seq<char> {
        match self.track_id() {
            Some(track_id) => base62_text(track_id.id),
            None => Seq::empty(),
        }
    }

    /// Whether the event can be told: it names no track, or a track whose
    /// identifier has a text.
    pub open spec fn can_be_told(&self) -> bool {
        match self.track_id() {
            Some(track_id) => track_id.has_text(),
            None => true,
        }
    }
}

/// Translates `event` into its notification.
///
/// An event that names no track always has one. An event that names a track
/// has one if the track's identifier has a text, which is its value in base
/// 62; if not, the event is dropped, and the reason names its variant.
pub fn translate(event: &PlayerEvent) -> (result: Result<Notification, Dropped>)
    ensures
        result is Ok <==> event.can_be_told(),
        result matches Ok(notification) ==> notification.tells(*event, event.track_text()),
        result matches Err(dropped) ==> dropped.blames_track_of(event.kind()),
{
    let encoded = match event.track_id() {
        Some(track_id) => track_id.encode(),
        None => Ok(String::new()),
    };
    translate_encoded(event, encoded)
}

} // verus!
