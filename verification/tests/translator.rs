use player_events::event::{AudioItem, EventKind, PlayerEvent, UniqueFields};
use player_events::track_id::{InvalidTrackId, TrackId};
use player_events::translate::{
    audio_item_payload, payload, translate, translate_encoded, unique_fields_payload, Dropped,
    Notification,
};
use serde_json::Value;

const TRACK: u128 = 238762092608182713602505436543891614649;
const TRACK_TEXT: &str = "5sWHDYs0csV6RS48xBl0tH";

fn track() -> TrackId {
    TrackId { id: TRACK }
}

fn json(text: &str) -> Value {
    serde_json::from_str(text).expect("the fixture is JSON")
}

fn told(event: &PlayerEvent) -> Notification {
    translate(event).expect("the event has a notification")
}

fn failed() -> Result<String, InvalidTrackId> {
    Err(InvalidTrackId { detail: "invalid utf-8".to_string() })
}

fn song() -> AudioItem {
    AudioItem {
        track_id: track(),
        uri: "spotify:track:5sWHDYs0csV6RS48xBl0tH".to_string(),
        name: "A \"quoted\" song".to_string(),
        covers: vec!["https://i.example/large".to_string(), "https://i.example/small".to_string()],
        language: vec!["en".to_string()],
        duration_ms: 215000,
        is_explicit: true,
        unique_fields: UniqueFields::Track {
            artists: vec!["First".to_string(), "Second".to_string()],
            album: "The Album".to_string(),
            album_artists: vec!["First".to_string()],
            popularity: 73,
            number: 4,
            disc_number: 1,
        },
    }
}

fn episode() -> AudioItem {
    AudioItem {
        track_id: TrackId { id: 204841891221366092811751085145916697048 },
        uri: "spotify:episode:4GNcXTGWmnZ3ySrqvol3o4".to_string(),
        name: "Episode 12".to_string(),
        covers: vec![],
        language: vec!["de".to_string(), "en".to_string()],
        duration_ms: 3600000,
        is_explicit: false,
        unique_fields: UniqueFields::Episode {
            description: "Talk".to_string(),
            publish_time: -86400,
            show_name: "The Show".to_string(),
        },
    }
}

fn all_kinds() -> Vec<EventKind> {
    vec![
        EventKind::PlayRequestIdChanged,
        EventKind::TrackChanged,
        EventKind::Stopped,
        EventKind::Playing,
        EventKind::Paused,
        EventKind::Loading,
        EventKind::Preloading,
        EventKind::TimeToPreloadNextTrack,
        EventKind::EndOfTrack,
        EventKind::Unavailable,
        EventKind::VolumeChanged,
        EventKind::Seeked,
        EventKind::PositionCorrection,
        EventKind::SessionConnected,
        EventKind::SessionDisconnected,
        EventKind::SessionClientChanged,
        EventKind::ShuffleChanged,
        EventKind::RepeatChanged,
        EventKind::AutoPlayChanged,
        EventKind::FilterExplicitContentChanged,
    ]
}

fn track_events() -> Vec<PlayerEvent> {
    vec![
        PlayerEvent::TrackChanged { audio_item: song() },
        PlayerEvent::Stopped { track_id: track() },
        PlayerEvent::Playing { track_id: track(), position_ms: 1 },
        PlayerEvent::Paused { track_id: track(), position_ms: 2 },
        PlayerEvent::Loading { track_id: track() },
        PlayerEvent::Preloading { track_id: track() },
        PlayerEvent::TimeToPreloadNextTrack { track_id: track() },
        PlayerEvent::EndOfTrack { track_id: track() },
        PlayerEvent::Unavailable { track_id: track() },
        PlayerEvent::Seeked { track_id: track(), position_ms: 3 },
        PlayerEvent::PositionCorrection { track_id: track(), position_ms: 4 },
    ]
}

fn other_events() -> Vec<PlayerEvent> {
    vec![
        PlayerEvent::PlayRequestIdChanged { play_request_id: 9 },
        PlayerEvent::VolumeChanged { volume: 100 },
        PlayerEvent::SessionConnected { connection_id: "c".to_string(), user_name: "u".to_string() },
        PlayerEvent::SessionDisconnected {
            connection_id: "c".to_string(),
            user_name: "u".to_string(),
        },
        PlayerEvent::SessionClientChanged {
            client_id: "i".to_string(),
            client_name: "n".to_string(),
            client_brand_name: "b".to_string(),
            client_model_name: "m".to_string(),
        },
        PlayerEvent::ShuffleChanged { shuffle: true },
        PlayerEvent::RepeatChanged { repeat: true },
        PlayerEvent::AutoPlayChanged { auto_play: true },
        PlayerEvent::FilterExplicitContentChanged { filter: true },
    ]
}

#[test]
fn play_request_id_changed_is_told() {
    let n = told(&PlayerEvent::PlayRequestIdChanged { play_request_id: u64::MAX });
    assert_eq!(n.name, "playRequestId");
    assert_eq!(n.payload, json(r#"{"playRequestId":18446744073709551615}"#));
}

#[test]
fn track_changed_tells_a_track() {
    let n = told(&PlayerEvent::TrackChanged { audio_item: song() });
    assert_eq!(n.name, "trackChanged");
    assert_eq!(
        n.payload,
        json(
            r#"{
                "trackId": "5sWHDYs0csV6RS48xBl0tH",
                "uri": "spotify:track:5sWHDYs0csV6RS48xBl0tH",
                "name": "A \"quoted\" song",
                "covers": ["https://i.example/large", "https://i.example/small"],
                "language": ["en"],
                "durationMs": 215000,
                "isExplicit": true,
                "extraFields": {
                    "itemType": "Track",
                    "albumArtists": ["First"],
                    "album": "The Album",
                    "popularity": 73,
                    "number": 4,
                    "discNumber": 1,
                    "artists": ["First", "Second"]
                }
            }"#
        )
    );
}

#[test]
fn track_changed_tells_an_episode() {
    let n = told(&PlayerEvent::TrackChanged { audio_item: episode() });
    assert_eq!(n.name, "trackChanged");
    assert_eq!(
        n.payload,
        json(
            r#"{
                "trackId": "4GNcXTGWmnZ3ySrqvol3o4",
                "uri": "spotify:episode:4GNcXTGWmnZ3ySrqvol3o4",
                "name": "Episode 12",
                "covers": [],
                "language": ["de", "en"],
                "durationMs": 3600000,
                "isExplicit": false,
                "extraFields": {
                    "itemType": "Episode",
                    "description": "Talk",
                    "publishTime": -86400,
                    "showName": "The Show"
                }
            }"#
        )
    );
}

#[test]
fn events_that_only_name_a_track_are_told() {
    let id = json(r#"{"trackId":"5sWHDYs0csV6RS48xBl0tH"}"#);
    let cases = vec![
        (PlayerEvent::Stopped { track_id: track() }, "stopped"),
        (PlayerEvent::Loading { track_id: track() }, "loading"),
        (PlayerEvent::Preloading { track_id: track() }, "preloading"),
        (PlayerEvent::TimeToPreloadNextTrack { track_id: track() }, "timeToPreloadNextTrack"),
        (PlayerEvent::EndOfTrack { track_id: track() }, "endOfTrack"),
        (PlayerEvent::Unavailable { track_id: track() }, "unavailable"),
    ];
    for (event, name) in cases {
        let n = told(&event);
        assert_eq!(n.name, name);
        assert_eq!(n.payload, id);
    }
}

#[test]
fn position_is_told_as_given() {
    let expected = json(r#"{"trackId":"5sWHDYs0csV6RS48xBl0tH","positionMs":15234}"#);
    let cases = vec![
        (PlayerEvent::Playing { track_id: track(), position_ms: 15234 }, "playing"),
        (PlayerEvent::Paused { track_id: track(), position_ms: 15234 }, "paused"),
        (PlayerEvent::Seeked { track_id: track(), position_ms: 15234 }, "seeked"),
        (
            PlayerEvent::PositionCorrection { track_id: track(), position_ms: 15234 },
            "positionCorrection",
        ),
    ];
    for (event, name) in cases {
        let n = told(&event);
        assert_eq!(n.name, name);
        assert_eq!(n.payload, expected);
        assert_eq!(n.payload["positionMs"], Value::from(15234u32));
    }
}

#[test]
fn position_limits_are_told() {
    let n = told(&PlayerEvent::Seeked { track_id: TrackId { id: 0 }, position_ms: u32::MAX });
    assert_eq!(
        n.payload,
        json(r#"{"trackId":"0000000000000000000000","positionMs":4294967295}"#)
    );
    let n = told(&PlayerEvent::Playing { track_id: TrackId { id: 0 }, position_ms: 0 });
    assert_eq!(n.payload["positionMs"], Value::from(0u32));
}

#[test]
fn volume_changed_is_told() {
    let n = told(&PlayerEvent::VolumeChanged { volume: 32768 });
    assert_eq!(n.name, "volumeChanged");
    assert_eq!(n.payload, json(r#"{"volume":32768}"#));
    let n = told(&PlayerEvent::VolumeChanged { volume: u16::MAX });
    assert_eq!(n.payload, json(r#"{"volume":65535}"#));
}

#[test]
fn sessions_are_told() {
    let expected = json(r#"{"connectionId":"abc-1","userName":"listener"}"#);
    let n = told(&PlayerEvent::SessionConnected {
        connection_id: "abc-1".to_string(),
        user_name: "listener".to_string(),
    });
    assert_eq!(n.name, "sessionConnected");
    assert_eq!(n.payload, expected);
    let n = told(&PlayerEvent::SessionDisconnected {
        connection_id: "abc-1".to_string(),
        user_name: "listener".to_string(),
    });
    assert_eq!(n.name, "sessionDisconnected");
    assert_eq!(n.payload, expected);
}

#[test]
fn session_client_keeps_the_spelling_of_its_keys() {
    let n = told(&PlayerEvent::SessionClientChanged {
        client_id: "id".to_string(),
        client_name: "phone".to_string(),
        client_brand_name: "brand".to_string(),
        client_model_name: "model".to_string(),
    });
    assert_eq!(n.name, "sessionClientChanged");
    assert_eq!(
        n.payload,
        json(
            r#"{"clientId":"id","clientName":"phone","clientBrandName":"brand","cleintModelName":"model"}"#
        )
    );
    assert!(n.payload.get("clientModelName").is_none());
}

#[test]
fn switches_are_told() {
    let n = told(&PlayerEvent::ShuffleChanged { shuffle: true });
    assert_eq!(n.name, "shuffleChanged");
    assert_eq!(n.payload, json(r#"{"shuffle":true}"#));
    let n = told(&PlayerEvent::RepeatChanged { repeat: false });
    assert_eq!(n.name, "repeatChanged");
    assert_eq!(n.payload, json(r#"{"repeat":false}"#));
    let n = told(&PlayerEvent::AutoPlayChanged { auto_play: true });
    assert_eq!(n.name, "autoPlayChanged");
    assert_eq!(n.payload, json(r#"{"autoPlay":true}"#));
    let n = told(&PlayerEvent::FilterExplicitContentChanged { filter: false });
    assert_eq!(n.name, "filterExplicitContentChanged");
    assert_eq!(n.payload, json(r#"{"filter":false}"#));
}

#[test]
fn every_kind_has_a_name() {
    let mut seen: Vec<&str> = Vec::new();
    for kind in all_kinds() {
        let name = kind.name();
        assert!(!name.is_empty());
        assert!(!kind.variant().is_empty());
        assert!(!seen.contains(&name));
        seen.push(name);
    }
    assert_eq!(seen.len(), 20);
}

#[test]
fn every_event_is_named_after_its_kind() {
    for event in track_events().into_iter().chain(other_events()) {
        let n = told(&event);
        assert_eq!(n.name, event.kind().name());
        assert!(n.payload.is_object());
    }
}

#[test]
fn kinds_and_tracks_are_read_from_events() {
    assert_eq!(PlayerEvent::Stopped { track_id: track() }.kind(), EventKind::Stopped);
    assert_eq!(PlayerEvent::Stopped { track_id: track() }.track_id(), Some(track()));
    assert_eq!(
        PlayerEvent::TrackChanged { audio_item: episode() }.track_id(),
        Some(TrackId { id: 204841891221366092811751085145916697048 })
    );
    assert_eq!(PlayerEvent::VolumeChanged { volume: 1 }.kind(), EventKind::VolumeChanged);
    for event in track_events() {
        assert!(event.track_id().is_some());
    }
    for event in other_events() {
        assert_eq!(event.track_id(), None);
    }
}

#[test]
fn track_without_text_drops_the_event() {
    for event in track_events() {
        let dropped = translate_encoded(&event, failed()).expect_err("the event is dropped");
        assert_eq!(
            dropped,
            Dropped::InvalidTrackId { variant: event.kind(), detail: "invalid utf-8".to_string() }
        );
    }
}

#[test]
fn events_without_track_ignore_the_encoding() {
    for event in other_events() {
        let with_failure = translate_encoded(&event, failed()).expect("no track is named");
        let with_text = translate_encoded(&event, Ok("ignored".to_string())).expect("told");
        assert_eq!(with_failure, with_text);
        assert_eq!(with_failure, told(&event));
    }
}

#[test]
fn the_given_text_names_the_track() {
    let event = PlayerEvent::Paused { track_id: track(), position_ms: 7 };
    let n = translate_encoded(&event, Ok("some text".to_string())).expect("told");
    assert_eq!(n.name, "paused");
    assert_eq!(n.payload, json(r#"{"trackId":"some text","positionMs":7}"#));
    let n = translate_encoded(&event, Ok(TRACK_TEXT.to_string())).expect("told");
    assert_eq!(n, told(&event));
}

#[test]
fn warning_names_the_variant() {
    let dropped = Dropped::InvalidTrackId {
        variant: EventKind::Stopped,
        detail: "invalid utf-8".to_string(),
    };
    assert_eq!(dropped.warning(), "PlayerEvent::Stopped: Invalid track id: invalid utf-8");
    let dropped = Dropped::InvalidTrackId {
        variant: EventKind::TimeToPreloadNextTrack,
        detail: String::new(),
    };
    assert_eq!(dropped.warning(), "PlayerEvent::TimeToPreloadNextTrack: Invalid track id: ");
    for event in track_events() {
        let dropped = translate_encoded(&event, failed()).expect_err("dropped");
        let expected =
            format!("PlayerEvent::{}: Invalid track id: invalid utf-8", event.kind().variant());
        assert_eq!(dropped.warning(), expected);
    }
}

#[test]
fn warning_tells_what_the_serializer_reported() {
    let dropped = Dropped::NotSerialized { detail: "key must be a string".to_string() };
    assert_eq!(dropped.warning(), "Failed to serialize PlayerEvent: key must be a string");
}

#[test]
fn variants_are_spelled_as_declared() {
    for kind in all_kinds() {
        assert_eq!(kind.variant(), format!("{:?}", kind));
    }
}

#[test]
fn unique_fields_of_a_track() {
    let fields = match song().unique_fields {
        fields @ UniqueFields::Track { .. } => fields,
        UniqueFields::Episode { .. } => unreachable!(),
    };
    let value = unique_fields_payload(&fields);
    assert_eq!(value["itemType"], Value::from("Track"));
    let object = value.as_object().expect("an object");
    let keys: Vec<&str> = object.keys().map(|k| k.as_str()).collect();
    assert_eq!(
        keys,
        vec!["album", "albumArtists", "artists", "discNumber", "itemType", "number", "popularity"]
    );
    assert!(object.get("description").is_none());
    assert!(object.get("publishTime").is_none());
    assert!(object.get("showName").is_none());
}

#[test]
fn unique_fields_of_an_episode() {
    let value = unique_fields_payload(&episode().unique_fields);
    assert_eq!(value["itemType"], Value::from("Episode"));
    assert_eq!(value["publishTime"], Value::from(-86400i64));
    let object = value.as_object().expect("an object");
    let keys: Vec<&str> = object.keys().map(|k| k.as_str()).collect();
    assert_eq!(keys, vec!["description", "itemType", "publishTime", "showName"]);
    for other in ["album", "albumArtists", "artists", "discNumber", "number", "popularity"] {
        assert!(object.get(other).is_none());
    }
}

#[test]
fn publish_time_limits_are_told() {
    for time in [i64::MIN, -1, 0, 1, i64::MAX] {
        let value = unique_fields_payload(&UniqueFields::Episode {
            description: String::new(),
            publish_time: time,
            show_name: String::new(),
        });
        assert_eq!(value["publishTime"], Value::from(time));
    }
}

#[test]
fn audio_item_is_told_with_the_given_text() {
    let value = audio_item_payload(&song(), "text");
    assert_eq!(value["trackId"], Value::from("text"));
    assert_eq!(value["extraFields"], unique_fields_payload(&song().unique_fields));
    assert_eq!(value.as_object().expect("an object").len(), 8);
}

#[test]
fn payload_agrees_with_the_translation() {
    for event in track_events() {
        assert_eq!(payload(&event, TRACK_TEXT), told(&event).payload);
    }
    for event in other_events() {
        assert_eq!(payload(&event, ""), told(&event).payload);
    }
}

#[test]
fn empty_lists_and_strings_are_told() {
    let item = AudioItem {
        track_id: TrackId { id: 0 },
        uri: String::new(),
        name: String::new(),
        covers: vec![],
        language: vec![],
        duration_ms: 0,
        is_explicit: false,
        unique_fields: UniqueFields::Track {
            artists: vec![],
            album: String::new(),
            album_artists: vec![],
            popularity: 0,
            number: 0,
            disc_number: 0,
        },
    };
    let n = told(&PlayerEvent::TrackChanged { audio_item: item });
    assert_eq!(
        n.payload,
        json(
            r#"{"trackId":"0000000000000000000000","uri":"","name":"","covers":[],"language":[],
                "durationMs":0,"isExplicit":false,
                "extraFields":{"itemType":"Track","albumArtists":[],"album":"","popularity":0,
                               "number":0,"discNumber":0,"artists":[]}}"#
        )
    );
}
