//! What holds of every event and of every notification.

use crate::event::{EventKind, PlayerEvent, SinkStatus, UniqueFields};
use crate::json::{value_json, Json};
use crate::listener::Step;
use crate::track_id::{base62_alphabet, base62_digits, base62_text};
use crate::translate::Notification;
use vstd::prelude::*;

verus! {

/// No kind of event has the empty name.
pub proof fn every_name_is_non_empty(kind: EventKind)
    ensures
        kind.spec_name().len() > 0,
{
    reveal_strlit("playRequestId");
    reveal_strlit("trackChanged");
    reveal_strlit("stopped");
    reveal_strlit("playing");
    reveal_strlit("paused");
    reveal_strlit("loading");
    reveal_strlit("preloading");
    reveal_strlit("timeToPreloadNextTrack");
    reveal_strlit("endOfTrack");
    reveal_strlit("unavailable");
    reveal_strlit("volumeChanged");
    reveal_strlit("seeked");
    reveal_strlit("positionCorrection");
    reveal_strlit("sessionConnected");
    reveal_strlit("sessionDisconnected");
    reveal_strlit("sessionClientChanged");
    reveal_strlit("shuffleChanged");
    reveal_strlit("repeatChanged");
    reveal_strlit("autoPlayChanged");
    reveal_strlit("filterExplicitContentChanged");
}

/// The notification of an event holds the fields of its kind and no others,
/// whatever the event carries.
pub proof fn payload_has_the_fields_of_its_kind(event: PlayerEvent, track_text: Seq<char>)
    ensures
        event.fields(track_text).dom() =~= event.kind().spec_keys(),
{
}

/// The notification of an event has a name, and for its payload an object
/// with the fields of the event's kind and no others.
pub proof fn notification_is_named_and_complete(
    notification: Notification,
    event: PlayerEvent,
    track_text: Seq<char>,
)
    requires
        notification.tells(event, track_text),
    ensures
        notification.name@.len() > 0,
        value_json(notification.payload) is Object,
        value_json(notification.payload)->Object_0.dom() =~= event.kind().spec_keys(),
{
    every_name_is_non_empty(event.kind());
    payload_has_the_fields_of_its_kind(event, track_text);
}

/// The events that name a track are those of the eleven kinds that do.
pub proof fn track_is_named_by_kind(event: PlayerEvent)
    ensures
        event.track_id() is Some <==> event.kind().spec_has_track(),
{
}

/// An event that names no track can always be told.
pub proof fn event_without_track_can_be_told(event: PlayerEvent)
    requires
        !event.kind().spec_has_track(),
    ensures
        event.can_be_told(),
{
}

/// An event that names a track whose identifier has no text gives no line:
/// the listener drops it, for one reason, which names its variant.
pub proof fn track_without_text_gives_no_line(event: PlayerEvent, step: Step)
    requires
        event.kind().spec_has_track(),
        !event.track_id()->Some_0.has_text(),
        step.answers(event),
    ensures
        !(step is Emit),
        step is Skip,
        step->Skip_0.blames_track_of(event.kind()),
{
}

/// The fields that tracks and episodes do not have in common tell which of
/// the two they describe, and hold nothing of the other.
pub proof fn unique_fields_tell_their_type(fields: UniqueFields)
    ensures
        fields is Track ==> {
            &&& fields.fields()["itemType"@] == Json::Text("Track"@)
            &&& fields.fields().dom() =~= set![
                "itemType"@,
                "albumArtists"@,
                "album"@,
                "popularity"@,
                "number"@,
                "discNumber"@,
                "artists"@,
            ]
            &&& !fields.fields().contains_key("description"@)
            &&& !fields.fields().contains_key("publishTime"@)
            &&& !fields.fields().contains_key("showName"@)
        },
        fields is Episode ==> {
            &&& fields.fields()["itemType"@] == Json::Text("Episode"@)
            &&& fields.fields().dom() =~= set![
                "itemType"@,
                "description"@,
                "publishTime"@,
                "showName"@,
            ]
            &&& !fields.fields().contains_key("albumArtists"@)
            &&& !fields.fields().contains_key("album"@)
            &&& !fields.fields().contains_key("popularity"@)
            &&& !fields.fields().contains_key("number"@)
            &&& !fields.fields().contains_key("discNumber"@)
            &&& !fields.fields().contains_key("artists"@)
        },
{
    reveal_strlit("itemType");
    reveal_strlit("albumArtists");
    reveal_strlit("album");
    reveal_strlit("popularity");
    reveal_strlit("number");
    reveal_strlit("discNumber");
    reveal_strlit("artists");
    reveal_strlit("description");
    reveal_strlit("publishTime");
    reveal_strlit("showName");
    assert("itemType"@.len() == 8 && "showName"@.len() == 8);
    assert("albumArtists"@.len() == 12 && "album"@.len() == 5 && "popularity"@.len() == 10);
    assert("number"@.len() == 6 && "discNumber"@.len() == 10 && "artists"@.len() == 7);
    assert("description"@.len() == 11 && "publishTime"@.len() == 11);
    assert("itemType"@[0] == 'i' && "showName"@[0] == 's');
}

/// An event that reports a position tells it under `positionMs`, as the
/// number it was given.
pub proof fn position_is_told(event: PlayerEvent, track_text: Seq<char>)
    requires
        event is Playing || event is Paused || event is Seeked || event is PositionCorrection,
    ensures
        event.position_ms() is Some,
        event.fields(track_text).contains_key("positionMs"@),
        event.fields(track_text)["positionMs"@] == Json::Number(
            event.position_ms()->Some_0 as int,
        ),
{
}

/// The notification of the state of the audio output holds the name of the
/// state under `sinkStatus`, and nothing else.
pub proof fn sink_status_is_told(status: SinkStatus)
    ensures
        status.fields().dom() =~= set!["sinkStatus"@],
        status.fields()["sinkStatus"@] == Json::Text(status.spec_name()),
{
}

/// Written in base 62 to a given width, a number has that many characters,
/// each of them one of the sixty-two digits.
pub proof fn base62_digits_are_digits(n: nat, width: nat)
    ensures
        base62_digits(n, width).len() == width,
        forall|i: int|
            0 <= i < width ==> base62_alphabet().contains(#[trigger] base62_digits(n, width)[i]),
    decreases width,
{
    if width > 0 {
        reveal_strlit("0123456789abcdefghijklmnopqrstuvwxyzABCDEFGHIJKLMNOPQRSTUVWXYZ");
        base62_digits_are_digits(n / 62, (width - 1) as nat);
        assert(base62_alphabet().len() == 62);
        let last = base62_alphabet()[(n % 62) as int];
        assert(base62_alphabet().contains(last));
    }
}

/// The text of an identifier has twenty-two characters, each of them one of
/// the sixty-two digits.
pub proof fn track_text_is_22_digits(id: u128)
    ensures
        base62_text(id).len() == 22,
        forall|i: int| 0 <= i < 22 ==> base62_alphabet().contains(#[trigger] base62_text(id)[i]),
{
    base62_digits_are_digits(id as nat, 22);
}

} // verus!
