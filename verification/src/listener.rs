//! From a notification to the line that tells it, and what a listener does
//! with each thing it receives.
//!
//! A listener receives events until its channel is closed. Each event gives
//! one line to write, or is dropped with a warning; nothing is kept from one
//! event to the next.

use crate::event::{PlayerEvent, SinkStatus};
use crate::json::{json_text, new_object, object, put, text, to_text, value_json, Json};
use crate::translate::{translate, Dropped, Notification};
use vstd::prelude::*;

verus! {

/// The line that tells a notification: the tag `raise_event`, the name and
/// the payload as text, with one space between them.
pub open spec fn line_text(name: Seq<char>, payload: Seq<char>) -> Seq<char> {
    "raise_event "@ + name + " "@ + payload
}

/// The line that tells a notification with the given name and payload, or
/// `None` where the payload cannot be written as text.
pub open spec fn notification_line(name: Seq<char>, payload: Json) -> Option<Seq<char>> {
    match json_text(payload) {
        Some(written) => Some(line_text(name, written)),
        None => None,
    }
}

/// The line that tells the notification of `event`, or `None` where its
/// payload cannot be written as text.
pub open spec fn event_line(event: PlayerEvent) -> Option<Seq<char>> {
    notification_line(event.kind().spec_name(), Json::Object(event.fields(event.track_text())))
}

/// The line that tells the state of the audio output, or `None` where its
/// payload cannot be written as text.
pub open spec fn sink_line(status: SinkStatus) -> Option<Seq<char>> {
    notification_line("sink"@, Json::Object(status.fields()))
}

/// What a listener does next.
#[derive(Debug, PartialEq, Eq)]
pub enum Step {
    /// Write the line, and receive again.
    Emit(String),
    /// Write nothing, record the warning, and receive again.
    Skip(Dropped),
    /// The channel is closed: stop.
    Stop,
}

/// Builds the line that tells a notification with the given name, `payload`
/// being its payload as text.
pub fn tagged_line(name: &str, payload: &str) -> (line: String)
    ensures
        line@ == line_text(name@, payload@),
{
    let mut line = "raise_event ".to_owned();
    line.append(name);
    line.append(" ");
    line.append(payload);
    line
}

/// Decides what becomes of a notification with the given name once its
/// payload was handed to the serializer, `written` being what came back: the
/// line with the payload as text, or the reason for which nothing is
/// written, which carries what the serializer reported.
pub fn written_line(name: &str, written: Result<String, serde_json::Error>) -> (raised: Result<
    String,
    Dropped,
>)
    ensures
        written matches Ok(payload) ==> raised matches Ok(line) && line@ == line_text(
            name@,
            payload@,
        ),
        written matches Err(error) ==> raised matches Err(dropped) && dropped.reports(error),
{
    match written {
        Ok(payload) => Ok(tagged_line(name, payload.as_str())),
        Err(error) => Err(Dropped::NotSerialized { detail: error.to_string() }),
    }
}

/// Builds the line that tells `notification`. It succeeds if the payload can
/// be written as text.
pub fn raise_event(notification: &Notification) -> (raised: Result<String, Dropped>)
    ensures
        raised is Ok <==> notification.spec_line() is Some,
        raised matches Ok(line) ==> notification.spec_line() == Some(line@),
        raised matches Err(dropped) ==> dropped is NotSerialized,
{
    written_line(notification.name.as_str(), to_text(&notification.payload))
}

impl Notification {
    /// The line that tells the notification, or `None` where its payload
    /// cannot be written as text.
    pub open spec fn spec_line(&self) -> Option<Seq<char>> {
        notification_line(self.name@, value_json(self.payload))
    }
}

impl Step {
    /// Whether this is what a listener does with `event`: drop it where the
    /// track that it names has an identifier without text, or where its
    /// payload cannot be written as text; else write the line that tells it.
    pub open spec fn answers(&self, event: PlayerEvent) -> bool {
        if !event.can_be_told() {
            *self matches Step::Skip(dropped) && dropped.blames_track_of(event.kind())
        } else {
            match event_line(event) {
                Some(line) => *self matches Step::Emit(emitted) && emitted@ == line,
                None => *self matches Step::Skip(dropped) && dropped is NotSerialized,
            }
        }
    }
}

/// Decides what a listener does with what it received: an event, or `None`
/// when the channel is closed.
///
/// The listener stops when the channel is closed, and only then. An event
/// gives either one line or one reason for dropping it, never both.
pub fn on_receive(received: Option<&PlayerEvent>) -> (step: Step)
    ensures
        received is None <==> step is Stop,
        received matches Some(event) ==> step.answers(*event),
{
    match received {
        None => Step::Stop,
        Some(event) => match translate(event) {
            Err(dropped) => Step::Skip(dropped),
            Ok(notification) => match raise_event(&notification) {
                Ok(line) => Step::Emit(line),
                Err(dropped) => Step::Skip(dropped),
            },
        },
    }
}

/// Builds the notification of the state of the audio output.
pub fn sink_notification(sink_status: SinkStatus) -> (notification: Notification)
    ensures
        notification.holds("sink"@, sink_status.fields()),
{
    let mut payload = new_object();
    put(&mut payload, "sinkStatus", text(sink_status.name()));
    Notification { name: "sink".to_owned(), payload: object(payload) }
}

/// Builds the line that tells the state of the audio output. It succeeds if
/// the payload can be written as text.
pub fn handle_sink_events(sink_status: SinkStatus) -> (raised: Result<String, Dropped>)
    ensures
        raised is Ok <==> sink_line(sink_status) is Some,
        raised matches Ok(line) ==> sink_line(sink_status) == Some(line@),
        raised matches Err(dropped) ==> dropped is NotSerialized,
{
    raise_event(&sink_notification(sink_status))
}

} // verus!
