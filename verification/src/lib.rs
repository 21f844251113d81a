//! Player events as line-oriented JSON notifications.
//!
//! A player reports what it does as a stream of events. This library turns
//! each event into a notification, a name and a JSON object, and each
//! notification into one line of text for whoever watches the player from
//! outside:
//!
//! ```text
//! raise_event playing {"positionMs":15234,"trackId":"5sWHDYs0csV6RS48xBl0tH"}
//! ```
//!
//! - [`event`]: the events, and what each of them says;
//! - [`track_id`]: track identifiers and their base-62 text;
//! - [`json`]: the model of JSON documents, over `serde_json`;
//! - [`translate`]: from an event to its notification;
//! - [`listener`]: from a notification to its line, and the listener's steps;
//! - [`laws`]: what holds of every event and every notification.
//!
//! The library writes nothing and starts no thread: it decides what is to be
//! written, and its caller writes it.

pub mod event;
pub mod json;
pub mod laws;
pub mod listener;
pub mod track_id;
pub mod translate;
