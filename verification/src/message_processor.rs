//! Turning a Ditto change notification into a [`DittoEvent`].

use vstd::prelude::*;
use crate::ditto_event::{Action, DittoEvent, DittoEventView, EventTime, action_from_label};
use crate::text::{replace_all, replace_str, split_char, split_on, str_equals};
use serde_json::Value;
use vstd::utf8::{decode_utf8, valid_utf8};

verus! {

/// The parts of a Ditto notification (a JSON object) that the parser reads.
///
/// Each field holds what the notification has under that key when it has the
/// JSON type that the parser reads there, and `None` otherwise.
#[derive(Debug, Clone)]
pub struct DittoMessage {
    /// `"topic"`, a string such as `ns/name/things/twin/events/modified`.
    pub topic: Option<String>,
    /// `"path"`, a string.
    pub path: Option<String>,
    /// `"revision"`, an integer that fits 64 signed bits.
    pub revision: Option<i64>,
    /// `"value"`, of any JSON type, as compact JSON text.
    pub value: Option<String>,
    /// `"headers"."dt4mob-historic-timestamp-override"`, a string.
    pub override_timestamp: Option<String>,
    /// `"timestamp"`, a string.
    pub timestamp: Option<String>,
}

/// The mathematical content of a [`DittoMessage`].
pub struct DittoMessageView {
    pub topic: Option<Seq<char>>,
    pub path: Option<Seq<char>>,
    pub revision: Option<i64>,
    pub value: Option<Seq<char>>,
    pub override_timestamp: Option<Seq<char>>,
    pub timestamp: Option<Seq<char>>,
}

impl View for DittoMessage {
    type V = DittoMessageView;

    open spec fn view(&self) -> DittoMessageView {
        DittoMessageView {
            topic: self.topic.deep_view(),
            path: self.path.deep_view(),
            revision: self.revision,
            value: self.value.deep_view(),
            override_timestamp: self.override_timestamp.deep_view(),
            timestamp: self.timestamp.deep_view(),
        }
    }
}

/// Why a payload does not give a notification.
#[derive(Debug, Clone, Copy, PartialEq, Eq, Structural)]
pub enum PayloadError {
    /// The payload is not valid UTF-8.
    NotUtf8,
    /// The payload's text is not JSON.
    NotJson,
}

/// The fields that a text gives when `serde_json::from_str` reads it as a
/// JSON value: `topic`, `path` and `timestamp` where they are strings,
/// `revision` where `as_i64` reads it, `value` in any form as compact JSON
/// text, and the override string under `headers`; `None` where the text is not
/// JSON.
pub uninterp spec fn json_message_fields(text: Seq<char>) -> Option<DittoMessageView>;

/// The notification that a payload carries, or why it carries none.
pub open spec fn payload_fields(payload: Seq<u8>) -> Result<DittoMessageView, PayloadError> {
    if !valid_utf8(payload) {
        Err(PayloadError::NotUtf8)
    } else {
        match json_message_fields(decode_utf8(payload)) {
            Some(m) => Ok(m),
            None => Err(PayloadError::NotJson),
        }
    }
}

/// Calls `std::str::from_utf8` on the payload.
///
/// Trusted: std returns the text exactly when the bytes are valid UTF-8, and
/// the text is what they encode; `valid_utf8` and `decode_utf8` are vstd's
/// model of that encoding.
#[verifier::external_body]
fn utf8_text(payload: &[u8]) -> (res: Option<&str>)
    ensures
        res is Some <==> valid_utf8(payload@),
        res matches Some(t) ==> t@ == decode_utf8(payload@),
{
    std::str::from_utf8(payload).ok()
}

/// Calls `serde_json::from_str` to read the text as a JSON value, and takes
/// from it the fields that the parser reads (`Value::get`, `as_str`,
/// `as_i64`, and `to_string` for the value).
///
/// Trusted: the result is `json_message_fields` of the text; what serde_json
/// accepts as JSON is not written out here.
#[verifier::external_body]
fn json_fields(text: &str) -> (res: Option<DittoMessage>)
    ensures
        match res {
            Some(m) => json_message_fields(text@) == Some(m@),
            None => json_message_fields(text@) is None,
        },
{
    let v: Value = serde_json::from_str(text).ok()?;
    let string = |x: Option<&Value>| x.and_then(Value::as_str).map(String::from);
    let headers = v.get("headers");
    Some(DittoMessage {
        topic: string(v.get("topic")),
        path: string(v.get("path")),
        revision: v.get("revision").and_then(Value::as_i64),
        value: v.get("value").map(Value::to_string),
        override_timestamp: string(headers.and_then(|h| h.get("dt4mob-historic-timestamp-override"))),
        timestamp: string(v.get("timestamp")),
    })
}

/// Decodes a Kafka payload: UTF-8 text, then a JSON notification.
pub fn decode_payload(payload: &[u8]) -> (res: Result<DittoMessage, PayloadError>)
    ensures
        match res {
            Ok(m) => payload_fields(payload@) == Ok::<DittoMessageView, PayloadError>(m@),
            Err(e) => payload_fields(payload@) == Err::<DittoMessageView, PayloadError>(e),
        },
{
    let text = match utf8_text(payload) {
        Some(t) => t,
        None => {
            return Err(PayloadError::NotUtf8);
        },
    };
    match json_fields(text) {
        Some(m) => Ok(m),
        None => Err(PayloadError::NotJson),
    }
}

/// Why a notification cannot become an event, checked in this order: no
/// topic, a topic of fewer than six `/`-separated parts, an unknown action in
/// the sixth part, no path.
pub open spec fn message_error(m: DittoMessageView) -> Option<Seq<char>> {
    match m.topic {
        None => Some("Missing 'topic' field"@),
        Some(topic) => {
            let parts = split_on(topic, '/');
            if parts.len() < 6 {
                Some("Invalid topic format: "@ + topic)
            } else if action_from_label(parts[5]) is None {
                Some("Unknown action: "@ + parts[5])
            } else if m.path is None {
                Some("Missing 'path' field"@)
            } else {
                None
            }
        },
    }
}

/// The revision as stored: the low 32 bits of the message's revision.
pub open spec fn stored_revision(revision: Option<i64>) -> Option<i32> {
    match revision {
        Some(r) => Some(r as i32),
        None => None,
    }
}

/// The value as stored: a JSON `null` counts as no value.
pub open spec fn stored_value(value: Option<Seq<char>>) -> Option<Seq<char>> {
    match value {
        Some(text) => if text == "null"@ {
            None
        } else {
            Some(text)
        },
        None => None,
    }
}

/// The event that a notification without error becomes, at the given time.
pub open spec fn event_of(m: DittoMessageView, time: EventTime) -> DittoEventView {
    let parts = split_on(m.topic->0, '/');
    DittoEventView {
        time: time,
        thing_id: parts[0] + ":"@ + parts[1],
        action: action_from_label(parts[5])->0,
        revision: stored_revision(m.revision),
        path: m.path->0,
        value: stored_value(m.value),
    }
}

/// The instant that chrono's `DateTime::parse_from_rfc3339` reads from a
/// text, as Unix seconds and nanoseconds, or `None` where it reports an error.
pub uninterp spec fn rfc3339_instant(text: Seq<char>) -> Option<(i64, u32)>;

/// The instant that chrono's `DateTime::parse_from_str` reads from a text
/// with the format `%+` (ISO 8601 / RFC 3339 with offset), as Unix seconds and
/// nanoseconds, or `None` where it reports an error.
pub uninterp spec fn iso8601_instant(text: Seq<char>) -> Option<(i64, u32)>;

/// Calls `chrono::DateTime::parse_from_rfc3339` and returns the parsed instant
/// as its `timestamp()` and `timestamp_subsec_nanos()`.
///
/// Trusted: the result is `rfc3339_instant` of the text; what that parser
/// accepts is not written out here.
#[verifier::external_body]
fn parse_rfc3339(text: &str) -> (res: Option<(i64, u32)>)
    ensures
        res == rfc3339_instant(text@),
{
    match chrono::DateTime::parse_from_rfc3339(text) {
        Ok(dt) => Some((dt.timestamp(), dt.timestamp_subsec_nanos())),
        Err(_) => None,
    }
}

/// Calls `chrono::DateTime::parse_from_str` with the format `%+` and returns
/// the parsed instant as its `timestamp()` and `timestamp_subsec_nanos()`.
///
/// Trusted: the result is `iso8601_instant` of the text; what that parser
/// accepts is not written out here.
#[verifier::external_body]
fn parse_iso8601(text: &str) -> (res: Option<(i64, u32)>)
    ensures
        res == iso8601_instant(text@),
{
    match chrono::DateTime::parse_from_str(text, "%+") {
        Ok(dt) => Some((dt.timestamp(), dt.timestamp_subsec_nanos())),
        Err(_) => None,
    }
}

/// Reads the system clock (`std::time::SystemTime::now`), converts it with
/// chrono's `From<SystemTime> for DateTime<Utc>`, and returns the instant's
/// `timestamp()` and `timestamp_subsec_nanos()`.
///
/// Trusted: the nanoseconds are below one billion, as that conversion builds
/// them for clocks before and after 1970 alike. Nothing else is stated of the
/// instant, which depends on the clock. The conversion panics only for a clock
/// outside chrono's range of dates (beyond the year 262143 either way).
#[verifier::external_body]
fn current_time() -> (res: (i64, u32))
    ensures
        res.1 < 1_000_000_000,
{
    let now = chrono::DateTime::<chrono::Utc>::from(std::time::SystemTime::now());
    (now.timestamp(), now.timestamp_subsec_nanos())
}

/// A timestamp text with every `Z` written as the offset `+00:00`.
pub open spec fn normalized_timestamp(text: Seq<char>) -> Seq<char> {
    replace_all(text, "Z"@, "+00:00"@)
}

/// An instant as an [`EventTime`].
pub open spec fn as_event_time(instant: Option<(i64, u32)>) -> Option<EventTime> {
    match instant {
        Some(p) => Some(EventTime { secs: p.0, nanos: p.1 }),
        None => None,
    }
}

/// The instant of the override header: its normalized text read as RFC 3339,
/// or failing that with the `%+` format.
pub open spec fn override_instant(m: DittoMessageView) -> Option<EventTime> {
    match m.override_timestamp {
        Some(ts) => {
            let n = normalized_timestamp(ts);
            match rfc3339_instant(n) {
                Some(p) => as_event_time(Some(p)),
                None => as_event_time(iso8601_instant(n)),
            }
        },
        None => None,
    }
}

/// The instant of the notification's own timestamp, read as RFC 3339 after
/// normalization.
pub open spec fn message_instant(m: DittoMessageView) -> Option<EventTime> {
    match m.timestamp {
        Some(ts) => as_event_time(rfc3339_instant(normalized_timestamp(ts))),
        None => None,
    }
}

/// The time of the event where the notification fixes it: the override when
/// it reads as an instant, else the notification's timestamp when that does.
pub open spec fn known_event_time(m: DittoMessageView) -> Option<EventTime> {
    match override_instant(m) {
        Some(t) => Some(t),
        None => message_instant(m),
    }
}

/// Chooses the time of an event: the override's instant, else the message's
/// own instant, else the current time.
pub fn pick_event_time(
    from_override: Option<EventTime>,
    from_message: Option<EventTime>,
    now: EventTime,
) -> (t: EventTime)
    ensures
        t == match from_override {
            Some(o) => o,
            None => match from_message {
                Some(m) => m,
                None => now,
            },
        },
{
    match from_override {
        Some(o) => o,
        None => match from_message {
            Some(m) => m,
            None => now,
        },
    }
}

fn instant_to_time(instant: Option<(i64, u32)>) -> (t: Option<EventTime>)
    ensures
        t == as_event_time(instant),
{
    match instant {
        Some(p) => Some(EventTime { secs: p.0, nanos: p.1 }),
        None => None,
    }
}

fn normalize(ts: &String) -> (n: String)
    ensures
        n@ == normalized_timestamp(ts@),
{
    proof {
        reveal_strlit("Z");
    }
    replace_str(ts.as_str(), "Z", "+00:00")
}

/// The instant of the override header, if it has one that reads.
pub fn read_override_time(msg: &DittoMessage) -> (t: Option<EventTime>)
    ensures
        t == override_instant(msg@),
{
    match &msg.override_timestamp {
        Some(ts) => {
            let n = normalize(ts);
            match parse_rfc3339(n.as_str()) {
                Some(p) => instant_to_time(Some(p)),
                None => instant_to_time(parse_iso8601(n.as_str())),
            }
        },
        None => None,
    }
}

/// The instant of the notification's timestamp, if it has one that reads.
pub fn read_message_time(msg: &DittoMessage) -> (t: Option<EventTime>)
    ensures
        t == message_instant(msg@),
{
    match &msg.timestamp {
        Some(ts) => {
            let n = normalize(ts);
            instant_to_time(parse_rfc3339(n.as_str()))
        },
        None => None,
    }
}

/// Builds the event of a notification at a given time, or the error that
/// rejects the notification.
pub fn build_event(msg: &DittoMessage, time: EventTime) -> (res: Result<DittoEvent, String>)
    ensures
        match message_error(msg@) {
            Some(e) => res matches Err(x) && x@ == e,
            None => res matches Ok(ev) && ev@ == event_of(msg@, time),
        },
{
    let topic = match &msg.topic {
        Some(t) => t,
        None => {
            return Err(String::from_str("Missing 'topic' field"));
        },
    };
    let parts = split_char(topic.as_str(), '/');
    if parts.len() < 6 {
        let mut e = String::from_str("Invalid topic format: ");
        e.append(topic.as_str());
        return Err(e);
    }
    let mut thing_id = parts[0].clone();
    thing_id.append(":");
    thing_id.append(parts[1].as_str());
    let action = match Action::try_from(parts[5].as_str()) {
        Ok(a) => a,
        Err(e) => {
            return Err(e);
        },
    };
    let path = match &msg.path {
        Some(p) => p.clone(),
        None => {
            return Err(String::from_str("Missing 'path' field"));
        },
    };
    let revision = match msg.revision {
        Some(r) => Some(r as i32),
        None => None,
    };
    let value = match &msg.value {
        Some(text) => if str_equals(text.as_str(), "null") {
            None
        } else {
            Some(text.clone())
        },
        None => None,
    };
    let ev = DittoEvent { time, thing_id, action, revision, path, value };
    assert(ev.value.deep_view() == stored_value(msg@.value));
    Ok(ev)
}

/// Parses a Ditto notification into the event to store, given the current
/// time.
///
/// The event's time is the override header's instant, else the
/// notification's timestamp, else `now`; a notification with neither
/// timestamp is stamped with `now`.
pub fn parse_message_at(msg: &DittoMessage, now: EventTime) -> (res: Result<DittoEvent, String>)
    ensures
        match message_error(msg@) {
            Some(e) => res matches Err(x) && x@ == e,
            None => res matches Ok(ev) && ev@ == event_of(msg@, ev.time) && ev.time
                == match known_event_time(msg@) {
                Some(t) => t,
                None => now,
            },
        },
        (msg@.override_timestamp is None && msg@.timestamp is None) ==> (res matches Ok(ev)
            ==> ev.time == now),
{
    // A rejected notification is reported before any timestamp is read.
    if let Err(e) = build_event(msg, now) {
        return Err(e);
    }
    let from_override = read_override_time(msg);
    let from_message = match from_override {
        Some(_) => None,
        None => read_message_time(msg),
    };
    let time = pick_event_time(from_override, from_message, now);
    build_event(msg, time)
}

/// Parses a Ditto notification into the event to store.
///
/// The event's time is the override header's instant, else the
/// notification's timestamp, else the current time read from the clock.
pub fn parse_message(msg: &DittoMessage) -> (res: Result<DittoEvent, String>)
    ensures
        match message_error(msg@) {
            Some(e) => res matches Err(x) && x@ == e,
            None => res matches Ok(ev) && ev@ == event_of(msg@, ev.time) && (known_event_time(
                msg@,
            ) matches Some(t) ==> ev.time == t)
                    && (known_event_time(msg@) is None ==> ev.time.nanos < 1_000_000_000),
        },
{
    let (secs, nanos) = current_time();
    parse_message_at(msg, EventTime { secs, nanos })
}

} // verus!
