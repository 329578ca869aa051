use historical_writer::ditto_event::{Action, EventTime};
use historical_writer::kafka_consumer::{process_payload, MessageOutcome};
use historical_writer::message_processor::{decode_payload, PayloadError};
use historical_writer::timescale::row_values;

const NOTIFICATION: &str = r#"{
    "topic": "org.example/sensor-1/things/twin/events/created",
    "path": "/features/temp",
    "revision": 12,
    "value": {"temperature": 21.5, "unit": "C"},
    "headers": {"dt4mob-historic-timestamp-override": "2024-01-02T03:04:05Z"},
    "timestamp": "2024-03-01T00:00:00Z"
}"#;

#[test]
fn decode_reads_every_field() {
    let m = decode_payload(NOTIFICATION.as_bytes()).unwrap();
    assert_eq!(m.topic.as_deref(), Some("org.example/sensor-1/things/twin/events/created"));
    assert_eq!(m.path.as_deref(), Some("/features/temp"));
    assert_eq!(m.revision, Some(12));
    assert_eq!(m.value.as_deref(), Some(r#"{"temperature":21.5,"unit":"C"}"#));
    assert_eq!(m.override_timestamp.as_deref(), Some("2024-01-02T03:04:05Z"));
    assert_eq!(m.timestamp.as_deref(), Some("2024-03-01T00:00:00Z"));
}

#[test]
fn decode_reads_fields_by_type() {
    let m = decode_payload(
        br#"{"topic": 5, "revision": "12", "value": null, "headers": ["x"], "timestamp": true}"#,
    )
    .unwrap();
    assert_eq!(m.topic, None);
    assert_eq!(m.path, None);
    assert_eq!(m.revision, None);
    assert_eq!(m.value.as_deref(), Some("null"));
    assert_eq!(m.override_timestamp, None);
    assert_eq!(m.timestamp, None);
    let m = decode_payload(br#"{"revision": 1.5}"#).unwrap();
    assert_eq!(m.revision, None);
    let m = decode_payload(b"[1, 2]").unwrap();
    assert_eq!(m.topic, None);
}

#[test]
fn decode_errors() {
    assert_eq!(decode_payload(&[0xff, 0xfe]).unwrap_err(), PayloadError::NotUtf8);
    assert_eq!(decode_payload(b"{not json").unwrap_err(), PayloadError::NotJson);
    assert_eq!(decode_payload(b"").unwrap_err(), PayloadError::NotJson);
}

#[test]
fn payload_to_event() {
    let ev = process_payload(Some(NOTIFICATION.as_bytes())).unwrap();
    assert_eq!(ev.thing_id, "org.example:sensor-1");
    assert_eq!(ev.action, Action::Created);
    assert_eq!(ev.revision, Some(12));
    assert_eq!(ev.time, EventTime { secs: 1704164645, nanos: 0 });
    assert_eq!(ev.value.as_deref(), Some(r#"{"temperature":21.5,"unit":"C"}"#));
}

#[test]
fn payload_outcomes() {
    assert_eq!(process_payload(None).unwrap_err(), MessageOutcome::NoPayload);
    assert_eq!(process_payload(Some(&[0xc3])).unwrap_err(), MessageOutcome::NotUtf8);
    assert_eq!(process_payload(Some(b"nope")).unwrap_err(), MessageOutcome::NotJson);
    assert_eq!(
        process_payload(Some(br#"{"topic": "a/b/c", "path": "/"}"#)).unwrap_err(),
        MessageOutcome::Rejected
    );
}

#[test]
fn row_values_in_placeholder_order() {
    let ev = process_payload(Some(NOTIFICATION.as_bytes())).unwrap();
    let (time, thing_id, action, revision, path, value) = row_values(&ev);
    assert_eq!(time, ev.time);
    assert_eq!(thing_id, "org.example:sensor-1");
    assert_eq!(action, "CREATE");
    assert_eq!(revision, Some(12));
    assert_eq!(path, "/features/temp");
    assert_eq!(value, ev.value);
}
