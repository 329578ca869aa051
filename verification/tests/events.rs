use historical_writer::ditto_event::{Action, DittoEvent, EventTime};
use historical_writer::message_processor::{
    build_event, parse_message, pick_event_time, read_message_time, read_override_time,
    DittoMessage,
};
use historical_writer::timescale::{batch_insert_sql, build_batch_query};

fn message(topic: Option<&str>, path: Option<&str>) -> DittoMessage {
    DittoMessage {
        topic: topic.map(|t| t.to_string()),
        path: path.map(|p| p.to_string()),
        revision: Some(7),
        value: Some("{\"temperature\":21.5}".to_string()),
        override_timestamp: None,
        timestamp: Some("2024-03-01T00:00:00Z".to_string()),
    }
}

const TOPIC: &str = "org.example/sensor-1/things/twin/events/modified";

#[test]
fn action_labels() {
    assert_eq!(Action::try_from("modified"), Ok(Action::Modified));
    assert_eq!(Action::try_from("MODIFIED"), Ok(Action::Modified));
    assert_eq!(Action::try_from("created"), Ok(Action::Created));
    assert_eq!(Action::try_from("CREATE"), Ok(Action::Created));
    assert_eq!(Action::try_from("deleted"), Ok(Action::Deleted));
    assert_eq!(Action::try_from("DELETE"), Ok(Action::Deleted));
    assert_eq!(Action::try_from("merged"), Ok(Action::Merged));
    assert_eq!(Action::try_from("MERGED"), Ok(Action::Merged));
    assert_eq!(Action::try_from("CREATED"), Err("Unknown action: CREATED".to_string()));
    assert_eq!(Action::try_from(""), Err("Unknown action: ".to_string()));
}

#[test]
fn action_db_labels_round_trip() {
    assert_eq!(Action::Modified.to_string(), "MODIFIED");
    assert_eq!(Action::Created.to_string(), "CREATE");
    assert_eq!(Action::Deleted.to_string(), "DELETE");
    assert_eq!(Action::Merged.to_string(), "MERGED");
    for a in [Action::Modified, Action::Created, Action::Deleted, Action::Merged] {
        assert_eq!(Action::try_from(a.to_string().as_str()), Ok(a));
    }
}

#[test]
fn missing_topic() {
    let err = parse_message(&message(None, Some("/features"))).unwrap_err();
    assert_eq!(err, "Missing 'topic' field");
}

#[test]
fn short_topic() {
    let err = parse_message(&message(Some("a/b/things/twin/events"), Some("/"))).unwrap_err();
    assert_eq!(err, "Invalid topic format: a/b/things/twin/events");
}

#[test]
fn unknown_action() {
    let err = parse_message(&message(Some("a/b/things/twin/events/patched"), Some("/"))).unwrap_err();
    assert_eq!(err, "Unknown action: patched");
}

#[test]
fn missing_path() {
    let err = parse_message(&message(Some(TOPIC), None)).unwrap_err();
    assert_eq!(err, "Missing 'path' field");
}

#[test]
fn topic_checked_before_path() {
    let err = parse_message(&message(Some("x/y"), None)).unwrap_err();
    assert_eq!(err, "Invalid topic format: x/y");
}

#[test]
fn full_event() {
    let ev = parse_message(&message(Some(TOPIC), Some("/features/temp"))).unwrap();
    assert_eq!(ev.thing_id, "org.example:sensor-1");
    assert_eq!(ev.action, Action::Modified);
    assert_eq!(ev.path, "/features/temp");
    assert_eq!(ev.revision, Some(7));
    assert_eq!(ev.value.as_deref(), Some("{\"temperature\":21.5}"));
    assert_eq!(ev.time, EventTime { secs: 1709251200, nanos: 0 });
}

#[test]
fn extra_topic_parts_are_ignored() {
    let mut m = message(Some("ns/thing/things/twin/events/deleted/extra"), Some("/"));
    m.value = None;
    let ev = parse_message(&m).unwrap();
    assert_eq!(ev.thing_id, "ns:thing");
    assert_eq!(ev.action, Action::Deleted);
    assert_eq!(ev.value, None);
}

#[test]
fn null_value_is_no_value() {
    let mut m = message(Some(TOPIC), Some("/"));
    m.value = Some("null".to_string());
    assert_eq!(parse_message(&m).unwrap().value, None);
    m.value = Some("\"null\"".to_string());
    assert_eq!(parse_message(&m).unwrap().value.as_deref(), Some("\"null\""));
}

#[test]
fn revision_keeps_low_32_bits() {
    let mut m = message(Some(TOPIC), Some("/"));
    m.revision = Some(4_294_967_297);
    assert_eq!(parse_message(&m).unwrap().revision, Some(1));
    m.revision = Some(-2);
    assert_eq!(parse_message(&m).unwrap().revision, Some(-2));
    m.revision = None;
    assert_eq!(parse_message(&m).unwrap().revision, None);
}

#[test]
fn override_wins_over_timestamp() {
    let mut m = message(Some(TOPIC), Some("/"));
    m.override_timestamp = Some("2024-01-02T03:04:05Z".to_string());
    let ev = parse_message(&m).unwrap();
    assert_eq!(ev.time, EventTime { secs: 1704164645, nanos: 0 });
}

#[test]
fn override_with_offset_and_fraction() {
    let mut m = message(Some(TOPIC), Some("/"));
    m.override_timestamp = Some("2023-06-15T12:00:00.5+02:00".to_string());
    assert_eq!(read_override_time(&m), Some(EventTime { secs: 1686823200, nanos: 500_000_000 }));
}

#[test]
fn override_in_relaxed_form() {
    let mut m = message(Some(TOPIC), Some("/"));
    m.override_timestamp = Some("2024-01-02T03:04:05UTC".to_string());
    assert_eq!(read_override_time(&m), Some(EventTime { secs: 1704164645, nanos: 0 }));
}

#[test]
fn malformed_override_falls_back() {
    let mut m = message(Some(TOPIC), Some("/"));
    m.override_timestamp = Some("yesterday".to_string());
    assert_eq!(read_override_time(&m), None);
    assert_eq!(parse_message(&m).unwrap().time, EventTime { secs: 1709251200, nanos: 0 });
}

#[test]
fn message_timestamp_is_read_strictly() {
    let mut m = message(Some(TOPIC), Some("/"));
    m.timestamp = Some("2024-01-02T03:04:05UTC".to_string());
    assert_eq!(read_message_time(&m), None);
}

#[test]
fn no_timestamp_takes_now() {
    let mut m = message(Some(TOPIC), Some("/"));
    m.timestamp = Some("not a time".to_string());
    let before = std::time::SystemTime::now()
        .duration_since(std::time::UNIX_EPOCH)
        .unwrap()
        .as_secs() as i64;
    let ev = parse_message(&m).unwrap();
    assert!(ev.time.secs >= before && ev.time.secs <= before + 60);
}

#[test]
fn picking_the_time() {
    let a = EventTime { secs: 1, nanos: 0 };
    let b = EventTime { secs: 2, nanos: 0 };
    let c = EventTime { secs: 3, nanos: 0 };
    assert_eq!(pick_event_time(Some(a), Some(b), c), a);
    assert_eq!(pick_event_time(None, Some(b), c), b);
    assert_eq!(pick_event_time(None, None, c), c);
}

#[test]
fn building_at_a_given_time() {
    let t = EventTime { secs: 42, nanos: 9 };
    let ev = build_event(&message(Some(TOPIC), Some("/p")), t).unwrap();
    assert_eq!(ev.time, t);
    assert_eq!(ev.path, "/p");
}

#[test]
fn batch_sql_for_events() {
    let ev: DittoEvent = parse_message(&message(Some(TOPIC), Some("/"))).unwrap();
    let events = vec![ev.clone(), ev.clone(), ev];
    assert_eq!(batch_insert_sql(&events), Some(build_batch_query(3)));
}
