use historical_writer::batch_writer::{
    after_write_attempt, backoff_ms, BatchBuffer, FlushOutcome, WriterAction, WriterInput,
    MAX_RETRIES,
};
use historical_writer::kafka_consumer::{next_step, ConsumerStep, MessageOutcome};
use historical_writer::settings::{
    BatchSettings, EnvVars, KafkaSettings, Settings, TimeScale, VarError,
};

fn flushed(a: WriterAction<u32>) -> Option<(Vec<u32>, bool)> {
    match a {
        WriterAction::Wait => None,
        WriterAction::Flush(b) => Some((b, false)),
        WriterAction::FlushAndStop(b) => Some((b, true)),
    }
}

#[test]
fn full_batch_is_flushed() {
    let mut b = BatchBuffer::new(3);
    assert_eq!(flushed(b.step(WriterInput::Received(1))), None);
    assert_eq!(flushed(b.step(WriterInput::Received(2))), None);
    assert_eq!(flushed(b.step(WriterInput::Received(3))), Some((vec![1, 2, 3], false)));
    assert_eq!(b.len(), 0);
    assert_eq!(b.batch_size(), 3);
}

#[test]
fn tick_flushes_only_a_non_empty_buffer() {
    let mut b = BatchBuffer::new(10);
    assert_eq!(flushed(b.step(WriterInput::Tick)), None);
    b.step(WriterInput::Received(5));
    assert_eq!(flushed(b.step(WriterInput::Tick)), Some((vec![5], false)));
    assert_eq!(flushed(b.step(WriterInput::Tick)), None);
}

#[test]
fn close_flushes_the_rest_and_stops() {
    let mut b = BatchBuffer::new(10);
    b.step(WriterInput::Received(1));
    b.step(WriterInput::Received(2));
    assert_eq!(flushed(b.step(WriterInput::ChannelClosed)), Some((vec![1, 2], true)));
    let mut e: BatchBuffer<u32> = BatchBuffer::new(10);
    assert_eq!(flushed(e.step(WriterInput::ChannelClosed)), Some((vec![], true)));
}

#[test]
fn batch_size_zero_flushes_every_event() {
    let mut b = BatchBuffer::new(0);
    assert_eq!(flushed(b.step(WriterInput::Received(9))), Some((vec![9], false)));
}

#[test]
fn no_event_lost_over_a_run() {
    let mut b = BatchBuffer::new(4);
    let mut written = Vec::new();
    for i in 0..23u32 {
        let input = if i % 5 == 4 { WriterInput::Tick } else { WriterInput::Received(i) };
        if let Some((batch, _)) = flushed(b.step(input)) {
            assert!(batch.len() <= 4);
            written.extend(batch);
        }
        assert!(b.len() < 4);
    }
    if let Some((batch, stop)) = flushed(b.step(WriterInput::ChannelClosed)) {
        assert!(stop);
        written.extend(batch);
    }
    let expected: Vec<u32> = (0..23u32).filter(|i| i % 5 != 4).collect();
    assert_eq!(written, expected);
}

#[test]
fn retry_schedule() {
    assert_eq!(MAX_RETRIES, 3);
    assert_eq!(backoff_ms(0), 100);
    assert_eq!(backoff_ms(1), 500);
    assert_eq!(backoff_ms(2), 2000);
    assert_eq!(after_write_attempt(0, true), FlushOutcome::Written { retries: 0 });
    assert_eq!(after_write_attempt(2, true), FlushOutcome::Written { retries: 2 });
    assert_eq!(after_write_attempt(0, false), FlushOutcome::RetryAfter { backoff_ms: 100 });
    assert_eq!(after_write_attempt(1, false), FlushOutcome::RetryAfter { backoff_ms: 500 });
    assert_eq!(after_write_attempt(2, false), FlushOutcome::Dropped);
}

#[test]
fn consumer_stops_only_when_channel_closed() {
    assert_eq!(next_step(MessageOutcome::ChannelClosed), ConsumerStep::Stop);
    for o in [
        MessageOutcome::KafkaError,
        MessageOutcome::NoPayload,
        MessageOutcome::NotUtf8,
        MessageOutcome::NotJson,
        MessageOutcome::Rejected,
        MessageOutcome::Sent,
        MessageOutcome::ChannelFull,
    ] {
        assert_eq!(next_step(o), ConsumerStep::Continue);
    }
}

fn env(pairs: &[(&str, Option<&str>)]) -> EnvVars {
    let mut e = EnvVars::new();
    for (k, v) in pairs {
        e.set(k.to_string(), v.map(|s| s.to_string()));
    }
    e
}

const KAFKA: [(&str, Option<&str>); 8] = [
    ("KAFKA_BOOTSTRAP_SERVERS", Some("broker:9093")),
    ("KAFKA_SECURITY_PROTOCOL", Some("SSL")),
    ("KAFKA_SSL_CA_LOCATION", Some("/ca.pem")),
    ("KAFKA_SSL_CERTIFICATE_LOCATION", Some("/cert.pem")),
    ("KAFKA_SSL_KEY_LOCATION", Some("/key.pem")),
    ("KAFKA_CONSUMER_GROUP", Some("writers")),
    ("KAFKA_TOPIC", Some("ditto")),
    ("KAFKA_AUTO_OFFSET_RESET", Some("earliest")),
];

#[test]
fn env_lookup_first_record_wins() {
    let e = env(&[("A", Some("1")), ("B", None), ("A", Some("2"))]);
    assert_eq!(e.var("A"), Ok("1".to_string()));
    assert_eq!(e.var("B"), Err(VarError::NotUnicode));
    assert_eq!(e.var("C"), Err(VarError::NotPresent));
}

#[test]
fn batch_defaults() {
    let s = BatchSettings::from_env(&env(&[])).unwrap();
    assert_eq!((s.batch_size, s.flush_interval_ms, s.channel_capacity), (1000, 2000, 10000));
}

#[test]
fn batch_values_and_fallbacks() {
    let s = BatchSettings::from_env(&env(&[
        ("BATCH_SIZE", Some("+250")),
        ("FLUSH_INTERVAL_MS", Some("fast")),
        ("CHANNEL_CAPACITY", None),
    ]))
    .unwrap();
    assert_eq!((s.batch_size, s.flush_interval_ms, s.channel_capacity), (250, 2000, 10000));
}

#[test]
fn kafka_settings_and_config() {
    let k = KafkaSettings::from_env(&env(&KAFKA)).unwrap();
    assert_eq!(k.session_timeout_ms, "45000");
    assert_eq!(k.heartbeat_interval_ms, "15000");
    let dict = k.as_dict();
    assert_eq!(dict.len(), 10);
    assert_eq!(dict[0], ("bootstrap.servers", "broker:9093"));
    assert_eq!(dict[5], ("group.id", "writers"));
    assert_eq!(dict[7], ("enable.auto.commit", "true"));
    assert_eq!(dict[9], ("heartbeat.interval.ms", "15000"));
}

#[test]
fn kafka_first_missing_variable_fails() {
    let mut pairs = KAFKA.to_vec();
    pairs[6].1 = None;
    pairs.remove(2);
    assert_eq!(KafkaSettings::from_env(&env(&pairs)).unwrap_err(), VarError::NotPresent);
    let mut pairs = KAFKA.to_vec();
    pairs[0].1 = None;
    assert_eq!(KafkaSettings::from_env(&env(&pairs)).unwrap_err(), VarError::NotUnicode);
}

#[test]
fn timescale_settings() {
    assert_eq!(TimeScale::from_env(&env(&[])).unwrap_err(), VarError::NotPresent);
    let t = TimeScale::from_env(&env(&[
        ("TIMESCALE_CONNECTION", Some("postgresql://u:p@db:5432/x")),
        ("DB_MAX_CONNECTIONS", Some("4294967296")),
        ("DB_ACQUIRE_TIMEOUT_MS", Some("250")),
    ]))
    .unwrap();
    assert_eq!(t.database_timezone, "Europe/Lisbon");
    assert_eq!(t.max_connections, 10);
    assert_eq!(t.acquire_timeout_ms, 250);
    assert_eq!(t.get_connection(), "postgresql://u:p@db:5432/x");
}

#[test]
fn all_settings() {
    let mut pairs = KAFKA.to_vec();
    assert_eq!(Settings::from_env(&env(&pairs)).unwrap_err(), VarError::NotPresent);
    pairs.push(("TIMESCALE_CONNECTION", Some("postgresql://db")));
    pairs.push(("LOG_LEVEL", Some("debug")));
    pairs.push(("BATCH_SIZE", Some("50")));
    let s = Settings::from_env(&env(&pairs)).unwrap();
    assert_eq!(s.log_level, "debug");
    assert_eq!(s.kafka.topic, "ditto");
    assert_eq!(s.timescale.connection, "postgresql://db");
    assert_eq!(s.batch.batch_size, 50);
}
