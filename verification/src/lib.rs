//! Verified core of a service that turns Eclipse Ditto change events read from
//! Kafka into rows of a TimescaleDB hypertable.

pub mod text;
pub mod ditto_event;
pub mod message_processor;
pub mod timescale;
pub mod batch_writer;
pub mod settings;
pub mod kafka_consumer;
