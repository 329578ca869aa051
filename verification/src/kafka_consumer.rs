//! Decisions of the Kafka consumption loop.

use vstd::prelude::*;
use crate::ditto_event::DittoEvent;
use crate::message_processor::{
    decode_payload, event_of, known_event_time, message_error, parse_message, payload_fields,
    PayloadError,
};

verus! {

/// What became of one poll of the Kafka consumer.
#[derive(Debug, Clone, Copy, PartialEq, Eq, Structural)]
pub enum MessageOutcome {
    /// Kafka reported an error instead of a message.
    KafkaError,
    /// The message had no payload.
    NoPayload,
    /// The payload was not valid UTF-8.
    NotUtf8,
    /// The payload was not JSON.
    NotJson,
    /// The notification could not become an event.
    Rejected,
    /// The event was handed to the batch writer.
    Sent,
    /// The channel to the batch writer was full: the event was dropped.
    ChannelFull,
    /// The channel to the batch writer is closed.
    ChannelClosed,
}

/// Whether the consumption loop goes on after a message.
#[derive(Debug, Clone, Copy, PartialEq, Eq, Structural)]
pub enum ConsumerStep {
    Continue,
    Stop,
}

/// The loop stops once the batch writer is gone, and goes on after every
/// other outcome, errors and dropped events included.
pub fn next_step(outcome: MessageOutcome) -> (step: ConsumerStep)
    ensures
        step == (if outcome == MessageOutcome::ChannelClosed {
            ConsumerStep::Stop
        } else {
            ConsumerStep::Continue
        }),
{
    match outcome {
        MessageOutcome::ChannelClosed => ConsumerStep::Stop,
        _ => ConsumerStep::Continue,
    }
}


/// Turns the payload of a Kafka message into the event to store, or says
/// why it gives none: no payload, not UTF-8, not JSON, or a notification that
/// the parser rejects.
pub fn process_payload(payload: Option<&[u8]>) -> (r: Result<DittoEvent, MessageOutcome>)
    ensures
        payload is None ==> r == Err::<DittoEvent, MessageOutcome>(MessageOutcome::NoPayload),
        payload matches Some(p) ==> match payload_fields(p@) {
            Err(PayloadError::NotUtf8) => r == Err::<DittoEvent, MessageOutcome>(
                MessageOutcome::NotUtf8,
            ),
            Err(PayloadError::NotJson) => r == Err::<DittoEvent, MessageOutcome>(
                MessageOutcome::NotJson,
            ),
            Ok(m) => match message_error(m) {
                Some(_) => r == Err::<DittoEvent, MessageOutcome>(MessageOutcome::Rejected),
                None => r matches Ok(ev) && ev@ == event_of(m, ev.time) && (known_event_time(
                    m,
                ) matches Some(t) ==> ev.time == t)
                    && (known_event_time(m) is None ==> ev.time.nanos < 1_000_000_000),
            },
        },
{
    let bytes = match payload {
        Some(p) => p,
        None => {
            return Err(MessageOutcome::NoPayload);
        },
    };
    let msg = match decode_payload(bytes) {
        Ok(m) => m,
        Err(PayloadError::NotUtf8) => {
            return Err(MessageOutcome::NotUtf8);
        },
        Err(PayloadError::NotJson) => {
            return Err(MessageOutcome::NotJson);
        },
    };
    match parse_message(&msg) {
        Ok(ev) => Ok(ev),
        Err(_) => Err(MessageOutcome::Rejected),
    }
}

} // verus!
