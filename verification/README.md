# historical_writer

A service that reads Eclipse Ditto change notifications from Kafka and stores
them as rows of a TimescaleDB hypertable, in batches.

- `src/` is the verified library (Verus): decoding Kafka payloads and parsing the
  notifications into events (`message_processor`, `ditto_event`), the batch `INSERT` statement
  (`timescale`), the decisions of the batch writer and its retries
  (`batch_writer`), the decision of the consumption loop (`kafka_consumer`),
  the settings read from the environment (`settings`) and the text helpers
  they share (`text`).
- `app/` is the program around it: Kafka (rdkafka), PostgreSQL (sqlx), the
  tokio tasks and logging (tracing).
- `tests/` exercises the library on concrete values.
