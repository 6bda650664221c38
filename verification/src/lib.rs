//! Reliable, order-preserving acknowledgment coordination for a broker-backed
//! event source.
//!
//! The library sits between a broker-protocol client and a downstream event
//! pipeline: raw messages are decoded into events, enriched, and handed
//! downstream; each message is acknowledged to its origin broker only once the
//! downstream outcome for its batch is known, and acknowledgments are issued
//! strictly in the order the messages were received.

pub mod events;
pub mod finalization;
pub mod internal_events;
pub mod mqtt_config;
pub mod pulsar_config;
pub mod source;
