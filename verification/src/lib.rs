//! Event-driven invoice service core.
//!
//! The service reacts to pub/sub events about orders, vendor addresses and
//! user addresses: it routes an envelope by its topic, decodes the payload,
//! aggregates the entities an invoice needs, synthesizes the invoice
//! deterministically, applies the persistence operation of the topic, and
//! hands back the downstream event to publish.

pub mod datetime;
pub mod decode;
pub mod errors;
pub mod foreign_types;
pub mod http_event_service;
pub mod invoice;
pub mod order;
pub mod query;
pub mod stage;
pub mod store;
pub mod text;
