//! Ingestion of LoRaWAN uplink messages.
//!
//! A network bridge writes one JSON document per line; each document is an
//! uplink message that carries a Base64 payload of bounded size. This library
//! reads such a line into an [`message::UplinkMessage`], decodes the payload
//! into a buffer of fixed capacity, says which values go to which columns of
//! the store, and decides for every event around the ingestion loop what the
//! loop does next. Reading the stream and writing to the store are left to
//! the caller.
//!
//! - [`payload`]: the bounded payload and its decoding.
//! - [`message`]: the message, and how it is read from a JSON document.
//! - [`store`]: the row that stands for a message.
//! - [`ingest`]: the loop, one turn at a time.
//! - [`error`]: what can go wrong.
//! - [`json`], [`standard_base64`]: what is taken on trust from `serde_json`
//!   and `base64`.

pub mod error;
pub mod ingest;
pub mod json;
pub mod message;
pub mod payload;
pub mod standard_base64;
pub mod store;
