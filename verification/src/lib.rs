//! Ingestion, normalisation and fan-out of order-book events.
//!
//! Raw payloads arrive on broker channels named after a channel kind and a
//! market. Each payload is decoded into a typed [`message::Update`], every
//! numeric field passing through the strict fixed-point conversion of
//! [`decimal`], and is then published on a bounded [`bus::Bus`] from which any
//! number of consumers read at their own pace.

pub mod bus;
pub mod channel;
pub mod config;
pub mod decimal;
pub mod decoder;
pub mod error;
pub mod events;
pub mod message;
pub mod models;
pub mod pipeline;
pub mod registry;
pub mod subscription;
pub mod types;
