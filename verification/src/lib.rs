//! A verified bridge to a Kafka-style message broker.
//!
//! The crate owns long-lived producer and consumer handles, exposes a
//! blocking send operation, and turns the broker's push-based consumption
//! model into a cancellable, observable event stream: a caller drives the
//! stream step by step and may request a stop at any point.

pub mod bridge;
pub mod config;
pub mod consumer;
pub mod errors;
pub mod json;
pub mod kafka;
pub mod producer;
pub mod record;
pub mod text;
