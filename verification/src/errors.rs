//! The error taxonomy of the bridge.
//!
//! `ConfigError` is fatal at construction time: without a usable connection no
//! broker operation is possible. The remaining kinds are recoverable and are
//! reported to the caller.

use vstd::prelude::*;

verus! {

/// Why construction of the configuration or of a service failed.
#[derive(Debug, Clone, PartialEq, Eq)]
pub enum ConfigError {
    /// The bootstrap endpoint list was empty.
    NoEndpoints,
    /// The endpoint at this index of the list is malformed.
    MalformedEndpoint(usize),
    /// The broker client itself refused the settings.
    Broker(String),
}

/// Why a send was not accepted.
#[derive(Debug, Clone, PartialEq, Eq)]
pub enum SendError {
    /// The underlying connection could not accept the record.
    Transport(String),
}

/// Why a subscription was not established.
#[derive(Debug, Clone, PartialEq, Eq)]
pub enum SubscribeError {
    /// The requested topic list was empty.
    InvalidTopics,
    /// The broker client refused the subscription.
    Transport(String),
}

/// Why a receive attempt failed (a timeout is not a failure).
#[derive(Debug, Clone, PartialEq, Eq)]
pub enum RecvError {
    /// A broker error during this attempt; non-fatal, the caller may retry.
    Transport(String),
    /// The subscription was ended, so nothing can be received.
    Cancelled,
}

/// Why the topic catalog could not be fetched.
#[derive(Debug, Clone, PartialEq, Eq)]
pub enum MetadataError {
    /// The broker did not respond within the timeout.
    Timeout(String),
    /// The broker reported another failure.
    Broker(String),
}

} // verus!
