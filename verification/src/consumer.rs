//! The consumer side of the bridge: one long-lived consumer handle bound to
//! a consumer group, with subscribe / unsubscribe / receive / metadata
//! operations and non-blocking rebalance and commit callbacks.

use vstd::prelude::*;
use crate::config::BrokerConfig;
use crate::errors::ConfigError;
use crate::errors::MetadataError;
use crate::errors::RecvError;
use crate::errors::SubscribeError;
use crate::kafka::config_create_consumer;
use crate::kafka::consumer_fetch_topic_names;
use crate::kafka::consumer_poll;
use crate::kafka::consumer_subscribe;
use crate::kafka::consumer_unsubscribe;
use crate::kafka::error_text;
use crate::kafka::kafka_error_is_timeout;
use crate::kafka::kafka_error_text;
use crate::kafka::timeout_error;
use crate::kafka::ConsumerHandle;
use crate::record::topic_name_is_ok;
use crate::record::topic_names_ok;
use crate::record::PollOutcome;
use crate::record::Record;

verus! {

/// Where the consumer stands: freshly connected, holding a subscription, or
/// unsubscribed. An unsubscribed consumer stays usable: a later subscribe
/// starts a new session on the same connection.
#[derive(Clone, Copy, Debug, PartialEq, Eq, Structural)]
pub enum Phase {
    Idle,
    Subscribed,
    Unsubscribed,
}

/// One group-membership change as the broker announces it around a
/// rebalance: partitions taken away, or partitions handed out.
#[derive(Debug, Clone, PartialEq, Eq)]
pub enum RebalanceEvent {
    Revoked(Vec<i32>),
    Assigned(Vec<i32>),
}

/// Counts of the callback events observed so far: partitions assigned,
/// partitions revoked, offset commits.
pub struct Telemetry {
    pub assigned: u64,
    pub revoked: u64,
    pub commits: u64,
}

/// A counter bumped once more, stopping at its largest value.
pub open spec fn bumped(n: u64) -> u64 {
    if n == u64::MAX {
        n
    } else {
        (n + 1) as u64
    }
}

/// An empty subscription.
pub open spec fn no_topics() -> Seq<Seq<char>> {
    Seq::empty()
}

/// One long-lived consumer handle bound to a consumer group. The phase and
/// the subscription follow every operation, so contracts can speak of the
/// session's state machine.
pub struct ConsumerService {
    handle: ConsumerHandle,
    phase: Phase,
    subs: Ghost<Seq<Seq<char>>>,
    assigned_events: u64,
    revoked_events: u64,
    commit_events: u64,
}

impl ConsumerService {
    /// Where the consumer stands.
    pub closed spec fn spec_phase(self) -> Phase {
        self.phase
    }

    /// The topics of the current subscription.
    pub closed spec fn subscription(self) -> Seq<Seq<char>> {
        self.subs@
    }

    /// The callback counts observed so far.
    pub closed spec fn telemetry(self) -> (u64, u64, u64) {
        (self.assigned_events, self.revoked_events, self.commit_events)
    }

    /// Where the consumer stands, for a caller.
    pub fn current_phase(&self) -> (p: Phase)
        ensures
            p == self.spec_phase(),
    {
        self.phase
    }

    /// The callback counts observed so far, for a caller.
    pub fn counters(&self) -> (t: Telemetry)
        ensures
            t.assigned == self.telemetry().0,
            t.revoked == self.telemetry().1,
            t.commits == self.telemetry().2,
    {
        Telemetry {
            assigned: self.assigned_events,
            revoked: self.revoked_events,
            commits: self.commit_events,
        }
    }

    /// Builds the consumer client from the configuration and starts Idle
    /// with no subscription. An error here is fatal at construction: the
    /// broker client refused the settings.
    pub fn connect(cfg: &BrokerConfig) -> (r: Result<ConsumerService, ConfigError>)
        ensures
            r matches Ok(c) ==> c.spec_phase() is Idle && c.subscription() == no_topics()
                && c.telemetry() == (0u64, 0u64, 0u64),
            r matches Err(e) ==> e is Broker,
    {
        let config = cfg.consumer_config();
        match config_create_consumer(&config) {
            Ok(handle) => Ok(
                ConsumerService {
                    handle,
                    phase: Phase::Idle,
                    subs: Ghost(Seq::empty()),
                    assigned_events: 0,
                    revoked_events: 0,
                    commit_events: 0,
                },
            ),
            Err(e) => Err(ConfigError::Broker(kafka_error_text(&e))),
        }
    }

    /// Replaces the subscription with the given topics. An empty topic list
    /// is rejected, and exactly then together with any topic name the broker
    /// client cannot take (one with an interior NUL character), with
    /// `InvalidTopics`; a refusal by the broker client leaves the state
    /// unchanged.
    pub fn subscribe(&mut self, topics: &Vec<String>) -> (r: Result<(), SubscribeError>)
        ensures
            r matches Err(SubscribeError::InvalidTopics) <==> (topics@.len() == 0
                || !topic_names_ok(topics.deep_view())),
            r is Ok ==> final(self).spec_phase() is Subscribed && final(self).subscription()
                == topics.deep_view(),
            r is Err ==> final(self).spec_phase() == old(self).spec_phase()
                && final(self).subscription() == old(self).subscription(),
            final(self).telemetry() == old(self).telemetry(),
    {
        if topics.len() == 0 {
            return Err(SubscribeError::InvalidTopics);
        }
        let mut i: usize = 0;
        while i < topics.len()
            invariant
                i <= topics.len(),
                forall|k: int|
                    0 <= k < i ==> crate::record::topic_name_ok(
                        #[trigger] topics.deep_view()[k],
                    ),
            decreases topics.len() - i,
        {
            let ok = topic_name_is_ok(&topics[i]);
            proof {
                assert(topics.deep_view()[i as int] == topics@[i as int]@);
            }
            if !ok {
                return Err(SubscribeError::InvalidTopics);
            }
            i = i + 1;
        }
        match consumer_subscribe(&self.handle, topics) {
            Ok(()) => {
                self.phase = Phase::Subscribed;
                self.subs = Ghost(topics.deep_view());
                Ok(())
            },
            Err(e) => Err(SubscribeError::Transport(kafka_error_text(&e))),
        }
    }

    /// Ends the subscription, from any phase; the broker client reports no
    /// failure for this. The handle stays usable for a later subscribe.
    pub fn unsubscribe(&mut self)
        ensures
            final(self).spec_phase() is Unsubscribed,
            final(self).subscription() == no_topics(),
            final(self).telemetry() == old(self).telemetry(),
    {
        consumer_unsubscribe(&self.handle);
        self.phase = Phase::Unsubscribed;
        self.subs = Ghost(Seq::empty());
    }

    /// Waits up to the timeout for the next record. `Ok(None)` on a quiet
    /// timeout; `Cancelled` exactly when no subscription is active, without
    /// touching the broker; a broker error during the attempt is non-fatal
    /// and reported as `Transport`. The session state never changes.
    pub fn receive_one(&mut self, timeout_ms: u64) -> (r: Result<Option<Record>, RecvError>)
        ensures
            *final(self) == *old(self),
            r matches Err(RecvError::Cancelled) <==> !(old(self).spec_phase() is Subscribed),
    {
        match self.phase {
            Phase::Subscribed => {},
            _ => {
                return Err(RecvError::Cancelled);
            },
        }
        match consumer_poll(&self.handle, timeout_ms) {
            PollOutcome::Nothing => Ok(None),
            PollOutcome::Received(rec) => Ok(Some(rec)),
            PollOutcome::Failed(e) => Err(RecvError::Transport(kafka_error_text(&e))),
        }
    }

    /// Queries the broker's topic catalog, waiting up to the timeout, and
    /// returns every topic name it lists; the list's contents are the
    /// broker's to decide. A failure is surfaced as a typed error: `Timeout`
    /// exactly when the underlying broker error is a metadata-fetch timeout,
    /// and either way carrying that error's own description. The consumer's
    /// state is untouched (the handle is only read).
    pub fn list_topics(&self, timeout_ms: u64) -> (r: Result<Vec<String>, MetadataError>)
        ensures
            r matches Err(MetadataError::Timeout(t)) ==> exists|e: rdkafka::error::KafkaError|
                #[trigger] timeout_error(e) && t@ == error_text(e),
            r matches Err(MetadataError::Broker(t)) ==> exists|e: rdkafka::error::KafkaError|
                !(#[trigger] timeout_error(e)) && t@ == error_text(e),
    {
        match consumer_fetch_topic_names(&self.handle, timeout_ms) {
            Ok(names) => Ok(names),
            Err(e) => {
                let classified = classify_metadata_error(e);
                Err(classified)
            },
        }
    }

    /// Observes one rebalance announcement. Runs on the broker client's
    /// thread, so it only counts the event: it never blocks, and the session
    /// state is untouched.
    pub fn on_rebalance(&mut self, ev: &RebalanceEvent)
        ensures
            final(self).spec_phase() == old(self).spec_phase(),
            final(self).subscription() == old(self).subscription(),
            ev is Assigned ==> final(self).telemetry() == (
                bumped(old(self).telemetry().0),
                old(self).telemetry().1,
                old(self).telemetry().2,
            ),
            ev is Revoked ==> final(self).telemetry() == (
                old(self).telemetry().0,
                bumped(old(self).telemetry().1),
                old(self).telemetry().2,
            ),
    {
        match ev {
            RebalanceEvent::Assigned(_) => {
                if self.assigned_events < u64::MAX {
                    self.assigned_events = self.assigned_events + 1;
                }
            },
            RebalanceEvent::Revoked(_) => {
                if self.revoked_events < u64::MAX {
                    self.revoked_events = self.revoked_events + 1;
                }
            },
        }
    }

    /// Observes one offset-commit result. Runs on the broker client's
    /// thread, so it only counts the event: it never blocks, and the session
    /// state is untouched.
    pub fn on_commit(&mut self)
        ensures
            final(self).spec_phase() == old(self).spec_phase(),
            final(self).subscription() == old(self).subscription(),
            final(self).telemetry() == (
                old(self).telemetry().0,
                old(self).telemetry().1,
                bumped(old(self).telemetry().2),
            ),
    {
        if self.commit_events < u64::MAX {
            self.commit_events = self.commit_events + 1;
        }
    }
}

/// Turns one broker error into the typed metadata failure: `Timeout`
/// exactly when the error is a metadata-fetch timeout, carrying the error's
/// own description either way.
pub fn classify_metadata_error(e: rdkafka::error::KafkaError) -> (r: MetadataError)
    ensures
        r is Timeout <==> timeout_error(e),
        r matches MetadataError::Timeout(t) ==> t@ == error_text(e),
        r matches MetadataError::Broker(t) ==> t@ == error_text(e),
{
    let text = kafka_error_text(&e);
    if kafka_error_is_timeout(&e) {
        MetadataError::Timeout(text)
    } else {
        MetadataError::Broker(text)
    }
}

} // verus!
