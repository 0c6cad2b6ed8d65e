//! The trusted boundary to the rdkafka client library.
//!
//! Every item here either declares an rdkafka type so that verified code can
//! hold it, or wraps exactly one rdkafka call. Nothing else in the crate
//! touches rdkafka directly.

use rdkafka::config::RDKafkaLogLevel;
use rdkafka::consumer::Consumer;
use rdkafka::Message;
use vstd::prelude::*;
use crate::record::PollOutcome;
use crate::record::Record;
use crate::record::topic_names_ok;

verus! {

#[verifier::external_type_specification]
#[verifier::external_body]
pub struct ExClientConfig(rdkafka::ClientConfig);

#[verifier::external_type_specification]
#[verifier::external_body]
pub struct ExKafkaError(rdkafka::error::KafkaError);

/// One broker connection for outbound sends, safe for concurrent use.
/// The rdkafka producer is generic over context traits Verus cannot declare,
/// so the handle is held opaquely.
#[verifier::external_body]
pub struct ProducerHandle {
    inner: rdkafka::producer::BaseProducer,
}

/// One broker connection plus group-membership state; owns zero or one
/// active subscription. The rdkafka consumer is generic over context traits
/// Verus cannot declare, so the handle is held opaquely.
#[verifier::external_body]
pub struct ConsumerHandle {
    inner: rdkafka::consumer::BaseConsumer,
}

/// The settings a `ClientConfig` holds, as a map from key to value.
pub uninterp spec fn config_entries(c: rdkafka::ClientConfig) -> Map<Seq<char>, Seq<char>>;

/// The logging level a `ClientConfig` holds, which `Client::new` applies to
/// the native client right after creation. It is a field of its own beside
/// the settings map.
pub uninterp spec fn config_log_level(c: rdkafka::ClientConfig) -> nat;

/// Whether a broker error is a metadata-fetch timeout: the variant the
/// client builds when the catalog query runs out of time.
pub uninterp spec fn timeout_error(e: rdkafka::error::KafkaError) -> bool;

/// The human-readable description a broker error displays as.
pub uninterp spec fn error_text(e: rdkafka::error::KafkaError) -> Seq<char>;

/// The map with no settings at all.
pub open spec fn no_entries() -> Map<Seq<char>, Seq<char>> {
    Map::empty()
}

/// Relies on `ClientConfig::new`: a fresh configuration holds no settings.
#[verifier::external_body]
pub(crate) fn config_new() -> (c: rdkafka::ClientConfig)
    ensures
        config_entries(c) == no_entries(),
{
    rdkafka::ClientConfig::new()
}

/// Relies on `ClientConfig::set`: inserts one key/value setting and touches
/// nothing else.
#[verifier::external_body]
pub(crate) fn config_set(c: &mut rdkafka::ClientConfig, key: &str, value: &str)
    ensures
        config_entries(*final(c)) == config_entries(*old(c)).insert(key@, value@),
        config_log_level(*final(c)) == config_log_level(*old(c)),
{
    c.set(key, value);
}

/// Relies on `ClientConfig::set_log_level`: sets the logging level that
/// `Client::new` applies to the native client on creation; the settings map
/// is untouched. The body maps the number one-for-one onto the crate's level
/// enum, following that enum's own numbering.
#[verifier::external_body]
pub(crate) fn config_set_log_level(c: &mut rdkafka::ClientConfig, level: u8)
    requires
        level <= 7,
    ensures
        config_log_level(*final(c)) == level as nat,
        config_entries(*final(c)) == config_entries(*old(c)),
{
    c.set_log_level(match level {
        0 => RDKafkaLogLevel::Emerg,
        1 => RDKafkaLogLevel::Alert,
        2 => RDKafkaLogLevel::Critical,
        3 => RDKafkaLogLevel::Error,
        4 => RDKafkaLogLevel::Warning,
        5 => RDKafkaLogLevel::Notice,
        6 => RDKafkaLogLevel::Info,
        _ => RDKafkaLogLevel::Debug,
    });
}

/// Relies on the public `log_level` field of `ClientConfig`, read back as
/// the number the level enum carries.
#[verifier::external_body]
pub(crate) fn config_get_log_level(c: &rdkafka::ClientConfig) -> (r: u8)
    ensures
        r as nat == config_log_level(*c),
        r <= 7,
{
    c.log_level as u8
}

/// Relies on `ClientConfig::get`: looks one setting up.
#[verifier::external_body]
pub(crate) fn config_get(c: &rdkafka::ClientConfig, key: &str) -> (r: Option<String>)
    ensures
        r is Some <==> config_entries(*c).contains_key(key@),
        r matches Some(v) ==> v@ == config_entries(*c)[key@],
{
    c.get(key).map(|v| v.to_string())
}

/// Relies on `ClientConfig::create` for a `BaseProducer`: builds a producer
/// client from the settings; `Err` when librdkafka refuses them.
#[verifier::external_body]
pub(crate) fn config_create_producer(c: &rdkafka::ClientConfig) -> (r: Result<
    ProducerHandle,
    rdkafka::error::KafkaError,
>)
{
    match c.create() {
        Ok(inner) => Ok(ProducerHandle { inner }),
        Err(e) => Err(e),
    }
}

/// Relies on `ClientConfig::create` for a `BaseConsumer`: builds a consumer
/// client from the settings; `Err` when librdkafka refuses them.
#[verifier::external_body]
pub(crate) fn config_create_consumer(c: &rdkafka::ClientConfig) -> (r: Result<
    ConsumerHandle,
    rdkafka::error::KafkaError,
>)
{
    match c.create() {
        Ok(inner) => Ok(ConsumerHandle { inner }),
        Err(e) => Err(e),
    }
}

/// Relies on `Consumer::subscribe` on a `BaseConsumer`: replaces the client's
/// topic subscription with the given topics; `Err` when librdkafka refuses.
/// A topic name with an interior NUL character would panic the client's own
/// C-string conversion, so such names are excluded.
#[verifier::external_body]
pub(crate) fn consumer_subscribe(
    c: &ConsumerHandle,
    topics: &Vec<String>,
) -> (r: Result<(), rdkafka::error::KafkaError>)
    requires
        topic_names_ok(topics.deep_view()),
{
    let refs: Vec<&str> = topics.iter().map(|t| t.as_str()).collect();
    c.inner.subscribe(&refs)
}

/// Relies on `Consumer::unsubscribe` on a `BaseConsumer`: ends the client's
/// subscription; librdkafka reports no failure for this call.
#[verifier::external_body]
pub(crate) fn consumer_unsubscribe(c: &ConsumerHandle)
{
    c.inner.unsubscribe();
}

/// Relies on `BaseConsumer::poll`: waits up to the timeout for the next
/// record; `Nothing` on timeout, and the record's own key, payload, topic,
/// partition, offset and timestamp otherwise. What comes back depends on the
/// broker's state, so nothing is promised of the outcome. Relies also on the
/// broker following the protocol: on a topic name that is not valid UTF-8,
/// the client's own `topic()` accessor panics.
#[verifier::external_body]
pub(crate) fn consumer_poll(c: &ConsumerHandle, timeout_ms: u64) -> (r:
    PollOutcome)
{
    match c.inner.poll(std::time::Duration::from_millis(timeout_ms)) {
        None => PollOutcome::Nothing,
        Some(Err(e)) => PollOutcome::Failed(e),
        Some(Ok(m)) => PollOutcome::Received(Record {
            key: m.key().map(|k| k.to_vec()),
            payload: m.payload().map(|p| p.to_vec()),
            topic: m.topic().to_string(),
            partition: m.partition(),
            offset: m.offset(),
            timestamp: m.timestamp().to_millis(),
        }),
    }
}

/// Relies on `Consumer::fetch_metadata` on a `BaseConsumer`: queries the
/// broker's catalog within the timeout and hands out each topic's name.
/// Relies also on the broker following the protocol: on a topic name that is
/// not valid UTF-8, the client's own `name()` accessor panics.
#[verifier::external_body]
pub(crate) fn consumer_fetch_topic_names(
    c: &ConsumerHandle,
    timeout_ms: u64,
) -> (r: Result<Vec<String>, rdkafka::error::KafkaError>)
{
    let md = c.inner.fetch_metadata(None, std::time::Duration::from_millis(timeout_ms))?;
    Ok(md.topics().iter().map(|t| t.name().to_string()).collect())
}

/// Relies on `BaseProducer::send`: enqueues one record with this key and
/// payload for delivery to the topic; `Err` when the local buffer or the
/// connection refused it, handing back the cause.
#[verifier::external_body]
pub(crate) fn producer_enqueue(
    p: &ProducerHandle,
    topic: &str,
    key: &str,
    payload: &str,
) -> (r: Result<(), rdkafka::error::KafkaError>)
{
    p.inner.send(rdkafka::producer::BaseRecord::to(topic).key(key).payload(payload)).map_err(
        |(e, _)| e,
    )
}

/// Relies on `KafkaError`'s `Display` impl for a human-readable description.
#[verifier::external_body]
pub(crate) fn kafka_error_text(e: &rdkafka::error::KafkaError) -> (r: String)
    ensures
        r@ == error_text(*e),
{
    format!("{}", e)
}

/// Relies on the `KafkaError` variants: tells a metadata-fetch timeout apart
/// from every other failure.
#[verifier::external_body]
pub(crate) fn kafka_error_is_timeout(e: &rdkafka::error::KafkaError) -> (r: bool)
    ensures
        r == timeout_error(*e),
{
    matches!(
        e,
        rdkafka::error::KafkaError::MetadataFetch(
            rdkafka::error::RDKafkaErrorCode::OperationTimedOut,
        )
    )
}

} // verus!
