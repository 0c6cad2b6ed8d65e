//! Tests of the broker bridge: configuration validation, decoding, JSON
//! rendering, the delivery policies, and the session lifecycle against a
//! real (unreachable) broker client.

use kafka_bridge::bridge::DeliverOutcome;
use kafka_bridge::bridge::EventBridge;
use kafka_bridge::bridge::StepOutcome;
use kafka_bridge::bridge::Subscriber;
use kafka_bridge::bridge::VecSubscriber;
use kafka_bridge::config::BrokerConfig;
use kafka_bridge::config::config_value;
use kafka_bridge::config::config_verbosity;
use kafka_bridge::config::LogLevel;
use kafka_bridge::consumer::classify_metadata_error;
use kafka_bridge::consumer::ConsumerService;
use kafka_bridge::consumer::Phase;
use kafka_bridge::consumer::RebalanceEvent;
use kafka_bridge::errors::ConfigError;
use kafka_bridge::errors::MetadataError;
use kafka_bridge::errors::RecvError;
use kafka_bridge::errors::SubscribeError;
use kafka_bridge::json::event_json;
use kafka_bridge::producer::key_string;
use kafka_bridge::producer::send_confirmation;
use kafka_bridge::producer::value_string;
use kafka_bridge::producer::ProducerService;
use kafka_bridge::record::decode_record;
use kafka_bridge::record::Record;
use kafka_bridge::record::RecordEvent;

fn local_config() -> BrokerConfig {
    BrokerConfig::new(
        vec!["localhost:9092".to_string()],
        "test3".to_string(),
        true,
        LogLevel::Info,
    )
    .unwrap()
}

fn sample_record(i: u64, partition: i32, offset: i64) -> Record {
    Record {
        key: Some(key_string(i).into_bytes()),
        payload: Some(value_string(i).into_bytes()),
        topic: "rust".to_string(),
        partition,
        offset,
        timestamp: Some(1000 + offset),
    }
}

#[test]
fn config_rejects_empty_endpoint_list() {
    let r = BrokerConfig::new(Vec::new(), "g".to_string(), true, LogLevel::Info);
    assert_eq!(r.unwrap_err(), ConfigError::NoEndpoints);
}

#[test]
fn config_rejects_malformed_endpoint() {
    let r = BrokerConfig::new(
        vec!["ok:1".to_string(), "bad host:2".to_string()],
        "g".to_string(),
        false,
        LogLevel::Warning,
    );
    assert_eq!(r.unwrap_err(), ConfigError::MalformedEndpoint(1));
    let r2 = BrokerConfig::new(vec!["".to_string()], "g".to_string(), false, LogLevel::Warning);
    assert_eq!(r2.unwrap_err(), ConfigError::MalformedEndpoint(0));
    let r3 = BrokerConfig::new(vec!["a:1,b:2".to_string()], "g".to_string(), false, LogLevel::Info);
    assert_eq!(r3.unwrap_err(), ConfigError::MalformedEndpoint(0));
}

#[test]
fn config_accepts_well_formed_endpoints() {
    let r = BrokerConfig::new(
        vec!["alpha:9092".to_string(), "beta:9093".to_string()],
        "group-7".to_string(),
        true,
        LogLevel::Info,
    );
    let cfg = r.unwrap();
    assert_eq!(cfg.bootstrap_value(), "alpha:9092,beta:9093");
}

#[test]
fn consumer_settings_reach_the_client_config() {
    let cfg = local_config();
    let c = cfg.consumer_config();
    assert_eq!(config_value(&c, "group.id"), Some("test3".to_string()));
    assert_eq!(config_value(&c, "bootstrap.servers"), Some("localhost:9092".to_string()));
    assert_eq!(config_value(&c, "enable.auto.commit"), Some("true".to_string()));
    assert_eq!(config_verbosity(&c), 6);
    assert_eq!(config_value(&c, "no.such.key"), None);
}

#[test]
fn producer_settings_reach_the_client_config() {
    let cfg = local_config();
    let c = cfg.producer_config();
    assert_eq!(config_value(&c, "bootstrap.servers"), Some("localhost:9092".to_string()));
    assert_eq!(config_value(&c, "group.id"), None);
}

#[test]
fn confirmation_line() {
    assert_eq!(send_confirmation(5, "rust"), "sent 5 to rust topic");
    assert_eq!(send_confirmation(0, "t"), "sent 0 to t topic");
}

#[test]
fn synthetic_keys_and_values() {
    assert_eq!(key_string(1), "key-1");
    assert_eq!(key_string(40), "key-40");
    assert_eq!(value_string(1), "value-1");
    assert_eq!(value_string(12345), "value-12345");
}

#[test]
fn decode_reads_utf8_payloads() {
    let rec = sample_record(3, 0, 7);
    let ev = decode_record(&rec);
    assert_eq!(ev.payload, "value-3");
    assert_eq!(ev.key, Some(b"key-3".to_vec()));
    assert_eq!(ev.topic, "rust");
    assert_eq!(ev.partition, 0);
    assert_eq!(ev.offset, 7);
    assert_eq!(ev.timestamp, Some(1007));
}

#[test]
fn decode_falls_back_to_empty_text() {
    let mut rec = sample_record(1, 0, 0);
    rec.payload = Some(vec![0xff, 0xfe]);
    assert_eq!(decode_record(&rec).payload, "");
    rec.payload = None;
    assert_eq!(decode_record(&rec).payload, "");
}

#[test]
fn event_renders_as_json() {
    let ev = RecordEvent {
        key: Some(vec![107, 1]),
        payload: "value-1".to_string(),
        topic: "rust".to_string(),
        partition: 0,
        offset: 42,
        timestamp: Some(1699999999999),
    };
    assert_eq!(
        event_json(&ev),
        "{\"key\":[107,1],\"payload\":\"value-1\",\"topic\":\"rust\",\"partition\":0,\"offset\":42,\"timestamp\":1699999999999}"
    );
}

#[test]
fn event_json_escapes_and_handles_null() {
    let ev = RecordEvent {
        key: None,
        payload: "a\"b\\c\nd".to_string(),
        topic: "t".to_string(),
        partition: -1,
        offset: -2,
        timestamp: None,
    };
    assert_eq!(
        event_json(&ev),
        "{\"key\":null,\"payload\":\"a\\\"b\\\\c\\u000ad\",\"topic\":\"t\",\"partition\":-1,\"offset\":-2,\"timestamp\":null}"
    );
}

#[test]
fn event_json_renders_extreme_numbers() {
    let ev = RecordEvent {
        key: Some(Vec::new()),
        payload: String::new(),
        topic: String::new(),
        partition: i32::MAX,
        offset: i64::MIN,
        timestamp: Some(i64::MAX),
    };
    assert_eq!(
        event_json(&ev),
        "{\"key\":[],\"payload\":\"\",\"topic\":\"\",\"partition\":2147483647,\"offset\":-9223372036854775808,\"timestamp\":9223372036854775807}"
    );
}

#[test]
fn bridge_forwards_decoded_events_in_order() {
    let mut bridge = EventBridge::new();
    let mut sub = VecSubscriber::new();
    for i in 1..5u64 {
        let rec = sample_record(i, 0, i as i64);
        assert_eq!(bridge.deliver(&rec, &mut sub), DeliverOutcome::Forwarded);
    }
    assert_eq!(sub.events.len(), 4);
    for i in 1..5u64 {
        let ev = &sub.events[(i - 1) as usize];
        assert_eq!(ev.key, Some(key_string(i).into_bytes()));
        assert_eq!(ev.payload, value_string(i));
        assert_eq!(ev.offset, i as i64);
    }
    let offsets: Vec<i64> = sub.events.iter().map(|e| e.offset).collect();
    let mut sorted = offsets.clone();
    sorted.sort();
    assert_eq!(offsets, sorted);
    assert_eq!(bridge.telemetry().forwarded, 4);
}

#[test]
fn bridge_keeps_partition_order_and_counts_stragglers() {
    let mut bridge = EventBridge::new();
    let mut sub = VecSubscriber::new();
    assert_eq!(bridge.deliver(&sample_record(1, 0, 10), &mut sub), DeliverOutcome::Forwarded);
    assert_eq!(bridge.deliver(&sample_record(2, 1, 3), &mut sub), DeliverOutcome::Forwarded);
    // an old offset on partition 0 is not forwarded
    assert_eq!(bridge.deliver(&sample_record(3, 0, 9), &mut sub), DeliverOutcome::OutOfOrder);
    // an equal offset is forwarded (non-decreasing order)
    assert_eq!(bridge.deliver(&sample_record(4, 0, 10), &mut sub), DeliverOutcome::Forwarded);
    // partition 1 is tracked independently
    assert_eq!(bridge.deliver(&sample_record(5, 1, 4), &mut sub), DeliverOutcome::Forwarded);
    assert_eq!(sub.events.len(), 4);
    assert_eq!(bridge.telemetry().forwarded, 4);
    assert_eq!(bridge.telemetry().out_of_order, 1);
    assert_eq!(bridge.telemetry().dropped, 0);
}

struct ClosedSink;

impl Subscriber for ClosedSink {
    fn accept(&mut self, _event: &RecordEvent) -> bool {
        false
    }
}

#[test]
fn bridge_counts_events_a_full_sink_refuses() {
    let mut bridge = EventBridge::new();
    let mut sink = ClosedSink;
    assert_eq!(bridge.deliver(&sample_record(1, 0, 0), &mut sink), DeliverOutcome::Refused);
    assert_eq!(bridge.telemetry().dropped, 1);
    assert_eq!(bridge.telemetry().forwarded, 0);
}

#[test]
fn consumer_connects_and_walks_the_state_machine() {
    let cfg = local_config();
    let mut consumer = ConsumerService::connect(&cfg).unwrap();
    assert_eq!(consumer.current_phase(), Phase::Idle);
    let empty: Vec<String> = Vec::new();
    assert_eq!(consumer.subscribe(&empty).unwrap_err(), SubscribeError::InvalidTopics);
    assert_eq!(consumer.current_phase(), Phase::Idle);
    consumer.subscribe(&vec!["rust".to_string()]).unwrap();
    assert_eq!(consumer.current_phase(), Phase::Subscribed);
    consumer.unsubscribe();
    assert_eq!(consumer.current_phase(), Phase::Unsubscribed);
    // the handle stays usable for a later subscribe
    consumer.subscribe(&vec!["rust".to_string()]).unwrap();
    assert_eq!(consumer.current_phase(), Phase::Subscribed);
}

#[test]
fn topics_with_nul_names_are_invalid() {
    let cfg = local_config();
    let mut consumer = ConsumerService::connect(&cfg).unwrap();
    let bad = vec!["ru\0st".to_string()];
    assert_eq!(consumer.subscribe(&bad).unwrap_err(), SubscribeError::InvalidTopics);
    assert_eq!(consumer.current_phase(), Phase::Idle);
    let mut bridge = EventBridge::new();
    let mixed = vec!["rust".to_string(), "bad\0".to_string()];
    assert_eq!(
        bridge.start(&mut consumer, &mixed).unwrap_err(),
        SubscribeError::InvalidTopics
    );
    assert!(!bridge.active());
}

#[test]
fn metadata_errors_classify_by_timeout() {
    let timeout = rdkafka::error::KafkaError::MetadataFetch(
        rdkafka::error::RDKafkaErrorCode::OperationTimedOut,
    );
    assert!(matches!(classify_metadata_error(timeout), MetadataError::Timeout(_)));
    let other = rdkafka::error::KafkaError::MetadataFetch(
        rdkafka::error::RDKafkaErrorCode::UnknownTopic,
    );
    assert!(matches!(classify_metadata_error(other), MetadataError::Broker(_)));
}

#[test]
fn receive_without_subscription_is_cancelled() {
    let cfg = local_config();
    let mut consumer = ConsumerService::connect(&cfg).unwrap();
    assert_eq!(consumer.receive_one(50).unwrap_err(), RecvError::Cancelled);
}

#[test]
fn receive_with_subscription_times_out_quietly() {
    let cfg = local_config();
    let mut consumer = ConsumerService::connect(&cfg).unwrap();
    consumer.subscribe(&vec!["rust".to_string()]).unwrap();
    // no broker is reachable: the attempt must end within the timeout and
    // must not report a cancellation
    let r = consumer.receive_one(200);
    assert!(!matches!(r, Err(RecvError::Cancelled)));
    assert!(!matches!(r, Ok(Some(_))));
}

#[test]
fn stop_request_ends_the_session_within_one_step() {
    let cfg = local_config();
    let mut consumer = ConsumerService::connect(&cfg).unwrap();
    let mut bridge = EventBridge::new();
    let mut sub = VecSubscriber::new();
    bridge.start(&mut consumer, &vec!["rust".to_string()]).unwrap();
    assert!(bridge.active());
    assert_eq!(consumer.current_phase(), Phase::Subscribed);
    // a quiet or transiently failing step keeps the session alive
    let outcome = bridge.step(&mut consumer, &mut sub, 100);
    assert!(matches!(outcome, StepOutcome::Quiet | StepOutcome::ReceiveFailed));
    assert!(bridge.active());
    // a stop request is honoured on the next step, and the consumer is left
    // ready for a new session
    bridge.request_stop();
    assert_eq!(bridge.step(&mut consumer, &mut sub, 100), StepOutcome::Ended);
    assert!(!bridge.active());
    assert_eq!(consumer.current_phase(), Phase::Unsubscribed);
    bridge.start(&mut consumer, &vec!["rust".to_string()]).unwrap();
    assert!(bridge.active());
    assert_eq!(consumer.current_phase(), Phase::Subscribed);
}

#[test]
fn session_loop_stops_within_budget_after_a_request() {
    let cfg = local_config();
    let mut consumer = ConsumerService::connect(&cfg).unwrap();
    let mut bridge = EventBridge::new();
    let mut sub = VecSubscriber::new();
    bridge.start(&mut consumer, &vec!["rust".to_string()]).unwrap();
    // without a reachable broker the loop runs its budget out and stays alive
    assert!(!bridge.run(&mut consumer, &mut sub, 50, 3));
    assert!(bridge.active());
    // once a stop is requested, the loop ends on its next step
    bridge.request_stop();
    assert!(bridge.run(&mut consumer, &mut sub, 50, 5));
    assert!(!bridge.active());
    assert_eq!(consumer.current_phase(), Phase::Unsubscribed);
    // no events were forwarded after the stop
    assert_eq!(sub.events.len(), 0);
}

#[test]
fn outside_unsubscribe_ends_the_session() {
    let cfg = local_config();
    let mut consumer = ConsumerService::connect(&cfg).unwrap();
    let mut bridge = EventBridge::new();
    let mut sub = VecSubscriber::new();
    bridge.start(&mut consumer, &vec!["rust".to_string()]).unwrap();
    consumer.unsubscribe();
    assert_eq!(bridge.step(&mut consumer, &mut sub, 100), StepOutcome::Ended);
    assert!(!bridge.active());
}

#[test]
fn bridge_rejects_an_empty_topic_list() {
    let cfg = local_config();
    let mut consumer = ConsumerService::connect(&cfg).unwrap();
    let mut bridge = EventBridge::new();
    let empty: Vec<String> = Vec::new();
    assert_eq!(
        bridge.start(&mut consumer, &empty).unwrap_err(),
        SubscribeError::InvalidTopics
    );
    assert!(!bridge.active());
}

#[test]
fn producer_accepts_a_generated_batch() {
    let cfg = local_config();
    let mut producer = ProducerService::connect(&cfg).unwrap();
    let report = producer.send_batch("rust", 5);
    assert_eq!(report.sent, 4);
    assert!(report.error.is_none());
    let nothing = producer.send_batch("rust", 1);
    assert_eq!(nothing.sent, 0);
    assert!(nothing.error.is_none());
    let none_asked = producer.send_batch("rust", 0);
    assert_eq!(none_asked.sent, 0);
    assert!(none_asked.error.is_none());
}

#[test]
fn list_topics_fails_without_a_broker() {
    let cfg = local_config();
    let consumer = ConsumerService::connect(&cfg).unwrap();
    assert!(consumer.list_topics(300).is_err());
}

#[test]
fn callbacks_only_count() {
    let cfg = local_config();
    let mut consumer = ConsumerService::connect(&cfg).unwrap();
    consumer.on_rebalance(&RebalanceEvent::Assigned(vec![0, 1]));
    consumer.on_rebalance(&RebalanceEvent::Assigned(vec![2]));
    consumer.on_rebalance(&RebalanceEvent::Revoked(vec![0]));
    consumer.on_commit();
    consumer.on_commit();
    consumer.on_commit();
    let t = consumer.counters();
    assert_eq!(t.assigned, 2);
    assert_eq!(t.revoked, 1);
    assert_eq!(t.commits, 3);
    assert_eq!(consumer.current_phase(), Phase::Idle);
}
