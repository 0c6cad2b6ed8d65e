//! Records as observed at the broker, and the transport-neutral events the
//! bridge hands to a subscriber.

use vstd::prelude::*;
use vstd::utf8::decode_utf8;
use vstd::utf8::valid_utf8;

verus! {

/// A topic name the broker client can take: librdkafka reads names as C
/// strings, so an interior NUL character is excluded.
pub open spec fn topic_name_ok(s: Seq<char>) -> bool {
    forall|i: int| 0 <= i < s.len() ==> #[trigger] s[i] != '\0'
}

/// Every topic name of a list is one the broker client can take.
pub open spec fn topic_names_ok(ts: Seq<Seq<char>>) -> bool {
    forall|i: int| 0 <= i < ts.len() ==> topic_name_ok(#[trigger] ts[i])
}

/// Whether one topic name is free of interior NUL characters.
pub fn topic_name_is_ok(s: &String) -> (b: bool)
    ensures
        b == topic_name_ok(s@),
{
    let cs = crate::text::str_chars(s.as_str());
    let mut j: usize = 0;
    while j < cs.len()
        invariant
            j <= cs.len(),
            cs@ == s@,
            forall|k: int| 0 <= k < j ==> #[trigger] cs@[k] != '\0',
        decreases cs.len() - j,
    {
        if cs[j] == '\0' {
            return false;
        }
        j = j + 1;
    }
    true
}

/// One record as the broker delivered it. Immutable once observed.
#[derive(Debug, Clone, PartialEq, Eq)]
pub struct Record {
    /// The record's key, when it has one.
    pub key: Option<Vec<u8>>,
    /// The record's payload, when it has one.
    pub payload: Option<Vec<u8>>,
    /// The topic the record was read from.
    pub topic: String,
    /// The partition within the topic.
    pub partition: i32,
    /// The record's position within its partition.
    pub offset: i64,
    /// Epoch milliseconds, when the broker supplied a timestamp.
    pub timestamp: Option<i64>,
}

/// The mathematical value of a record.
pub struct RecordView {
    pub key: Option<Seq<u8>>,
    pub payload: Option<Seq<u8>>,
    pub topic: Seq<char>,
    pub partition: int,
    pub offset: int,
    pub timestamp: Option<int>,
}

impl View for Record {
    type V = RecordView;

    open spec fn view(&self) -> RecordView {
        RecordView {
            key: match self.key {
                Some(k) => Some(k@),
                None => None,
            },
            payload: match self.payload {
                Some(p) => Some(p@),
                None => None,
            },
            topic: self.topic@,
            partition: self.partition as int,
            offset: self.offset as int,
            timestamp: match self.timestamp {
                Some(t) => Some(t as int),
                None => None,
            },
        }
    }
}

/// What one receive attempt at the broker produced.
pub enum PollOutcome {
    /// Nothing arrived within the timeout.
    Nothing,
    /// One record arrived.
    Received(Record),
    /// The broker reported an error for this attempt.
    Failed(rdkafka::error::KafkaError),
}

/// The decoded, transport-neutral event the bridge hands to a subscriber.
#[derive(Debug, Clone, PartialEq, Eq)]
pub struct RecordEvent {
    /// The record's key bytes, when it had a key.
    pub key: Option<Vec<u8>>,
    /// The payload read as text; empty when absent or not valid UTF-8.
    pub payload: String,
    /// The topic the record was read from.
    pub topic: String,
    /// The partition within the topic.
    pub partition: i32,
    /// The record's position within its partition.
    pub offset: i64,
    /// Epoch milliseconds, when the broker supplied a timestamp.
    pub timestamp: Option<i64>,
}

/// The mathematical value of an event.
pub struct RecordEventView {
    pub key: Option<Seq<u8>>,
    pub payload: Seq<char>,
    pub topic: Seq<char>,
    pub partition: int,
    pub offset: int,
    pub timestamp: Option<int>,
}

impl RecordEvent {
    /// An owned copy of the event, field for field.
    pub fn duplicate(&self) -> (r: RecordEvent)
        ensures
            r@ == self@,
    {
        let key: Option<Vec<u8>> = match &self.key {
            Some(k) => {
                let c = k.clone();
                proof {
                    assert(c@ =~= k@);
                }
                Some(c)
            },
            None => None,
        };
        RecordEvent {
            key,
            payload: self.payload.clone(),
            topic: self.topic.clone(),
            partition: self.partition,
            offset: self.offset,
            timestamp: self.timestamp,
        }
    }
}

impl View for RecordEvent {
    type V = RecordEventView;

    open spec fn view(&self) -> RecordEventView {
        RecordEventView {
            key: match self.key {
                Some(k) => Some(k@),
                None => None,
            },
            payload: self.payload@,
            topic: self.topic@,
            partition: self.partition as int,
            offset: self.offset as int,
            timestamp: match self.timestamp {
                Some(t) => Some(t as int),
                None => None,
            },
        }
    }
}

impl DeepView for RecordEvent {
    type V = RecordEventView;

    open spec fn deep_view(&self) -> RecordEventView {
        self.view()
    }
}

/// The text a payload decodes to: its UTF-8 reading, or empty when the
/// payload is absent or is not valid UTF-8.
pub open spec fn payload_text(payload: Option<Seq<u8>>) -> Seq<char> {
    match payload {
        None => Seq::<char>::empty(),
        Some(bytes) => if valid_utf8(bytes) {
            decode_utf8(bytes)
        } else {
            Seq::<char>::empty()
        },
    }
}

/// The event a record decodes to.
pub open spec fn decoded_event(r: RecordView) -> RecordEventView {
    RecordEventView {
        key: r.key,
        payload: payload_text(r.payload),
        topic: r.topic,
        partition: r.partition,
        offset: r.offset,
        timestamp: r.timestamp,
    }
}

/// Relies on `str::from_utf8`: `Some` exactly on valid UTF-8, reading the
/// bytes as the characters they encode (vstd's own model of UTF-8).
#[verifier::external_body]
fn utf8_to_string(bytes: &Vec<u8>) -> (r: Option<String>)
    ensures
        r is Some <==> valid_utf8(bytes@),
        r matches Some(s) ==> s@ == decode_utf8(bytes@),
{
    match std::str::from_utf8(bytes.as_slice()) {
        Ok(s) => Some(s.to_string()),
        Err(_) => None,
    }
}

/// Decodes one record into the event handed to subscribers: the payload is
/// read as UTF-8 text, falling back to the empty string when it is absent or
/// malformed; every other field is carried over unchanged.
pub fn decode_record(r: &Record) -> (ev: RecordEvent)
    ensures
        ev@ == decoded_event(r@),
{
    let payload: String = match &r.payload {
        None => String::new(),
        Some(bytes) => match utf8_to_string(bytes) {
            Some(s) => s,
            None => String::new(),
        },
    };
    RecordEvent {
        key: match &r.key {
            Some(k) => Some(k.clone()),
            None => None,
        },
        payload,
        topic: r.topic.clone(),
        partition: r.partition,
        offset: r.offset,
        timestamp: r.timestamp,
    }
}

} // verus!
