//! The producer side of the bridge: one long-lived producer handle and a
//! blocking send operation, with a ghost log of every record handed to the
//! broker client.

use vstd::prelude::*;
use crate::config::BrokerConfig;
use crate::errors::ConfigError;
use crate::errors::SendError;
use crate::kafka::config_create_producer;
use crate::kafka::kafka_error_text;
use crate::kafka::producer_enqueue;
use crate::kafka::ProducerHandle;
use crate::text::chars_to_string;
use crate::text::dec_chars;
use crate::text::dec_chars_i64;
use crate::text::dec_i64;
use crate::text::dec_u64;
use crate::text::lemma_dec_chars_injective;
use crate::text::str_chars;

verus! {

/// One record as it was handed to the broker client.
pub struct SentRecord {
    pub topic: Seq<char>,
    pub key: Seq<char>,
    pub payload: Seq<char>,
}

/// The synthetic key of the `i`-th generated record.
pub open spec fn key_chars(i: nat) -> Seq<char> {
    seq!['k', 'e', 'y', '-'] + dec_chars(i)
}

/// The synthetic payload of the `i`-th generated record.
pub open spec fn value_chars(i: nat) -> Seq<char> {
    seq!['v', 'a', 'l', 'u', 'e', '-'] + dec_chars(i)
}

/// The `j`-th record (counting from zero) of a generated batch: its key and
/// payload carry the one-based index.
pub open spec fn batch_entry(topic: Seq<char>, j: int) -> SentRecord {
    SentRecord { topic, key: key_chars((j + 1) as nat), payload: value_chars((j + 1) as nat) }
}

/// The first `n` records of a generated batch, in order.
pub open spec fn batch(topic: Seq<char>, n: nat) -> Seq<SentRecord> {
    Seq::new(n, |j: int| batch_entry(topic, j))
}

/// An empty send log.
pub open spec fn no_sends() -> Seq<SentRecord> {
    Seq::empty()
}

/// Law: within one generated batch all keys are pairwise distinct, so the
/// records handed to the broker client carry no duplicate key and none is
/// missing from the log.
pub proof fn lemma_batch_keys_distinct(topic: Seq<char>, n: nat, i: int, j: int)
    requires
        0 <= i < j < n,
    ensures
        batch(topic, n)[i].key != batch(topic, n)[j].key,
{
    let a = (i + 1) as nat;
    let b = (j + 1) as nat;
    if key_chars(a) == key_chars(b) {
        assert(key_chars(a).skip(4) =~= dec_chars(a));
        assert(key_chars(b).skip(4) =~= dec_chars(b));
        lemma_dec_chars_injective(a, b);
        assert(false);
    }
}

/// The synthetic key of the `i`-th generated record, as a string.
pub fn key_string(i: u64) -> (s: String)
    ensures
        s@ == key_chars(i as nat),
{
    let mut v: Vec<char> = Vec::new();
    v.push('k');
    v.push('e');
    v.push('y');
    v.push('-');
    let mut d = dec_u64(i);
    v.append(&mut d);
    proof {
        assert(v@ =~= key_chars(i as nat));
    }
    chars_to_string(&v)
}

/// The synthetic payload of the `i`-th generated record, as a string.
pub fn value_string(i: u64) -> (s: String)
    ensures
        s@ == value_chars(i as nat),
{
    let mut v: Vec<char> = Vec::new();
    v.push('v');
    v.push('a');
    v.push('l');
    v.push('u');
    v.push('e');
    v.push('-');
    let mut d = dec_u64(i);
    v.append(&mut d);
    proof {
        assert(v@ =~= value_chars(i as nat));
    }
    chars_to_string(&v)
}

/// The confirmation line for a batched send, as the command layer reports
/// it. It names the requested count, while one fewer record is generated.
pub open spec fn confirmation_chars(count: int, topic: Seq<char>) -> Seq<char> {
    seq!['s', 'e', 'n', 't', ' '] + dec_chars_i64(count) + seq![' ', 't', 'o', ' '] + topic
        + seq![' ', 't', 'o', 'p', 'i', 'c']
}

/// Renders the confirmation line for a batched send.
pub fn send_confirmation(count: i32, topic: &str) -> (s: String)
    ensures
        s@ == confirmation_chars(count as int, topic@),
{
    let mut v: Vec<char> = Vec::new();
    v.push('s');
    v.push('e');
    v.push('n');
    v.push('t');
    v.push(' ');
    let mut d = dec_i64(count as i64);
    v.append(&mut d);
    v.push(' ');
    v.push('t');
    v.push('o');
    v.push(' ');
    let mut t = str_chars(topic);
    v.append(&mut t);
    v.push(' ');
    v.push('t');
    v.push('o');
    v.push('p');
    v.push('i');
    v.push('c');
    proof {
        assert(v@ =~= confirmation_chars(count as int, topic@));
    }
    chars_to_string(&v)
}

/// What a batched send accomplished: how many records were handed over
/// before the first failure, and that failure when there was one.
pub struct SendReport {
    pub sent: u32,
    pub error: Option<SendError>,
}

/// One long-lived producer handle. Every record handed to the broker client
/// is recorded in a ghost log, so contracts can speak of exactly what was
/// sent and in what order.
pub struct ProducerService {
    handle: ProducerHandle,
    sent: Ghost<Seq<SentRecord>>,
}

impl ProducerService {
    /// Every record handed to the broker client so far, in order.
    pub closed spec fn log(self) -> Seq<SentRecord> {
        self.sent@
    }

    /// Builds the producer client from the configuration. An error here is
    /// fatal at construction: the broker client refused the settings.
    pub fn connect(cfg: &BrokerConfig) -> (r: Result<ProducerService, ConfigError>)
        ensures
            r matches Ok(p) ==> p.log() == no_sends(),
    {
        let config = cfg.producer_config();
        match config_create_producer(&config) {
            Ok(handle) => Ok(ProducerService { handle, sent: Ghost(Seq::empty()) }),
            Err(e) => Err(ConfigError::Broker(kafka_error_text(&e))),
        }
    }

    /// Enqueues one record for asynchronous delivery to the topic. On
    /// success exactly this record is appended to the send log; on failure
    /// the log is unchanged and the transport's complaint is reported.
    pub fn send(&mut self, topic: &str, key: &str, payload: &str) -> (r: Result<(), SendError>)
        ensures
            r is Ok ==> final(self).log() == old(self).log().push(
                (SentRecord { topic: topic@, key: key@, payload: payload@ }),
            ),
            r is Err ==> final(self).log() == old(self).log(),
            r matches Err(e) ==> e is Transport,
    {
        match producer_enqueue(&self.handle, topic, key, payload) {
            Ok(()) => {
                proof {
                    let entry = SentRecord { topic: topic@, key: key@, payload: payload@ };
                    self.sent@ = self.sent@.push(entry);
                }
                Ok(())
            },
            Err(e) => Err(SendError::Transport(kafka_error_text(&e))),
        }
    }

    /// Issues `count - 1` sequential sends of synthetic records (keys
    /// `key-1`, `key-2`, ... with matching payloads) to the topic: generated
    /// traffic for tests and demonstrations. The first failure aborts the
    /// rest; the report says how many records were handed over, and the send
    /// log gains exactly that prefix of the batch.
    pub fn send_batch(&mut self, topic: &str, count: i32) -> (r: SendReport)
        ensures
            final(self).log() == old(self).log() + batch(topic@, r.sent as nat),
            r.error is None ==> r.sent == if count >= 1 {
                (count - 1) as int
            } else {
                0
            },
            r.error is Some ==> count >= 2 && r.sent < count - 1,
    {
        let ghost orig = self.log();
        let mut sent: u32 = 0;
        let mut i: i32 = 1;
        proof {
            assert(orig + batch(topic@, 0) =~= orig);
        }
        while i < count
            invariant
                orig == old(self).log(),
                1 <= i,
                count >= 1 ==> i <= count,
                count < 1 ==> i == 1,
                sent == i - 1,
                self.log() == orig + batch(topic@, sent as nat),
            decreases count - i,
        {
            let key = key_string(i as u64);
            let value = value_string(i as u64);
            match self.send(topic, key.as_str(), value.as_str()) {
                Ok(()) => {
                    proof {
                        assert(batch(topic@, (sent + 1) as nat) =~= batch(
                            topic@,
                            sent as nat,
                        ).push(batch_entry(topic@, sent as int)));
                        assert((orig + batch(topic@, sent as nat)).push(
                            batch_entry(topic@, sent as int),
                        ) =~= orig + batch(topic@, (sent + 1) as nat));
                    }
                    sent = sent + 1;
                    i = i + 1;
                },
                Err(e) => {
                    return SendReport { sent, error: Some(e) };
                },
            }
        }
        SendReport { sent, error: None }
    }
}

} // verus!
