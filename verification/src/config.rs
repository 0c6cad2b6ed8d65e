//! Immutable connection parameters, validated once at construction, and the
//! translation of those parameters into broker client settings.

use vstd::prelude::*;
use crate::errors::ConfigError;
use crate::kafka::config_entries;
use crate::kafka::config_get;
use crate::kafka::config_get_log_level;
use crate::kafka::config_log_level;
use crate::kafka::config_set_log_level;
use crate::kafka::config_new;
use crate::kafka::config_set;
use crate::kafka::no_entries;
use crate::text::chars_to_string;
use crate::text::push_chars;
use crate::text::str_chars;

verus! {

/// How loud the broker client's own logging is, as the eight syslog-style
/// levels the client understands, quietest first.
#[derive(Clone, Copy, Debug, PartialEq, Eq, Structural)]
pub enum LogLevel {
    Emergency,
    Alert,
    Critical,
    Severe,
    Warning,
    Notice,
    Info,
    Verbose,
}

/// The numeric level the broker client is configured with.
pub open spec fn level_number(l: LogLevel) -> nat {
    match l {
        LogLevel::Emergency => 0,
        LogLevel::Alert => 1,
        LogLevel::Critical => 2,
        LogLevel::Severe => 3,
        LogLevel::Warning => 4,
        LogLevel::Notice => 5,
        LogLevel::Info => 6,
        LogLevel::Verbose => 7,
    }
}

/// A character a bootstrap endpoint may contain: anything but the separator
/// of the endpoint list and whitespace.
pub open spec fn endpoint_char_ok(c: char) -> bool {
    c != ',' && c != ' ' && c != '\t' && c != '\n'
}

/// A well-formed bootstrap endpoint: non-empty, no separator, no whitespace.
pub open spec fn endpoint_ok(s: Seq<char>) -> bool {
    s.len() > 0 && forall|i: int| 0 <= i < s.len() ==> endpoint_char_ok(#[trigger] s[i])
}

/// A well-formed endpoint list: non-empty, every endpoint well-formed.
pub open spec fn endpoints_ok(es: Seq<Seq<char>>) -> bool {
    es.len() > 0 && forall|i: int| 0 <= i < es.len() ==> endpoint_ok(#[trigger] es[i])
}

/// The endpoint list joined into one comma-separated value.
pub open spec fn joined(es: Seq<Seq<char>>) -> Seq<char>
    decreases es.len(),
{
    if es.len() == 0 {
        Seq::empty()
    } else if es.len() == 1 {
        es[0]
    } else {
        joined(es.drop_last()) + seq![','] + es.last()
    }
}

/// The rendering of a flag as the broker client reads it.
pub open spec fn bool_chars(b: bool) -> Seq<char> {
    if b {
        seq!['t', 'r', 'u', 'e']
    } else {
        seq!['f', 'a', 'l', 's', 'e']
    }
}

/// Immutable connection parameters: bootstrap endpoints, consumer group id,
/// offset auto-commit policy and log verbosity. Shared by the producer and
/// consumer services for their whole lifetime.
#[derive(Debug, Clone)]
pub struct BrokerConfig {
    endpoints: Vec<String>,
    group_id: String,
    auto_commit: bool,
    log_level: LogLevel,
}

impl BrokerConfig {
    /// The endpoint list as sequences of characters.
    pub closed spec fn endpoints_view(self) -> Seq<Seq<char>> {
        self.endpoints.deep_view()
    }

    /// The consumer group id.
    pub closed spec fn group_id_view(self) -> Seq<char> {
        self.group_id@
    }

    /// Whether offsets are committed automatically.
    pub closed spec fn auto_commit_set(self) -> bool {
        self.auto_commit
    }

    /// The configured verbosity.
    pub closed spec fn level(self) -> LogLevel {
        self.log_level
    }

    /// A valid configuration: its endpoint list is well-formed.
    pub open spec fn wf(self) -> bool {
        endpoints_ok(self.endpoints_view())
    }

    /// Validates the parameters and builds the configuration. Succeeds
    /// exactly when the endpoint list is non-empty and every endpoint is
    /// well-formed; otherwise reports the first problem found.
    pub fn new(
        endpoints: Vec<String>,
        group_id: String,
        auto_commit: bool,
        log_level: LogLevel,
    ) -> (r: Result<BrokerConfig, ConfigError>)
        ensures
            r is Ok <==> endpoints_ok(endpoints.deep_view()),
            r matches Ok(c) ==> c.endpoints_view() == endpoints.deep_view()
                && c.group_id_view() == group_id@ && c.auto_commit_set() == auto_commit
                && c.level() == log_level && c.wf(),
            r matches Err(e) ==> match e {
                ConfigError::NoEndpoints => endpoints.deep_view().len() == 0,
                ConfigError::MalformedEndpoint(i) => 0 <= i < endpoints.deep_view().len()
                    && !endpoint_ok(endpoints.deep_view()[i as int]),
                ConfigError::Broker(_) => false,
            },
    {
        if endpoints.len() == 0 {
            return Err(ConfigError::NoEndpoints);
        }
        let mut i: usize = 0;
        while i < endpoints.len()
            invariant
                i <= endpoints.len(),
                forall|k: int| 0 <= k < i ==> endpoint_ok(#[trigger] endpoints.deep_view()[k]),
            decreases endpoints.len() - i,
        {
            if !endpoint_is_ok(&endpoints[i]) {
                proof {
                    assert(endpoints.deep_view()[i as int] == endpoints@[i as int]@);
                }
                return Err(ConfigError::MalformedEndpoint(i));
            }
            proof {
                assert(endpoints.deep_view()[i as int] == endpoints@[i as int]@);
            }
            i = i + 1;
        }
        Ok(BrokerConfig { endpoints, group_id, auto_commit, log_level })
    }

    /// The value handed to the broker client as its bootstrap endpoint list:
    /// the endpoints joined with commas.
    pub fn bootstrap_value(&self) -> (s: String)
        ensures
            s@ == joined(self.endpoints_view()),
    {
        let ghost es = self.endpoints_view();
        let mut out: Vec<char> = Vec::new();
        let mut i: usize = 0;
        while i < self.endpoints.len()
            invariant
                i <= self.endpoints.len(),
                es == self.endpoints.deep_view(),
                es.len() == self.endpoints@.len(),
                out@ == joined(es.take(i as int)),
            decreases self.endpoints.len() - i,
        {
            if i > 0 {
                out.push(',');
            }
            let cs = str_chars(self.endpoints[i].as_str());
            push_chars(&mut out, &cs);
            proof {
                assert(es[i as int] == self.endpoints@[i as int]@);
                assert(es.take(i + 1).drop_last() =~= es.take(i as int));
                assert(es.take(i + 1).last() == es[i as int]);
                if i == 0 {
                    assert(out@ =~= joined(es.take(i + 1)));
                } else {
                    assert(out@ =~= joined(es.take(i as int)) + seq![','] + es[i as int]);
                }
            }
            i = i + 1;
        }
        proof {
            assert(es.take(es.len() as int) =~= es);
        }
        chars_to_string(&out)
    }

    /// The settings a producer client is created with.
    pub open spec fn producer_entries(self) -> Map<Seq<char>, Seq<char>> {
        no_entries().insert("bootstrap.servers"@, joined(self.endpoints_view()))
    }

    /// The settings a consumer client is created with.
    pub open spec fn consumer_entries(self) -> Map<Seq<char>, Seq<char>> {
        no_entries().insert("group.id"@, self.group_id_view()).insert(
            "bootstrap.servers"@,
            joined(self.endpoints_view()),
        ).insert("enable.auto.commit"@, bool_chars(self.auto_commit_set()))
    }

    /// Builds the producer client settings.
    pub fn producer_config(&self) -> (c: rdkafka::ClientConfig)
        ensures
            config_entries(c) == self.producer_entries(),
    {
        let mut c = config_new();
        let bootstrap = self.bootstrap_value();
        config_set(&mut c, "bootstrap.servers", bootstrap.as_str());
        c
    }

    /// Builds the consumer client settings, the configured verbosity
    /// included: the broker client applies that level to its native logger
    /// when the consumer is created.
    pub fn consumer_config(&self) -> (c: rdkafka::ClientConfig)
        ensures
            config_entries(c) == self.consumer_entries(),
            config_log_level(c) == level_number(self.level()),
    {
        let mut c = config_new();
        config_set(&mut c, "group.id", self.group_id.as_str());
        let bootstrap = self.bootstrap_value();
        config_set(&mut c, "bootstrap.servers", bootstrap.as_str());
        config_set(&mut c, "enable.auto.commit", bool_value(self.auto_commit));
        config_set_log_level(&mut c, level_code(self.log_level));
        c
    }
}

/// Whether one endpoint is well-formed.
fn endpoint_is_ok(s: &String) -> (b: bool)
    ensures
        b == endpoint_ok(s@),
{
    let cs = str_chars(s.as_str());
    if cs.len() == 0 {
        return false;
    }
    let mut j: usize = 0;
    while j < cs.len()
        invariant
            j <= cs.len(),
            cs@ == s@,
            forall|k: int| 0 <= k < j ==> endpoint_char_ok(#[trigger] cs@[k]),
        decreases cs.len() - j,
    {
        let c = cs[j];
        if c == ',' || c == ' ' || c == '\t' || c == '\n' {
            return false;
        }
        j = j + 1;
    }
    true
}

/// The flag rendering the broker client reads.
fn bool_value(b: bool) -> (s: &'static str)
    ensures
        s@ == bool_chars(b),
{
    if b {
        let s = "true";
        proof {
            reveal_strlit("true");
            assert(s@ =~= bool_chars(true));
        }
        s
    } else {
        let s = "false";
        proof {
            reveal_strlit("false");
            assert(s@ =~= bool_chars(false));
        }
        s
    }
}

/// The numeric code of a verbosity level.
fn level_code(l: LogLevel) -> (d: u8)
    ensures
        d == level_number(l),
        d <= 7,
{
    match l {
        LogLevel::Emergency => 0,
        LogLevel::Alert => 1,
        LogLevel::Critical => 2,
        LogLevel::Severe => 3,
        LogLevel::Warning => 4,
        LogLevel::Notice => 5,
        LogLevel::Info => 6,
        LogLevel::Verbose => 7,
    }
}

/// The verbosity a built client configuration carries.
pub fn config_verbosity(c: &rdkafka::ClientConfig) -> (r: u8)
    ensures
        r as nat == config_log_level(*c),
{
    config_get_log_level(c)
}

/// One setting of a built client configuration, looked up by key.
pub fn config_value(c: &rdkafka::ClientConfig, key: &str) -> (r: Option<String>)
    ensures
        r is Some <==> config_entries(*c).contains_key(key@),
        r matches Some(v) ==> v@ == config_entries(*c)[key@],
{
    config_get(c, key)
}

} // verus!
