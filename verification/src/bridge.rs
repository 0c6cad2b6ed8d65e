//! The event bridge: drives a consumer's receive loop one bounded step at a
//! time, decodes each record into a transport-neutral event, and forwards it
//! to a subscriber. The session is cancellable: a stop request takes effect
//! on the next step, within one receive-timeout interval.
//!
//! Ordering policy: within one partition events are forwarded in
//! non-decreasing offset order; a record older than the partition's newest
//! delivered offset is not forwarded and is counted in the telemetry.
//! Backpressure policy: an event the subscriber cannot take is dropped and
//! counted in the telemetry, never silently. Both policies stand in the
//! contracts: every attempt's outcome is named, and each names exactly what
//! changed in the delivery log and the counters.

use vstd::prelude::*;
use crate::consumer::bumped;
use crate::consumer::ConsumerService;
use crate::errors::RecvError;
use crate::errors::SubscribeError;
use crate::record::decode_record;
use crate::record::decoded_event;
use crate::record::Record;
use crate::record::RecordEvent;
use crate::record::topic_names_ok;
use crate::record::RecordEventView;
use crate::record::RecordView;

verus! {

/// A sink for decoded events; its lifetime belongs to the presentation
/// layer, not to the bridge.
pub trait Subscriber {
    /// Accepts one event; `false` when the sink cannot take it (closed or
    /// full), in which case the bridge counts the event as dropped.
    fn accept(&mut self, event: &RecordEvent) -> bool;
}

/// A subscriber that keeps every event it is handed: the crate's own
/// concrete subscriber, also convenient for tests.
pub struct VecSubscriber {
    pub events: Vec<RecordEvent>,
}

impl VecSubscriber {
    /// An empty subscriber.
    pub fn new() -> (s: VecSubscriber)
        ensures
            s.events@.len() == 0,
    {
        VecSubscriber { events: Vec::new() }
    }
}

impl Subscriber for VecSubscriber {
    fn accept(&mut self, event: &RecordEvent) -> (taken: bool)
        ensures
            taken,
            final(self).events.deep_view() == old(self).events.deep_view().push(event@),
    {
        self.events.push(event.duplicate());
        proof {
            assert(self.events.deep_view() =~= old(self).events.deep_view().push(event@));
        }
        true
    }
}

/// The newest value recorded for a partition: the first matching entry wins.
spec fn lookup(entries: Seq<(i32, i64)>, p: int) -> Option<int>
    decreases entries.len(),
{
    if entries.len() == 0 {
        None
    } else if entries[0].0 == p {
        Some(entries[0].1 as int)
    } else {
        lookup(entries.drop_first(), p)
    }
}

/// Updating the first entry of a key leaves every other key's lookup alone
/// and makes the key's lookup the new value.
proof fn lemma_lookup_update(s: Seq<(i32, i64)>, idx: int, p: i32, o: i64, q: int)
    requires
        0 <= idx < s.len(),
        s[idx].0 == p,
        forall|k: int| 0 <= k < idx ==> (#[trigger] s[k]).0 != p,
    ensures
        lookup(s.update(idx, (p, o)), p as int) == Some(o as int),
        q != p ==> lookup(s.update(idx, (p, o)), q) == lookup(s, q),
    decreases idx,
{
    let t = s.update(idx, (p, o));
    if idx == 0 {
        assert(t.drop_first() =~= s.drop_first());
    } else {
        assert(t.drop_first() =~= s.drop_first().update(idx - 1, (p, o)));
        assert(forall|k: int|
            0 <= k < idx - 1 ==> (#[trigger] s.drop_first()[k]).0 != p) by {
            assert(forall|k: int|
                0 <= k < idx - 1 ==> s.drop_first()[k] == #[trigger] s[k + 1]);
        }
        lemma_lookup_update(s.drop_first(), idx - 1, p, o, q);
    }
}

/// The newest offset recorded for a partition.
fn find_offset(entries: &Vec<(i32, i64)>, p: i32) -> (r: Option<i64>)
    ensures
        match r {
            Some(o) => lookup(entries@, p as int) == Some(o as int),
            None => lookup(entries@, p as int) is None,
        },
{
    let mut j: usize = 0;
    proof {
        assert(entries@.skip(0) =~= entries@);
    }
    while j < entries.len()
        invariant
            j <= entries@.len(),
            lookup(entries@, p as int) == lookup(entries@.skip(j as int), p as int),
        decreases entries@.len() - j,
    {
        proof {
            assert(entries@.skip(j as int)[0] == entries@[j as int]);
            assert(entries@.skip(j as int).drop_first() =~= entries@.skip(j + 1));
        }
        if entries[j].0 == p {
            return Some(entries[j].1);
        }
        j = j + 1;
    }
    None
}

/// Records the newest offset for a partition.
fn set_offset(entries: &mut Vec<(i32, i64)>, p: i32, o: i64)
    ensures
        lookup(final(entries)@, p as int) == Some(o as int),
        forall|q: int| q != p ==> lookup(final(entries)@, q) == lookup(old(entries)@, q),
{
    let mut j: usize = 0;
    while j < entries.len()
        invariant
            j <= entries@.len(),
            entries@ == old(entries)@,
            forall|k: int| 0 <= k < j ==> (#[trigger] entries@[k]).0 != p,
        decreases entries@.len() - j,
    {
        if entries[j].0 == p {
            entries[j] = (p, o);
            proof {
                assert forall|q: int| q != p implies lookup(entries@, q) == lookup(
                    old(entries)@,
                    q,
                ) by {
                    lemma_lookup_update(old(entries)@, j as int, p, o, q);
                }
                lemma_lookup_update(old(entries)@, j as int, p, o, 0);
            }
            return;
        }
        j = j + 1;
    }
    entries.insert(0, (p, o));
    proof {
        assert(entries@.drop_first() =~= old(entries)@);
    }
}

/// A saturating counter bumped by one.
fn bump(n: u64) -> (r: u64)
    ensures
        r == bumped(n),
{
    if n < u64::MAX {
        n + 1
    } else {
        n
    }
}

/// Events within one partition carry non-decreasing offsets, in order.
pub open spec fn ordered(s: Seq<RecordEventView>) -> bool {
    forall|k1: int, k2: int|
        0 <= k1 <= k2 < s.len() && (#[trigger] s[k1]).partition == (#[trigger] s[k2]).partition
            ==> s[k1].offset <= s[k2].offset
}

/// The offset of the newest delivered event of a partition, if any.
pub open spec fn newest_delivered(s: Seq<RecordEventView>, p: int) -> Option<int>
    decreases s.len(),
{
    if s.len() == 0 {
        None
    } else if s.last().partition == p {
        Some(s.last().offset)
    } else {
        newest_delivered(s.drop_last(), p)
    }
}

/// Whether a record keeps its partition's delivery order: its offset is not
/// below the newest delivered offset of that partition.
pub open spec fn keeps_order(s: Seq<RecordEventView>, r: RecordView) -> bool {
    match newest_delivered(s, r.partition) {
        Some(o) => r.offset >= o,
        None => true,
    }
}

/// In an ordered delivery log, the newest delivered offset of a partition
/// bounds every delivered offset of that partition.
proof fn lemma_newest_bounds(s: Seq<RecordEventView>, p: int, k: int)
    requires
        ordered(s),
        0 <= k < s.len(),
        s[k].partition == p,
    ensures
        newest_delivered(s, p) matches Some(o) && s[k].offset <= o,
    decreases s.len(),
{
    if s.last().partition == p {
        assert(s[k].offset <= s.last().offset);
    } else {
        assert(k < s.len() - 1);
        assert(forall|k1: int, k2: int|
            0 <= k1 <= k2 < s.drop_last().len() && (#[trigger] s.drop_last()[k1]).partition == (
            #[trigger] s.drop_last()[k2]).partition ==> s.drop_last()[k1].offset
                <= s.drop_last()[k2].offset) by {
            assert(forall|k1: int|
                0 <= k1 < s.drop_last().len() ==> #[trigger] s.drop_last()[k1] == s[k1]);
        }
        lemma_newest_bounds(s.drop_last(), p, k);
    }
}

/// Telemetry of one consumption session: how many events were forwarded,
/// how many records arrived below their partition's newest delivered offset,
/// how many events the subscriber refused, and how many receive attempts
/// failed transiently.
pub struct BridgeStats {
    pub forwarded: u64,
    pub out_of_order: u64,
    pub dropped: u64,
    pub recv_failures: u64,
}

/// The telemetry after one more forwarded event.
pub open spec fn with_forwarded(s: BridgeStats) -> BridgeStats {
    BridgeStats {
        forwarded: bumped(s.forwarded),
        out_of_order: s.out_of_order,
        dropped: s.dropped,
        recv_failures: s.recv_failures,
    }
}

/// The telemetry after one more record arrived out of order.
pub open spec fn with_out_of_order(s: BridgeStats) -> BridgeStats {
    BridgeStats {
        forwarded: s.forwarded,
        out_of_order: bumped(s.out_of_order),
        dropped: s.dropped,
        recv_failures: s.recv_failures,
    }
}

/// The telemetry after one more event the subscriber refused.
pub open spec fn with_dropped(s: BridgeStats) -> BridgeStats {
    BridgeStats {
        forwarded: s.forwarded,
        out_of_order: s.out_of_order,
        dropped: bumped(s.dropped),
        recv_failures: s.recv_failures,
    }
}

/// The telemetry after one more failed receive attempt.
pub open spec fn with_recv_failure(s: BridgeStats) -> BridgeStats {
    BridgeStats {
        forwarded: s.forwarded,
        out_of_order: s.out_of_order,
        dropped: s.dropped,
        recv_failures: bumped(s.recv_failures),
    }
}

/// What one delivery attempt did with a record.
#[derive(Debug, Clone, Copy, PartialEq, Eq, Structural)]
pub enum DeliverOutcome {
    /// The decoded event was handed to the subscriber, which took it.
    Forwarded,
    /// The record lay below its partition's newest delivered offset and was
    /// not forwarded; counted.
    OutOfOrder,
    /// The subscriber could not take the event; counted, not forwarded.
    Refused,
}

/// What one step of the session did, so a caller can tell "no message right
/// now" apart from "the session ended" and from a transient failure.
#[derive(Debug, Clone, Copy, PartialEq, Eq, Structural)]
pub enum StepOutcome {
    /// The session ended: a stop was pending, or the consumer was
    /// unsubscribed from outside.
    Ended,
    /// One record arrived and its event was forwarded.
    Forwarded,
    /// One record arrived below its partition's newest delivered offset.
    OutOfOrder,
    /// One record arrived but the subscriber could not take its event.
    Refused,
    /// The receive attempt failed transiently; counted, session goes on.
    ReceiveFailed,
    /// Nothing arrived within the timeout.
    Quiet,
}

/// Drives one consumption session: subscribe, then bounded receive steps
/// that decode and forward records, until a stop request or an outside
/// unsubscribe ends the session. At most one session runs per consumer: a
/// bridge must be stopped before it starts again.
pub struct EventBridge {
    running: bool,
    stop_requested: bool,
    highest: Vec<(i32, i64)>,
    forwarded: u64,
    out_of_order: u64,
    dropped: u64,
    recv_failures: u64,
    delivered: Ghost<Seq<RecordEventView>>,
}

impl EventBridge {
    /// Whether a session is active.
    pub closed spec fn is_running(self) -> bool {
        self.running
    }

    /// Whether a stop was requested and not yet honoured.
    pub closed spec fn stop_pending(self) -> bool {
        self.stop_requested
    }

    /// Every event forwarded to the subscriber so far, in delivery order.
    pub closed spec fn deliveries(self) -> Seq<RecordEventView> {
        self.delivered@
    }

    /// The bridge's invariant: the delivery log is ordered within each
    /// partition, and the recorded newest offset of every partition is
    /// exactly the newest delivered offset of the log.
    pub closed spec fn wf(self) -> bool {
        &&& ordered(self.delivered@)
        &&& forall|p: int|
            #[trigger] lookup(self.highest@, p) == newest_delivered(self.delivered@, p)
    }

    /// The session telemetry.
    pub closed spec fn stats(self) -> BridgeStats {
        BridgeStats {
            forwarded: self.forwarded,
            out_of_order: self.out_of_order,
            dropped: self.dropped,
            recv_failures: self.recv_failures,
        }
    }

    /// A fresh bridge: no session, no stop request, nothing delivered.
    pub fn new() -> (b: EventBridge)
        ensures
            b.wf(),
            !b.is_running(),
            !b.stop_pending(),
            b.deliveries().len() == 0,
            b.stats() == (BridgeStats {
                forwarded: 0,
                out_of_order: 0,
                dropped: 0,
                recv_failures: 0,
            }),
    {
        EventBridge {
            running: false,
            stop_requested: false,
            highest: Vec::new(),
            forwarded: 0,
            out_of_order: 0,
            dropped: 0,
            recv_failures: 0,
            delivered: Ghost(Seq::empty()),
        }
    }

    /// The session telemetry, for a caller.
    pub fn telemetry(&self) -> (s: BridgeStats)
        ensures
            s == self.stats(),
    {
        BridgeStats {
            forwarded: self.forwarded,
            out_of_order: self.out_of_order,
            dropped: self.dropped,
            recv_failures: self.recv_failures,
        }
    }

    /// Whether a session is active, for a caller.
    pub fn active(&self) -> (r: bool)
        ensures
            r == self.is_running(),
    {
        self.running
    }

    /// Begins a session: subscribes the consumer to the topics and marks the
    /// session running. Fails with `InvalidTopics` exactly on an empty topic
    /// list or a topic name the broker client cannot take; a broker refusal
    /// leaves consumer and bridge unchanged.
    pub fn start(
        &mut self,
        consumer: &mut ConsumerService,
        topics: &Vec<String>,
    ) -> (r: Result<(), SubscribeError>)
        requires
            old(self).wf(),
            !old(self).is_running(),
        ensures
            final(self).wf(),
            final(self).deliveries() == old(self).deliveries(),
            final(self).stats() == old(self).stats(),
            r matches Err(SubscribeError::InvalidTopics) <==> (topics@.len() == 0
                || !topic_names_ok(topics.deep_view())),
            r is Ok ==> final(self).is_running() && !final(self).stop_pending()
                && final(consumer).spec_phase() is Subscribed
                && final(consumer).subscription() == topics.deep_view(),
            r is Err ==> !final(self).is_running()
                && final(consumer).spec_phase() == old(consumer).spec_phase(),
    {
        match consumer.subscribe(topics) {
            Ok(()) => {
                self.running = true;
                self.stop_requested = false;
                Ok(())
            },
            Err(e) => Err(e),
        }
    }

    /// Requests that the session stop. Idempotent; takes effect on the next
    /// step, so within one receive-timeout interval.
    pub fn request_stop(&mut self)
        ensures
            final(self).wf() == old(self).wf(),
            final(self).stop_pending(),
            final(self).is_running() == old(self).is_running(),
            final(self).deliveries() == old(self).deliveries(),
            final(self).stats() == old(self).stats(),
    {
        self.stop_requested = true;
    }

    /// Decodes one record and forwards it to the subscriber, subject to the
    /// ordering and backpressure policies. A record below its partition's
    /// newest delivered offset is turned away, and exactly then; otherwise
    /// the decoded event is handed to the subscriber. Each outcome names
    /// exactly what happened: what the delivery log gained and which counter
    /// was bumped. Only the subscriber's own verdict (taken or refused) is
    /// left open, since the sink is the caller's.
    pub fn deliver<S: Subscriber>(
        &mut self,
        rec: &Record,
        subscriber: &mut S,
    ) -> (r: DeliverOutcome)
        requires
            old(self).wf(),
        ensures
            final(self).wf(),
            final(self).is_running() == old(self).is_running(),
            final(self).stop_pending() == old(self).stop_pending(),
            r is OutOfOrder <==> !keeps_order(old(self).deliveries(), rec@),
            r is Forwarded ==> final(self).deliveries() == old(self).deliveries().push(
                decoded_event(rec@),
            ) && final(self).stats() == with_forwarded(old(self).stats()),
            r is OutOfOrder ==> final(self).deliveries() == old(self).deliveries()
                && final(self).stats() == with_out_of_order(old(self).stats()),
            r is Refused ==> final(self).deliveries() == old(self).deliveries()
                && final(self).stats() == with_dropped(old(self).stats()),
    {
        let ev = decode_record(rec);
        let keeps: bool = match find_offset(&self.highest, rec.partition) {
            None => true,
            Some(prev) => rec.offset >= prev,
        };
        proof {
            assert(lookup(self.highest@, rec.partition as int) == newest_delivered(
                self.delivered@,
                rec@.partition,
            ));
            assert(keeps == keeps_order(self.delivered@, rec@));
        }
        if !keeps {
            self.out_of_order = bump(self.out_of_order);
            return DeliverOutcome::OutOfOrder;
        }
        if subscriber.accept(&ev) {
            set_offset(&mut self.highest, rec.partition, rec.offset);
            self.forwarded = bump(self.forwarded);
            proof {
                let s0 = self.delivered@;
                let e = ev@;
                self.delivered@ = s0.push(e);
                assert(s0.push(e).drop_last() =~= s0);
                assert(s0.push(e).last() == e);
                assert forall|k1: int, k2: int|
                    0 <= k1 <= k2 < s0.push(e).len() && (#[trigger] s0.push(e)[k1]).partition == (
                    #[trigger] s0.push(e)[k2]).partition implies s0.push(e)[k1].offset <= s0.push(
                    e,
                )[k2].offset by {
                    if k2 < s0.len() {
                        assert(s0.push(e)[k1] == s0[k1] && s0.push(e)[k2] == s0[k2]);
                    } else if k1 < s0.len() {
                        assert(s0.push(e)[k1] == s0[k1] && s0.push(e)[k2] == e);
                        lemma_newest_bounds(s0, e.partition, k1);
                    }
                }
                assert forall|p: int|
                    #[trigger] lookup(self.highest@, p) == newest_delivered(
                        self.delivered@,
                        p,
                    ) by {
                    if p != e.partition {
                        assert(newest_delivered(s0.push(e), p) == newest_delivered(s0, p));
                    }
                }
            }
            DeliverOutcome::Forwarded
        } else {
            self.dropped = bump(self.dropped);
            DeliverOutcome::Refused
        }
    }

    /// One bounded step of the session: honours a pending stop request by
    /// unsubscribing and ending the session; otherwise waits up to the
    /// timeout for one record and delivers it. The session ends exactly when
    /// a stop was pending or the consumer was unsubscribed from outside; a
    /// transient broker error is counted and the session goes on, so a
    /// subscriber can tell a quiet interval from a dead session. Every
    /// outcome names exactly what the delivery log gained and which counter
    /// was bumped.
    pub fn step<S: Subscriber>(
        &mut self,
        consumer: &mut ConsumerService,
        subscriber: &mut S,
        timeout_ms: u64,
    ) -> (r: StepOutcome)
        requires
            old(self).wf(),
            old(self).is_running(),
        ensures
            final(self).wf(),
            final(self).stop_pending() == old(self).stop_pending(),
            r is Ended <==> (old(self).stop_pending() || !(old(consumer).spec_phase()
                is Subscribed)),
            old(self).stop_pending() ==> final(consumer).spec_phase() is Unsubscribed,
            r is Ended ==> !final(self).is_running() && !(final(consumer).spec_phase()
                is Subscribed) && final(self).deliveries() == old(self).deliveries()
                && final(self).stats() == old(self).stats(),
            !(r is Ended) ==> final(self).is_running()
                && final(consumer).spec_phase() == old(consumer).spec_phase()
                && old(self).deliveries().is_prefix_of(final(self).deliveries()),
            r is Forwarded ==> final(self).deliveries().len() == old(self).deliveries().len() + 1
                && final(self).stats() == with_forwarded(old(self).stats()),
            r is OutOfOrder ==> final(self).deliveries() == old(self).deliveries()
                && final(self).stats() == with_out_of_order(old(self).stats()),
            r is Refused ==> final(self).deliveries() == old(self).deliveries()
                && final(self).stats() == with_dropped(old(self).stats()),
            r is ReceiveFailed ==> final(self).deliveries() == old(self).deliveries()
                && final(self).stats() == with_recv_failure(old(self).stats()),
            r is Quiet ==> final(self).deliveries() == old(self).deliveries()
                && final(self).stats() == old(self).stats(),
    {
        if self.stop_requested {
            consumer.unsubscribe();
            self.running = false;
            return StepOutcome::Ended;
        }
        match consumer.receive_one(timeout_ms) {
            Err(RecvError::Cancelled) => {
                self.running = false;
                StepOutcome::Ended
            },
            Err(RecvError::Transport(_)) => {
                self.recv_failures = bump(self.recv_failures);
                StepOutcome::ReceiveFailed
            },
            Ok(None) => StepOutcome::Quiet,
            Ok(Some(rec)) => {
                let outcome = self.deliver(&rec, subscriber);
                proof {
                    assert(old(self).deliveries().is_prefix_of(self.deliveries()));
                }
                match outcome {
                    DeliverOutcome::Forwarded => StepOutcome::Forwarded,
                    DeliverOutcome::OutOfOrder => StepOutcome::OutOfOrder,
                    DeliverOutcome::Refused => StepOutcome::Refused,
                }
            },
        }
    }

    /// Drives the session for up to `max_steps` bounded steps: the
    /// session's receive loop, with an explicit stop check on every
    /// iteration. Returns whether the session ended; when the budget runs
    /// out first, the session stays active and the caller may drive it
    /// further. A stop pending on entry is honoured on the very first step,
    /// so within one receive-timeout interval, and leaves the consumer
    /// unsubscribed and ready for a later session. Every delivery made stays
    /// in order: the invariant holds throughout.
    pub fn run<S: Subscriber>(
        &mut self,
        consumer: &mut ConsumerService,
        subscriber: &mut S,
        timeout_ms: u64,
        max_steps: u64,
    ) -> (done: bool)
        requires
            old(self).wf(),
            old(self).is_running(),
        ensures
            final(self).wf(),
            final(self).stop_pending() == old(self).stop_pending(),
            done == !final(self).is_running(),
            old(self).deliveries().is_prefix_of(final(self).deliveries()),
            done ==> !(final(consumer).spec_phase() is Subscribed),
            old(self).stop_pending() && max_steps >= 1 ==> done && final(consumer).spec_phase()
                is Unsubscribed && final(self).deliveries() == old(self).deliveries(),
    {
        let ghost base = self.deliveries();
        let mut k: u64 = 0;
        while k < max_steps
            invariant
                self.wf(),
                self.is_running(),
                self.stop_pending() == old(self).stop_pending(),
                k > 0 ==> !old(self).stop_pending(),
                k == 0 ==> self.deliveries() == base,
                base == old(self).deliveries(),
                base.is_prefix_of(self.deliveries()),
            decreases max_steps - k,
        {
            let ghost pending = self.stop_pending();
            let outcome = self.step(consumer, subscriber, timeout_ms);
            match outcome {
                StepOutcome::Ended => {
                    proof {
                        assert(base =~= self.deliveries().take(base.len() as int));
                        if pending {
                            assert(self.deliveries() == base);
                        }
                    }
                    return true;
                },
                _ => {},
            }
            proof {
                assert(base =~= self.deliveries().take(base.len() as int));
            }
            k = k + 1;
        }
        false
    }
}

/// Law: events forwarded to the subscriber within one partition carry
/// non-decreasing offsets, in delivery order — for every reachable bridge
/// state, since every operation preserves the invariant.
pub proof fn lemma_partition_delivery_order(b: EventBridge, i: int, j: int)
    requires
        b.wf(),
        0 <= i <= j < b.deliveries().len(),
        b.deliveries()[i].partition == b.deliveries()[j].partition,
    ensures
        b.deliveries()[i].offset <= b.deliveries()[j].offset,
{
}

} // verus!
