//! The observer: from validated telemetry to metric updates.
//!
//! Each delivery is judged on its own. What passes validation updates the
//! store; what fails is counted as an invalid message against its sender and
//! dropped. No delivery makes the observer fail.

use crate::envelope::Envelope;
use crate::envelope::Heartbeat;
use crate::envelope::LogsCollected;
use crate::envelope::QueryExecuted;
use crate::families::Labels;
use crate::identity::PeerIdentity;
use crate::metrics::as_gauge;
use crate::metrics::client_labels;
use crate::metrics::counted;
use crate::metrics::incremented;
use crate::metrics::invalid_message;
use crate::metrics::lemma_worker_labels_distinct;
use crate::metrics::outcome_metric;
use crate::metrics::ping_labels;
use crate::metrics::ping_update;
use crate::metrics::query_update;
use crate::metrics::report_logs_collected;
use crate::metrics::report_ping;
use crate::metrics::report_query_executed;
use crate::metrics::sample;
use crate::metrics::worker_labels;
use crate::metrics::written;
use crate::metrics::Metric;
use crate::metrics::Metrics;
use crate::metrics::Samples;
use crate::ranges::datasets_chunks;
use crate::transport::Event;
use crate::transport::WorkerHeartbeat;
use crate::ranges::saturated;
use crate::validator::heartbeat_error;
use crate::validator::heartbeat_signed;
use crate::validator::record_error;
use crate::validator::record_judged;
use crate::validator::record_signed;
use crate::validator::validate_heartbeat;
use crate::validator::validate_logs_collected;
use crate::validator::validate_query_batch;
use crate::validator::HeartbeatError;
use crate::validator::LogsCollectedError;
use crate::validator::RecordError;
use crate::validator::ValidatedHeartbeat;
use crate::validator::ValidatedLogsCollected;
use crate::validator::ValidatedRecord;
use vstd::prelude::*;
use vstd::seq_lib::lemma_fold_left_permutation;

verus! {

/// What the transport hands the observer.
#[derive(Debug)]
pub enum ObserverEvent {
    /// A message of `sender` that was decoded.
    Delivered { sender: PeerIdentity, envelope: Envelope },
    /// A message of `sender` that could not be decoded.
    Undecodable { sender: PeerIdentity },
    /// A message to which the transport could attach no sender.
    Unattributed,
}

/// What became of one event: how many updates it made to the store and how
/// many messages or records of it were rejected.
#[derive(Clone, Copy, Debug, PartialEq, Eq, Structural)]
pub struct Handled {
    pub updates: usize,
    pub rejected: usize,
}

/// The samples after one invalid message of `sender` was counted.
pub open spec fn rejection(samples: Samples, sender: Option<Seq<char>>) -> Samples {
    incremented(samples, Metric::InvalidMessages, worker_labels(sender))
}

/// The sequence number a gauge shows for a collected log: the number that
/// follows the one reported, wrapping at the end of the 64-bit range.
pub open spec fn successor(seq_no: u64) -> u64 {
    if seq_no == u64::MAX {
        0
    } else {
        (seq_no + 1) as u64
    }
}

/// The samples after the entries of a report of collected logs were applied
/// in order.
pub open spec fn logs_update(samples: Samples, entries: Seq<(String, u64)>) -> Samples
    decreases entries.len(),
{
    if entries.len() == 0 {
        samples
    } else {
        written(
            logs_update(samples, entries.drop_last()),
            Metric::LastCollectedLog,
            worker_labels(Some(entries.last().0@)),
            as_gauge(successor(entries.last().1)) as int,
        )
    }
}

/// The samples after a judged heartbeat was applied.
pub open spec fn heartbeat_effect(
    samples: Samples,
    sender: Seq<char>,
    verdict: Result<ValidatedHeartbeat, HeartbeatError>,
) -> Samples {
    match verdict {
        Ok(valid) => ping_update(
            samples,
            valid.peer_id@,
            valid.version@,
            valid.stored_bytes,
            valid.total_chunks,
        ),
        Err(_) => rejection(samples, Some(sender)),
    }
}

/// The samples after a judged report of collected logs was applied.
pub open spec fn logs_effect(
    samples: Samples,
    sender: Seq<char>,
    verdict: Result<ValidatedLogsCollected, LogsCollectedError>,
) -> Samples {
    match verdict {
        Ok(valid) => logs_update(samples, valid.sequence_numbers@),
        Err(_) => rejection(samples, Some(sender)),
    }
}

/// The samples after one judged query record was applied.
pub open spec fn outcome_effect(
    samples: Samples,
    sender: Seq<char>,
    outcome: Result<ValidatedRecord, RecordError>,
) -> Samples {
    match outcome {
        Ok(valid) => query_update(
            samples,
            valid.worker_id@,
            valid.outcome,
            valid.seq_no,
            valid.client_id@,
        ),
        Err(_) => rejection(samples, Some(sender)),
    }
}

/// The samples after the judged records of a batch were applied in order.
pub open spec fn batch_effect(
    samples: Samples,
    sender: Seq<char>,
    outcomes: Seq<Result<ValidatedRecord, RecordError>>,
) -> Samples
    decreases outcomes.len(),
{
    if outcomes.len() == 0 {
        samples
    } else {
        outcome_effect(
            batch_effect(samples, sender, outcomes.drop_last()),
            sender,
            outcomes.last(),
        )
    }
}

/// How many of the judged records of a batch were valid.
pub open spec fn accepted(outcomes: Seq<Result<ValidatedRecord, RecordError>>) -> nat
    decreases outcomes.len(),
{
    if outcomes.len() == 0 {
        0
    } else if outcomes.last() is Ok {
        accepted(outcomes.drop_last()) + 1
    } else {
        accepted(outcomes.drop_last())
    }
}

/// How many of the judged records of a batch were invalid.
pub open spec fn rejected(outcomes: Seq<Result<ValidatedRecord, RecordError>>) -> nat
    decreases outcomes.len(),
{
    if outcomes.len() == 0 {
        0
    } else if outcomes.last() is Err {
        rejected(outcomes.drop_last()) + 1
    } else {
        rejected(outcomes.drop_last())
    }
}

/// Applies a judged heartbeat: a valid one is reported, an invalid one is
/// counted against the sender.
pub fn record_heartbeat(
    metrics: &mut Metrics,
    sender: PeerIdentity,
    verdict: Result<ValidatedHeartbeat, HeartbeatError>,
) -> (handled: Handled)
    ensures
        final(metrics)@ == heartbeat_effect(old(metrics)@, sender@, verdict),
        handled == if verdict is Ok {
            (Handled { updates: 1, rejected: 0 })
        } else {
            (Handled { updates: 0, rejected: 1 })
        },
{
    match verdict {
        Ok(valid) => {
            report_ping(
                metrics,
                valid.peer_id,
                valid.version,
                valid.stored_bytes,
                valid.total_chunks,
            );
            Handled { updates: 1, rejected: 0 }
        },
        Err(_) => {
            invalid_message(metrics, Some(sender));
            Handled { updates: 0, rejected: 1 }
        },
    }
}

/// The sequence number that follows `seq_no`, wrapping.
pub fn next_seq_no(seq_no: u64) -> (next: u64)
    ensures
        next == successor(seq_no),
{
    if seq_no == u64::MAX {
        0
    } else {
        seq_no + 1
    }
}

/// Applies a judged report of collected logs: every entry of an accepted
/// report sets the gauge of its worker, in order; a rejected report changes
/// no gauge and is counted against the sender.
pub fn record_logs_collected(
    metrics: &mut Metrics,
    sender: PeerIdentity,
    verdict: Result<ValidatedLogsCollected, LogsCollectedError>,
) -> (handled: Handled)
    ensures
        final(metrics)@ == logs_effect(old(metrics)@, sender@, verdict),
        match verdict {
            Ok(valid) => handled.updates == valid.sequence_numbers@.len() && handled.rejected == 0,
            Err(_) => handled.updates == 0 && handled.rejected == 1,
        },
{
    match verdict {
        Ok(valid) => {
            let entries = &valid.sequence_numbers;
            let mut i: usize = 0;
            while i < entries.len()
                invariant
                    i <= entries@.len(),
                    metrics@ == logs_update(old(metrics)@, entries@.take(i as int)),
                decreases entries@.len() - i,
            {
                proof {
                    assert(entries@.take(i + 1).drop_last() =~= entries@.take(i as int));
                }
                let peer = entries[i].0.clone();
                let seq_no = entries[i].1;
                report_logs_collected(metrics, peer, next_seq_no(seq_no));
                i = i + 1;
            }
            proof {
                assert(entries@.take(i as int) =~= entries@);
            }
            Handled { updates: i, rejected: 0 }
        },
        Err(_) => {
            invalid_message(metrics, Some(sender));
            Handled { updates: 0, rejected: 1 }
        },
    }
}

/// Applies the judged records of a batch, each on its own and in order: a
/// valid record is reported, an invalid one is counted against the sender.
pub fn record_query_batch(
    metrics: &mut Metrics,
    sender: PeerIdentity,
    outcomes: Vec<Result<ValidatedRecord, RecordError>>,
) -> (handled: Handled)
    ensures
        final(metrics)@ == batch_effect(old(metrics)@, sender@, outcomes@),
        handled.updates == accepted(outcomes@),
        handled.rejected == rejected(outcomes@),
{
    let mut updates: usize = 0;
    let mut rejections: usize = 0;
    let mut i: usize = 0;
    while i < outcomes.len()
        invariant
            i <= outcomes@.len(),
            metrics@ == batch_effect(old(metrics)@, sender@, outcomes@.take(i as int)),
            updates == accepted(outcomes@.take(i as int)),
            rejections == rejected(outcomes@.take(i as int)),
            updates + rejections == i,
        decreases outcomes@.len() - i,
    {
        proof {
            assert(outcomes@.take(i + 1).drop_last() =~= outcomes@.take(i as int));
        }
        match &outcomes[i] {
            Ok(valid) => {
                report_query_executed(
                    metrics,
                    valid.worker_id.clone(),
                    valid.outcome,
                    valid.seq_no,
                    valid.client_id.clone(),
                );
                updates = updates + 1;
            },
            Err(_) => {
                invalid_message(metrics, Some(sender.clone()));
                rejections = rejections + 1;
            },
        }
        i = i + 1;
    }
    proof {
        assert(outcomes@.take(i as int) =~= outcomes@);
    }
    Handled { updates, rejected: rejections }
}

/// The samples after one query record of `sender` was validated and applied.
pub open spec fn record_effect(samples: Samples, sender: Seq<char>, record: QueryExecuted) -> Samples {
    if record_error(record, sender, record_signed(record)) is None {
        query_update(
            samples,
            record.worker_id@,
            record.result->0,
            record.seq_no->0,
            record.client_id@,
        )
    } else {
        rejection(samples, Some(sender))
    }
}

/// The samples after the records of a batch were validated and applied in
/// order.
pub open spec fn records_effect(
    samples: Samples,
    sender: Seq<char>,
    records: Seq<QueryExecuted>,
) -> Samples
    decreases records.len(),
{
    if records.len() == 0 {
        samples
    } else {
        record_effect(records_effect(samples, sender, records.drop_last()), sender, records.last())
    }
}

/// How many records of a batch of `sender` are valid.
pub open spec fn valid_records(records: Seq<QueryExecuted>, sender: Seq<char>) -> nat
    decreases records.len(),
{
    if records.len() == 0 {
        0
    } else if record_error(records.last(), sender, record_signed(records.last())) is None {
        valid_records(records.drop_last(), sender) + 1
    } else {
        valid_records(records.drop_last(), sender)
    }
}

/// How many records of a batch of `sender` are invalid.
pub open spec fn invalid_records(records: Seq<QueryExecuted>, sender: Seq<char>) -> nat
    decreases records.len(),
{
    if records.len() == 0 {
        0
    } else if record_error(records.last(), sender, record_signed(records.last())) is Some {
        invalid_records(records.drop_last(), sender) + 1
    } else {
        invalid_records(records.drop_last(), sender)
    }
}

/// Whether a heartbeat of `sender` is valid.
pub open spec fn heartbeat_valid(heartbeat: Heartbeat, sender: Seq<char>) -> bool {
    heartbeat_error(heartbeat, sender, heartbeat_signed(heartbeat)) is None
}

/// The samples after a decoded message of `sender` was validated and applied.
pub open spec fn envelope_effect(
    samples: Samples,
    collector: Seq<char>,
    sender: Seq<char>,
    envelope: Envelope,
) -> Samples {
    match envelope {
        Envelope::Heartbeat(heartbeat) => if heartbeat_valid(heartbeat, sender) {
            ping_update(
                samples,
                sender,
                heartbeat.version->0@,
                heartbeat.declared_bytes(),
                saturated(datasets_chunks(heartbeat.stored_ranges@)),
            )
        } else {
            rejection(samples, Some(sender))
        },
        Envelope::LogsCollected(logs) => if sender == collector {
            logs_update(samples, logs.sequence_numbers@)
        } else {
            rejection(samples, Some(sender))
        },
        Envelope::QueryExecutedBatch(records) => records_effect(samples, sender, records@),
    }
}

/// The updates and rejections that a decoded message of `sender` makes.
pub open spec fn envelope_tally(collector: Seq<char>, sender: Seq<char>, envelope: Envelope) -> (
    nat,
    nat,
) {
    match envelope {
        Envelope::Heartbeat(heartbeat) => if heartbeat_valid(heartbeat, sender) {
            (1, 0)
        } else {
            (0, 1)
        },
        Envelope::LogsCollected(logs) => if sender == collector {
            (logs.sequence_numbers@.len(), 0)
        } else {
            (0, 1)
        },
        Envelope::QueryExecutedBatch(records) => (
            valid_records(records@, sender),
            invalid_records(records@, sender),
        ),
    }
}

/// The samples after an event was handled.
pub open spec fn event_effect(samples: Samples, collector: Seq<char>, event: ObserverEvent) -> Samples {
    match event {
        ObserverEvent::Delivered { sender, envelope } => envelope_effect(
            samples,
            collector,
            sender@,
            envelope,
        ),
        ObserverEvent::Undecodable { sender } => rejection(samples, Some(sender@)),
        ObserverEvent::Unattributed => rejection(samples, None),
    }
}

/// The updates and rejections that an event makes.
pub open spec fn event_tally(collector: Seq<char>, event: ObserverEvent) -> (nat, nat) {
    match event {
        ObserverEvent::Delivered { sender, envelope } => envelope_tally(
            collector,
            sender@,
            envelope,
        ),
        ObserverEvent::Undecodable { sender } => (0, 1),
        ObserverEvent::Unattributed => (0, 1),
    }
}

/// Applying the judgements of the records of a batch is applying the records.
pub proof fn lemma_batch_of_records(
    samples: Samples,
    sender: Seq<char>,
    records: Seq<QueryExecuted>,
    outcomes: Seq<Result<ValidatedRecord, RecordError>>,
)
    requires
        outcomes.len() == records.len(),
        forall|i: int|
            0 <= i < records.len() ==> record_judged(
                #[trigger] outcomes[i],
                records[i],
                sender,
                record_signed(records[i]),
            ),
    ensures
        batch_effect(samples, sender, outcomes) == records_effect(samples, sender, records),
        accepted(outcomes) == valid_records(records, sender),
        rejected(outcomes) == invalid_records(records, sender),
    decreases records.len(),
{
    if records.len() > 0 {
        lemma_batch_of_records(samples, sender, records.drop_last(), outcomes.drop_last());
        assert(record_judged(
            outcomes[outcomes.len() - 1],
            records[records.len() - 1],
            sender,
            record_signed(records[records.len() - 1]),
        ));
    }
}

/// What the observer makes of an event of the transport: a delivered
/// heartbeat is a message to validate, from its sender or from no one;
/// sightings and liveness probes are not the observer's business.
pub open spec fn observed(event: Event) -> Option<ObserverEvent> {
    match event {
        Event::WorkerHeartbeat(delivery) => match delivery.peer_id {
            Some(sender) => Some(
                ObserverEvent::Delivered {
                    sender,
                    envelope: Envelope::Heartbeat(delivery.heartbeat),
                },
            ),
            None => Some(ObserverEvent::Unattributed),
        },
        Event::PeerSeen(_) => None,
        Event::Ping(_) => None,
    }
}

/// What the observer makes of an event of the transport.
pub fn observe(event: Event) -> (made: Option<ObserverEvent>)
    ensures
        made == observed(event),
{
    match event {
        Event::WorkerHeartbeat(delivery) => match delivery.peer_id {
            Some(sender) => Some(
                ObserverEvent::Delivered {
                    sender,
                    envelope: Envelope::Heartbeat(delivery.heartbeat),
                },
            ),
            None => Some(ObserverEvent::Unattributed),
        },
        Event::PeerSeen(_) => None,
        Event::Ping(_) => None,
    }
}

/// The observer: it knows the one peer from which reports of collected
/// logs are accepted.
pub struct Observer {
    logs_collector: PeerIdentity,
}

impl Observer {
    /// The one peer from which reports of collected logs are accepted.
    pub closed spec fn collector(&self) -> Seq<char> {
        self.logs_collector@
    }

    /// An observer that accepts collected logs from one peer.
    pub fn new(logs_collector: PeerIdentity) -> (observer: Observer)
        ensures
            observer.collector() == logs_collector@,
    {
        Observer { logs_collector }
    }

    /// The peer from which reports of collected logs are accepted.
    pub fn logs_collector(&self) -> (collector: &PeerIdentity)
        ensures
            collector@ == self.collector(),
    {
        &self.logs_collector
    }

    /// Handles one event: validates what was delivered and applies it to the
    /// store, or counts it as an invalid message against its sender. The
    /// answer tells how many updates were made and how many messages or
    /// records were rejected.
    pub fn handle_event(&self, metrics: &mut Metrics, ev: ObserverEvent) -> (handled: Handled)
        ensures
            final(metrics)@ == event_effect(old(metrics)@, self.collector(), ev),
            handled.updates == event_tally(self.collector(), ev).0,
            handled.rejected == event_tally(self.collector(), ev).1,
    {
        match ev {
            ObserverEvent::Delivered { sender, envelope } => match envelope {
                Envelope::Heartbeat(heartbeat) => {
                    let verdict = validate_heartbeat(&heartbeat, &sender);
                    record_heartbeat(metrics, sender, verdict)
                },
                Envelope::LogsCollected(logs) => {
                    let verdict = validate_logs_collected(logs, &sender, &self.logs_collector);
                    record_logs_collected(metrics, sender, verdict)
                },
                Envelope::QueryExecutedBatch(records) => {
                    let outcomes = validate_query_batch(&records, &sender);
                    proof {
                        lemma_batch_of_records(metrics@, sender@, records@, outcomes@);
                    }
                    record_query_batch(metrics, sender, outcomes)
                },
            },
            ObserverEvent::Undecodable { sender } => {
                invalid_message(metrics, Some(sender));
                Handled { updates: 0, rejected: 1 }
            },
            ObserverEvent::Unattributed => {
                invalid_message(metrics, None);
                Handled { updates: 0, rejected: 1 }
            },
        }
    }
}

/// A heartbeat passes the checks of its origin exactly when its signature
/// verifies under the key of the worker it claims to come from and that
/// worker is the sender: beyond that, only a missing version can reject it.
pub proof fn lemma_heartbeat_authentic(heartbeat: Heartbeat, sender: Seq<char>)
    ensures
        (heartbeat_signed(heartbeat) && heartbeat.worker_id@ == sender) <==> (heartbeat_valid(
            heartbeat,
            sender,
        ) || heartbeat_error(heartbeat, sender, heartbeat_signed(heartbeat)) == Some(
            HeartbeatError::MissingVersion,
        )),
        heartbeat_valid(heartbeat, sender) <==> (heartbeat_signed(heartbeat) && heartbeat.worker_id@
            == sender && heartbeat.version is Some),
{
}

/// A report of collected logs from any peer but the collector writes no
/// sample: it is counted as one invalid message of its sender, and every
/// other sample, each sequence number among them, stays as it was.
pub proof fn lemma_logs_from_stranger(
    samples: Samples,
    collector: Seq<char>,
    sender: Seq<char>,
    logs: LogsCollected,
)
    requires
        sender != collector,
    ensures
        envelope_effect(samples, collector, sender, Envelope::LogsCollected(logs)) == rejection(
            samples,
            Some(sender),
        ),
        forall|key: (Metric, Labels)|
            key != (Metric::InvalidMessages, worker_labels(Some(sender))) ==> envelope_effect(
                samples,
                collector,
                sender,
                Envelope::LogsCollected(logs),
            ).contains_key(key) == samples.contains_key(key) && envelope_effect(
                samples,
                collector,
                sender,
                Envelope::LogsCollected(logs),
            )[key] == samples[key],
{
}

/// The entries of a report of collected logs touch no sample but the
/// sequence numbers of the workers they name.
pub proof fn lemma_logs_update_is_local(
    samples: Samples,
    entries: Seq<(String, u64)>,
    key: (Metric, Labels),
)
    requires
        forall|i: int|
            0 <= i < entries.len() ==> key != (
                Metric::LastCollectedLog,
                worker_labels(Some(#[trigger] entries[i].0@)),
            ),
    ensures
        logs_update(samples, entries).contains_key(key) == samples.contains_key(key),
        logs_update(samples, entries)[key] == samples[key],
    decreases entries.len(),
{
    if entries.len() > 0 {
        lemma_logs_update_is_local(samples, entries.drop_last(), key);
        let last = entries[entries.len() - 1];
        assert(key != (Metric::LastCollectedLog, worker_labels(Some(last.0@))));
    }
}

/// A report of collected logs from the collector sets, for each worker it
/// names, the sequence number of the worker to the successor of the last
/// number reported for it, whatever the store showed before and whatever the
/// earlier entries said.
pub proof fn lemma_logs_from_collector(
    samples: Samples,
    collector: Seq<char>,
    logs: LogsCollected,
    index: int,
)
    requires
        0 <= index < logs.sequence_numbers@.len(),
        forall|later: int|
            index < later < logs.sequence_numbers@.len() ==> (
            #[trigger] logs.sequence_numbers@[later]).0@ != logs.sequence_numbers@[index].0@,
    ensures
        envelope_effect(samples, collector, collector, Envelope::LogsCollected(logs))
            == logs_update(samples, logs.sequence_numbers@),
        logs_update(samples, logs.sequence_numbers@).contains_key(
            (Metric::LastCollectedLog, worker_labels(Some(logs.sequence_numbers@[index].0@))),
        ),
        logs_update(samples, logs.sequence_numbers@)[(
            Metric::LastCollectedLog,
            worker_labels(Some(logs.sequence_numbers@[index].0@)),
        )] == as_gauge(successor(logs.sequence_numbers@[index].1)),
{
    lemma_last_entry_shows(samples, logs.sequence_numbers@, index);
}

/// Of the entries that name one worker, the last one is what the store shows.
proof fn lemma_last_entry_shows(samples: Samples, entries: Seq<(String, u64)>, index: int)
    requires
        0 <= index < entries.len(),
        forall|later: int|
            index < later < entries.len() ==> (#[trigger] entries[later]).0@ != entries[index].0@,
    ensures
        logs_update(samples, entries).contains_key(
            (Metric::LastCollectedLog, worker_labels(Some(entries[index].0@))),
        ),
        logs_update(samples, entries)[(
            Metric::LastCollectedLog,
            worker_labels(Some(entries[index].0@)),
        )] == as_gauge(successor(entries[index].1)),
    decreases entries.len(),
{
    if index < entries.len() - 1 {
        let last = entries[entries.len() - 1];
        assert(last.0@ != entries[index].0@);
        lemma_worker_labels_distinct(Some(last.0@), Some(entries[index].0@));
        lemma_last_entry_shows(samples, entries.drop_last(), index);
    }
}

/// The step by which the invalid records of a batch are counted.
spec fn invalid_step(sender: Seq<char>) -> spec_fn(nat, QueryExecuted) -> nat {
    |count: nat, record: QueryExecuted|
        if record_error(record, sender, record_signed(record)) is Some {
            count + 1
        } else {
            count
        }
}

/// The count of invalid records is a fold over the records.
proof fn lemma_invalid_is_fold(records: Seq<QueryExecuted>, sender: Seq<char>)
    ensures
        invalid_records(records, sender) == records.fold_left(0nat, invalid_step(sender)),
    decreases records.len(),
{
    if records.len() > 0 {
        lemma_invalid_is_fold(records.drop_last(), sender);
    }
}

/// Every record of a batch is either valid or invalid: of `N` records with
/// `M` invalid ones, `N - M` are valid.
pub proof fn lemma_batch_partition(records: Seq<QueryExecuted>, sender: Seq<char>)
    ensures
        valid_records(records, sender) + invalid_records(records, sender) == records.len(),
    decreases records.len(),
{
    if records.len() > 0 {
        lemma_batch_partition(records.drop_last(), sender);
    }
}

/// The numbers of valid and of invalid records of a batch do not depend on
/// the order of the records.
pub proof fn lemma_batch_order(
    one: Seq<QueryExecuted>,
    other: Seq<QueryExecuted>,
    sender: Seq<char>,
)
    requires
        one.to_multiset() == other.to_multiset(),
    ensures
        invalid_records(one, sender) == invalid_records(other, sender),
        valid_records(one, sender) == valid_records(other, sender),
{
    lemma_invalid_is_fold(one, sender);
    lemma_invalid_is_fold(other, sender);
    lemma_fold_left_permutation(one, other, invalid_step(sender), 0nat);
    lemma_batch_partition(one, sender);
    lemma_batch_partition(other, sender);
    one.to_multiset_ensures();
    other.to_multiset_ensures();
}

/// A batch counts one invalid message of its sender for each invalid record
/// and none for a valid one: after a batch with `M` invalid records the
/// counter has moved by `M`.
pub proof fn lemma_batch_rejections(
    samples: Samples,
    sender: Seq<char>,
    records: Seq<QueryExecuted>,
)
    requires
        0 <= sample(samples, Metric::InvalidMessages, worker_labels(Some(sender))) <= u64::MAX,
    ensures
        sample(
            records_effect(samples, sender, records),
            Metric::InvalidMessages,
            worker_labels(Some(sender)),
        ) == counted(
            sample(samples, Metric::InvalidMessages, worker_labels(Some(sender))),
            invalid_records(records, sender),
        ),
    decreases records.len(),
{
    if records.len() > 0 {
        lemma_batch_rejections(samples, sender, records.drop_last());
    }
}

/// How many times one record of a batch of `sender` increments a counter:
/// an invalid record increments the invalid messages of the sender, a valid
/// one the counter of its outcome for its worker and the counter of its
/// client.
pub open spec fn record_hits(record: QueryExecuted, sender: Seq<char>, key: (Metric, Labels)) -> nat {
    if record_error(record, sender, record_signed(record)) is Some {
        if key == (Metric::InvalidMessages, worker_labels(Some(sender))) {
            1
        } else {
            0
        }
    } else if key == (outcome_metric(record.result->0), worker_labels(Some(record.worker_id@)))
        || key == (Metric::QueriesByClient, client_labels(Some(record.client_id@))) {
        1
    } else {
        0
    }
}

/// The step by which the increments of a counter are counted over a batch.
pub open spec fn hits_step(sender: Seq<char>, key: (Metric, Labels)) -> spec_fn(
    nat,
    QueryExecuted,
) -> nat {
    |count: nat, record: QueryExecuted| count + record_hits(record, sender, key)
}

/// How many times a batch of `sender` increments a counter.
pub open spec fn batch_hits(records: Seq<QueryExecuted>, sender: Seq<char>, key: (Metric, Labels)) -> nat {
    records.fold_left(0nat, hits_step(sender, key))
}

/// After a batch every counter has moved by the number of records that
/// increment it.
pub proof fn lemma_batch_counters(
    samples: Samples,
    sender: Seq<char>,
    records: Seq<QueryExecuted>,
    key: (Metric, Labels),
)
    requires
        key.0.is_counter(),
        0 <= sample(samples, key.0, key.1) <= u64::MAX,
    ensures
        sample(records_effect(samples, sender, records), key.0, key.1) == counted(
            sample(samples, key.0, key.1),
            batch_hits(records, sender, key),
        ),
    decreases records.len(),
{
    if records.len() > 0 {
        lemma_batch_counters(samples, sender, records.drop_last(), key);
    }
}

/// What a counter shows after a batch does not depend on the order of the
/// records in the batch.
pub proof fn lemma_batch_counters_order(
    samples: Samples,
    sender: Seq<char>,
    one: Seq<QueryExecuted>,
    other: Seq<QueryExecuted>,
    key: (Metric, Labels),
)
    requires
        one.to_multiset() == other.to_multiset(),
        key.0.is_counter(),
        0 <= sample(samples, key.0, key.1) <= u64::MAX,
    ensures
        sample(records_effect(samples, sender, one), key.0, key.1) == sample(
            records_effect(samples, sender, other),
            key.0,
            key.1,
        ),
{
    lemma_batch_counters(samples, sender, one, key);
    lemma_batch_counters(samples, sender, other, key);
    lemma_fold_left_permutation(one, other, hits_step(sender, key), 0nat);
}

/// How many times an event increments a counter.
pub open spec fn event_hits(collector: Seq<char>, event: ObserverEvent, key: (Metric, Labels)) -> nat {
    match event {
        ObserverEvent::Delivered { sender, envelope } => match envelope {
            Envelope::Heartbeat(heartbeat) => if heartbeat_valid(heartbeat, sender@) {
                if key == (Metric::Ping, ping_labels(sender@, heartbeat.version->0@)) {
                    1
                } else {
                    0
                }
            } else if key == (Metric::InvalidMessages, worker_labels(Some(sender@))) {
                1
            } else {
                0
            },
            Envelope::LogsCollected(logs) => if sender@ != collector && key == (
                Metric::InvalidMessages,
                worker_labels(Some(sender@)),
            ) {
                1
            } else {
                0
            },
            Envelope::QueryExecutedBatch(records) => batch_hits(records@, sender@, key),
        },
        ObserverEvent::Undecodable { sender } => if key == (
            Metric::InvalidMessages,
            worker_labels(Some(sender@)),
        ) {
            1
        } else {
            0
        },
        ObserverEvent::Unattributed => if key == (Metric::InvalidMessages, worker_labels(None)) {
            1
        } else {
            0
        },
    }
}

/// A counter moves by increments alone: whatever the event, every counter
/// shows afterwards what it showed before plus the number of times the event
/// incremented it. No event sets a counter or takes from it.
pub proof fn lemma_counters_only_count(
    samples: Samples,
    collector: Seq<char>,
    event: ObserverEvent,
    key: (Metric, Labels),
)
    requires
        key.0.is_counter(),
        0 <= sample(samples, key.0, key.1) <= u64::MAX,
    ensures
        sample(event_effect(samples, collector, event), key.0, key.1) == counted(
            sample(samples, key.0, key.1),
            event_hits(collector, event, key),
        ),
{
    match event {
        ObserverEvent::Delivered { sender, envelope } => match envelope {
            Envelope::Heartbeat(heartbeat) => {},
            Envelope::LogsCollected(logs) => {
                if sender@ == collector {
                    lemma_logs_update_is_local(samples, logs.sequence_numbers@, key);
                }
            },
            Envelope::QueryExecutedBatch(records) => {
                lemma_batch_counters(samples, sender@, records@, key);
            },
        },
        ObserverEvent::Undecodable { sender } => {},
        ObserverEvent::Unattributed => {},
    }
}

/// No event removes a sample: what the store has seen it keeps.
pub proof fn lemma_samples_are_kept(
    samples: Samples,
    collector: Seq<char>,
    event: ObserverEvent,
    key: (Metric, Labels),
)
    requires
        samples.contains_key(key),
    ensures
        event_effect(samples, collector, event).contains_key(key),
{
    match event {
        ObserverEvent::Delivered { sender, envelope } => match envelope {
            Envelope::Heartbeat(heartbeat) => {},
            Envelope::LogsCollected(logs) => {
                lemma_logs_keep(samples, logs.sequence_numbers@, key);
            },
            Envelope::QueryExecutedBatch(records) => {
                lemma_records_keep(samples, sender@, records@, key);
            },
        },
        ObserverEvent::Undecodable { sender } => {},
        ObserverEvent::Unattributed => {},
    }
}

/// The entries of a report of collected logs remove no sample.
proof fn lemma_logs_keep(
    samples: Samples,
    entries: Seq<(String, u64)>,
    key: (Metric, Labels),
)
    requires
        samples.contains_key(key),
    ensures
        logs_update(samples, entries).contains_key(key),
    decreases entries.len(),
{
    if entries.len() > 0 {
        lemma_logs_keep(samples, entries.drop_last(), key);
    }
}

/// The records of a batch remove no sample.
proof fn lemma_records_keep(
    samples: Samples,
    sender: Seq<char>,
    records: Seq<QueryExecuted>,
    key: (Metric, Labels),
)
    requires
        samples.contains_key(key),
    ensures
        records_effect(samples, sender, records).contains_key(key),
    decreases records.len(),
{
    if records.len() > 0 {
        lemma_records_keep(samples, sender, records.drop_last(), key);
    }
}

} // verus!
