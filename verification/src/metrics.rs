//! The metric store and the reports that update it.
//!
//! The store is a set of samples, each the value of one metric for one label
//! set. Counters only move by increments; gauges show the last value written.
//! A sample comes into being with the first report that touches it and is
//! never removed.

use crate::families::counter_get;
use crate::families::counter_inc;
use crate::families::counter_samples;
use crate::families::gauge_get;
use crate::families::gauge_samples;
use crate::families::gauge_set;
use crate::families::kept_help;
use crate::families::new_counter_family;
use crate::families::new_gauge_family;
use crate::families::register_counters;
use crate::families::register_gauges;
use crate::families::registered;
use crate::families::CounterFamily;
use crate::families::GaugeFamily;
use crate::families::LabelSet;
use crate::families::Labels;
use crate::identity::PeerIdentity;
use crate::scheduler::WorkerStatus;
use prometheus_client::registry::Registry;
use vstd::prelude::*;

verus! {

/// The metrics the observer keeps.
#[derive(Clone, Copy, Debug, PartialEq, Eq, Structural)]
pub enum Metric {
    InvalidMessages,
    Ping,
    StoredBytes,
    StoredChunks,
    LastCollectedLog,
    QueriesOk,
    QueriesBadRequest,
    QueriesServerError,
    LastExecutedQuery,
    QueriesByClient,
    NumMissingChunks,
    AssignedUnits,
    AssignedBytes,
    LastAssignment,
    SchedulerStoredBytes,
}

/// The outcome a worker reports of a query it executed.
#[derive(Clone, Copy, Debug, PartialEq, Eq, Structural)]
pub enum QueryOutcome {
    Success,
    BadRequest,
    ServerError,
}

/// The samples of a store: the value of each metric for each label set seen.
pub type Samples = Map<(Metric, Labels), int>;

impl Metric {
    /// Whether the metric is a counter; the others are gauges.
    pub open spec fn is_counter(self) -> bool {
        match self {
            Metric::InvalidMessages => true,
            Metric::Ping => true,
            Metric::QueriesOk => true,
            Metric::QueriesBadRequest => true,
            Metric::QueriesServerError => true,
            Metric::QueriesByClient => true,
            _ => false,
        }
    }

    /// The name under which the metric is registered.
    pub open spec fn name_text(self) -> Seq<char> {
        match self {
            Metric::InvalidMessages => "invalid_messages"@,
            Metric::Ping => "ping"@,
            Metric::StoredBytes => "stored_bytes"@,
            Metric::StoredChunks => "stored_chunks"@,
            Metric::LastCollectedLog => "last_collected_log"@,
            Metric::QueriesOk => "queries_ok"@,
            Metric::QueriesBadRequest => "queries_bad_request"@,
            Metric::QueriesServerError => "queries_server_error"@,
            Metric::LastExecutedQuery => "last_executed_query"@,
            Metric::QueriesByClient => "queries_by_client"@,
            Metric::NumMissingChunks => "num_missing_chunks"@,
            Metric::AssignedUnits => "assigned_units"@,
            Metric::AssignedBytes => "assigned_bytes"@,
            Metric::LastAssignment => "last_assignment"@,
            Metric::SchedulerStoredBytes => "scheduler_stored_bytes"@,
        }
    }

    /// The help text under which the metric is registered.
    pub open spec fn help_text(self) -> Seq<char> {
        match self {
            Metric::InvalidMessages => "Number of messages that could not be parsed"@,
            Metric::Ping => "Ping received from a worker"@,
            Metric::StoredBytes => "Total bytes used on worker's machine"@,
            Metric::StoredChunks => "Total chunks stored on worker's machine"@,
            Metric::LastCollectedLog => "Seq no of the last log saved by logs collector"@,
            Metric::QueriesOk => "Number of queries executed successfully"@,
            Metric::QueriesBadRequest => "Number of queries executed with bad request"@,
            Metric::QueriesServerError => "Number of queries executed with server error"@,
            Metric::LastExecutedQuery => "Seq no of the last query executed by the worker"@,
            Metric::QueriesByClient => "Number of processed queries from a given client"@,
            Metric::NumMissingChunks => "Number of missing chunks"@,
            Metric::AssignedUnits => "Number of assigned units to the worker"@,
            Metric::AssignedBytes => "Number of bytes assigned to the worker"@,
            Metric::LastAssignment => "Timestamp of the last assignment"@,
            Metric::SchedulerStoredBytes =>
                "Total bytes stored by the worker as reported by scheduler"@,
        }
    }

    /// Whether the metric is a counter.
    pub fn counts(self) -> (counter: bool)
        ensures
            counter == self.is_counter(),
    {
        match self {
            Metric::InvalidMessages => true,
            Metric::Ping => true,
            Metric::QueriesOk => true,
            Metric::QueriesBadRequest => true,
            Metric::QueriesServerError => true,
            Metric::QueriesByClient => true,
            _ => false,
        }
    }

    /// The name under which the metric is registered.
    pub fn name(self) -> (name: &'static str)
        ensures
            name@ == self.name_text(),
    {
        match self {
            Metric::InvalidMessages => "invalid_messages",
            Metric::Ping => "ping",
            Metric::StoredBytes => "stored_bytes",
            Metric::StoredChunks => "stored_chunks",
            Metric::LastCollectedLog => "last_collected_log",
            Metric::QueriesOk => "queries_ok",
            Metric::QueriesBadRequest => "queries_bad_request",
            Metric::QueriesServerError => "queries_server_error",
            Metric::LastExecutedQuery => "last_executed_query",
            Metric::QueriesByClient => "queries_by_client",
            Metric::NumMissingChunks => "num_missing_chunks",
            Metric::AssignedUnits => "assigned_units",
            Metric::AssignedBytes => "assigned_bytes",
            Metric::LastAssignment => "last_assignment",
            Metric::SchedulerStoredBytes => "scheduler_stored_bytes",
        }
    }

    /// The help text under which the metric is registered.
    pub fn help(self) -> (help: &'static str)
        ensures
            help@ == self.help_text(),
    {
        match self {
            Metric::InvalidMessages => "Number of messages that could not be parsed",
            Metric::Ping => "Ping received from a worker",
            Metric::StoredBytes => "Total bytes used on worker's machine",
            Metric::StoredChunks => "Total chunks stored on worker's machine",
            Metric::LastCollectedLog => "Seq no of the last log saved by logs collector",
            Metric::QueriesOk => "Number of queries executed successfully",
            Metric::QueriesBadRequest => "Number of queries executed with bad request",
            Metric::QueriesServerError => "Number of queries executed with server error",
            Metric::LastExecutedQuery => "Seq no of the last query executed by the worker",
            Metric::QueriesByClient => "Number of processed queries from a given client",
            Metric::NumMissingChunks => "Number of missing chunks",
            Metric::AssignedUnits => "Number of assigned units to the worker",
            Metric::AssignedBytes => "Number of bytes assigned to the worker",
            Metric::LastAssignment => "Timestamp of the last assignment",
            Metric::SchedulerStoredBytes =>
                "Total bytes stored by the worker as reported by scheduler",
        }
    }
}

/// The label set of a worker: one label `peer_id`, or no label at all where
/// the worker is unknown.
pub open spec fn worker_labels(peer: Option<Seq<char>>) -> Labels {
    match peer {
        Some(id) => seq![("peer_id"@, id)],
        None => seq![],
    }
}

/// The label set of a client: one label `client_id`, or no label at all
/// where the client is unknown.
pub open spec fn client_labels(client: Option<Seq<char>>) -> Labels {
    match client {
        Some(id) => seq![("client_id"@, id)],
        None => seq![],
    }
}

/// The label set of a heartbeat: the worker and the version it runs.
pub open spec fn ping_labels(peer: Seq<char>, version: Seq<char>) -> Labels {
    seq![("peer_id"@, peer), ("version"@, version)]
}

/// Labels of the metrics kept per worker.
#[derive(Clone, Debug, Hash, PartialEq, Eq)]
pub struct WorkerLabels {
    peer_id: Option<String>,
}

/// Labels of the metrics kept per client.
#[derive(Clone, Debug, Hash, PartialEq, Eq)]
pub struct ClientLabels {
    client_id: Option<String>,
}

/// Labels of the heartbeat counter.
#[derive(Clone, Debug, Hash, PartialEq, Eq)]
pub struct PingLabels {
    peer_id: String,
    version: String,
}

/// One label: its name and its value.
fn label(name: &str, value: &String) -> (pair: (String, String))
    ensures
        pair.deep_view() == (name@, value@),
{
    (name.to_owned(), value.clone())
}

impl WorkerLabels {
    /// The labels of a worker, or of no worker in particular.
    pub fn new(peer_id: Option<String>) -> (labels: WorkerLabels)
        ensures
            labels.labels() == worker_labels(
                match peer_id {
                    Some(id) => Some(id@),
                    None => None,
                },
            ),
    {
        WorkerLabels { peer_id }
    }

    /// The label set these labels stand for.
    pub closed spec fn labels(&self) -> Labels {
        worker_labels(
            match self.peer_id {
                Some(id) => Some(id@),
                None => None,
            },
        )
    }

    /// The label set as the store keys it.
    pub fn label_set(&self) -> (set: LabelSet)
        ensures
            set.deep_view() == self.labels(),
    {
        let mut set: LabelSet = Vec::new();
        match &self.peer_id {
            Some(id) => {
                set.push(label("peer_id", id));
            },
            None => {},
        }
        assert(set.deep_view() =~= self.labels());
        set
    }
}

impl ClientLabels {
    /// The labels of a client, or of no client in particular.
    pub fn new(client_id: Option<String>) -> (labels: ClientLabels)
        ensures
            labels.labels() == client_labels(
                match client_id {
                    Some(id) => Some(id@),
                    None => None,
                },
            ),
    {
        ClientLabels { client_id }
    }

    /// The label set these labels stand for.
    pub closed spec fn labels(&self) -> Labels {
        client_labels(
            match self.client_id {
                Some(id) => Some(id@),
                None => None,
            },
        )
    }

    /// The label set as the store keys it.
    pub fn label_set(&self) -> (set: LabelSet)
        ensures
            set.deep_view() == self.labels(),
    {
        let mut set: LabelSet = Vec::new();
        match &self.client_id {
            Some(id) => {
                set.push(label("client_id", id));
            },
            None => {},
        }
        assert(set.deep_view() =~= self.labels());
        set
    }
}

impl PingLabels {
    /// The labels of the heartbeats of a worker that runs a version.
    pub fn new(peer_id: String, version: String) -> (labels: PingLabels)
        ensures
            labels.labels() == ping_labels(peer_id@, version@),
    {
        PingLabels { peer_id, version }
    }

    /// The label set these labels stand for.
    pub closed spec fn labels(&self) -> Labels {
        ping_labels(self.peer_id@, self.version@)
    }

    /// The label set as the store keys it.
    pub fn label_set(&self) -> (set: LabelSet)
        ensures
            set.deep_view() == self.labels(),
    {
        let mut set: LabelSet = Vec::new();
        set.push(label("peer_id", &self.peer_id));
        set.push(label("version", &self.version));
        assert(set.deep_view() =~= self.labels());
        set
    }
}

/// The value a gauge shows for an unsigned quantity: the quantity itself up
/// to `i64::MAX`, and beyond it the signed number with the same 64 bits.
pub open spec fn as_gauge(value: u64) -> i64 {
    if value <= i64::MAX {
        value as i64
    } else {
        (value - 0x1_0000_0000_0000_0000) as i64
    }
}

/// The value a gauge shows for an unsigned quantity.
pub fn gauge_level(value: u64) -> (level: i64)
    ensures
        level == as_gauge(value),
{
    if value <= 0x7fff_ffff_ffff_ffff {
        value as i64
    } else {
        let low: u64 = value - 0x8000_0000_0000_0000;
        (low as i64) + i64::MIN
    }
}

/// The value of a sample, zero where the store has not seen it.
pub open spec fn sample(samples: Samples, metric: Metric, labels: Labels) -> int {
    if samples.contains_key((metric, labels)) {
        samples[(metric, labels)]
    } else {
        0
    }
}

/// The value of a counter after one increment.
pub open spec fn next_value(value: int) -> int {
    if value == u64::MAX {
        0
    } else {
        value + 1
    }
}

/// The samples after one increment of a counter.
pub open spec fn incremented(samples: Samples, metric: Metric, labels: Labels) -> Samples {
    samples.insert((metric, labels), next_value(sample(samples, metric, labels)))
}

/// The samples after a gauge was set.
pub open spec fn written(samples: Samples, metric: Metric, labels: Labels, value: int) -> Samples {
    samples.insert((metric, labels), value)
}

/// The identity of a sender as a label value.
pub open spec fn sender_text(peer: Option<PeerIdentity>) -> Option<Seq<char>> {
    match peer {
        Some(id) => Some(id@),
        None => None,
    }
}

/// The samples after a heartbeat of `peer` was reported.
pub open spec fn ping_update(
    samples: Samples,
    peer: Seq<char>,
    version: Seq<char>,
    stored_bytes: u64,
    total_chunks: u64,
) -> Samples {
    let worker = worker_labels(Some(peer));
    written(
        written(
            incremented(samples, Metric::Ping, ping_labels(peer, version)),
            Metric::StoredBytes,
            worker,
            as_gauge(stored_bytes) as int,
        ),
        Metric::StoredChunks,
        worker,
        as_gauge(total_chunks) as int,
    )
}

/// The counter that tallies an outcome.
pub open spec fn outcome_metric(outcome: QueryOutcome) -> Metric {
    match outcome {
        QueryOutcome::Success => Metric::QueriesOk,
        QueryOutcome::BadRequest => Metric::QueriesBadRequest,
        QueryOutcome::ServerError => Metric::QueriesServerError,
    }
}

/// The samples after an executed query was reported.
pub open spec fn query_update(
    samples: Samples,
    worker: Seq<char>,
    outcome: QueryOutcome,
    seq_no: u64,
    client: Seq<char>,
) -> Samples {
    incremented(
        written(
            incremented(samples, outcome_metric(outcome), worker_labels(Some(worker))),
            Metric::LastExecutedQuery,
            worker_labels(Some(worker)),
            as_gauge(seq_no) as int,
        ),
        Metric::QueriesByClient,
        client_labels(Some(client)),
    )
}

/// The samples after the scheduler's status of one worker was reported.
pub open spec fn scheduler_update(
    samples: Samples,
    peer: Seq<char>,
    num_missing_chunks: u64,
    assigned_units: nat,
    assigned_bytes: u64,
    last_assignment: u64,
    stored_bytes: u64,
) -> Samples
    recommends
        assigned_units <= u64::MAX,
{
    let worker = worker_labels(Some(peer));
    let s1 = written(samples, Metric::NumMissingChunks, worker, as_gauge(num_missing_chunks) as int);
    let s2 = written(s1, Metric::AssignedUnits, worker, as_gauge(assigned_units as u64) as int);
    let s3 = written(s2, Metric::AssignedBytes, worker, as_gauge(assigned_bytes) as int);
    let s4 = written(s3, Metric::LastAssignment, worker, as_gauge(last_assignment) as int);
    written(s4, Metric::SchedulerStoredBytes, worker, as_gauge(stored_bytes) as int)
}

/// The metrics in the order of their registration.
pub open spec fn registration_order() -> Seq<Metric> {
    seq![
        Metric::InvalidMessages,
        Metric::Ping,
        Metric::StoredBytes,
        Metric::StoredChunks,
        Metric::LastCollectedLog,
        Metric::QueriesOk,
        Metric::QueriesBadRequest,
        Metric::QueriesServerError,
        Metric::LastExecutedQuery,
        Metric::QueriesByClient,
        Metric::NumMissingChunks,
        Metric::AssignedUnits,
        Metric::AssignedBytes,
        Metric::LastAssignment,
        Metric::SchedulerStoredBytes,
    ]
}

/// What a registry keeps of a metric: its name and its help text.
pub open spec fn registry_entry(metric: Metric) -> (Seq<char>, Seq<char>) {
    (metric.name_text(), kept_help(metric.help_text()))
}

/// What a registry keeps of all the metrics, in the order of registration.
pub open spec fn catalogue() -> Seq<(Seq<char>, Seq<char>)> {
    Seq::new(registration_order().len(), |i: int| registry_entry(registration_order()[i]))
}

/// The metric store: one family per metric.
pub struct Metrics {
    invalid_messages: CounterFamily,
    ping: CounterFamily,
    stored_bytes: GaugeFamily,
    stored_chunks: GaugeFamily,
    last_collected_log: GaugeFamily,
    queries_ok: CounterFamily,
    queries_bad_request: CounterFamily,
    queries_server_error: CounterFamily,
    last_executed_query: GaugeFamily,
    queries_by_client: CounterFamily,
    num_missing_chunks: GaugeFamily,
    assigned_units: GaugeFamily,
    assigned_bytes: GaugeFamily,
    last_assignment: GaugeFamily,
    scheduler_stored_bytes: GaugeFamily,
}

impl View for Metrics {
    type V = Samples;

    closed spec fn view(&self) -> Samples {
        Map::new(
            |key: (Metric, Labels)|
                if key.0.is_counter() {
                    self.counters(key.0).contains_key(key.1)
                } else {
                    self.gauges(key.0).contains_key(key.1)
                },
            |key: (Metric, Labels)|
                if key.0.is_counter() {
                    self.counters(key.0)[key.1] as int
                } else {
                    self.gauges(key.0)[key.1] as int
                },
        )
    }
}

impl Metrics {
    /// The samples of a counter.
    spec fn counters(&self, metric: Metric) -> Map<Labels, u64> {
        match metric {
            Metric::InvalidMessages => counter_samples(self.invalid_messages),
            Metric::Ping => counter_samples(self.ping),
            Metric::QueriesOk => counter_samples(self.queries_ok),
            Metric::QueriesBadRequest => counter_samples(self.queries_bad_request),
            Metric::QueriesServerError => counter_samples(self.queries_server_error),
            Metric::QueriesByClient => counter_samples(self.queries_by_client),
            _ => Map::empty(),
        }
    }

    /// The samples of a gauge.
    spec fn gauges(&self, metric: Metric) -> Map<Labels, i64> {
        match metric {
            Metric::StoredBytes => gauge_samples(self.stored_bytes),
            Metric::StoredChunks => gauge_samples(self.stored_chunks),
            Metric::LastCollectedLog => gauge_samples(self.last_collected_log),
            Metric::LastExecutedQuery => gauge_samples(self.last_executed_query),
            Metric::NumMissingChunks => gauge_samples(self.num_missing_chunks),
            Metric::AssignedUnits => gauge_samples(self.assigned_units),
            Metric::AssignedBytes => gauge_samples(self.assigned_bytes),
            Metric::LastAssignment => gauge_samples(self.last_assignment),
            Metric::SchedulerStoredBytes => gauge_samples(self.scheduler_stored_bytes),
            _ => Map::empty(),
        }
    }

    /// A store without samples.
    pub fn new() -> (metrics: Metrics)
        ensures
            metrics@ == Map::<(Metric, Labels), int>::empty(),
    {
        let metrics = Metrics {
            invalid_messages: new_counter_family(),
            ping: new_counter_family(),
            stored_bytes: new_gauge_family(),
            stored_chunks: new_gauge_family(),
            last_collected_log: new_gauge_family(),
            queries_ok: new_counter_family(),
            queries_bad_request: new_counter_family(),
            queries_server_error: new_counter_family(),
            last_executed_query: new_gauge_family(),
            queries_by_client: new_counter_family(),
            num_missing_chunks: new_gauge_family(),
            assigned_units: new_gauge_family(),
            assigned_bytes: new_gauge_family(),
            last_assignment: new_gauge_family(),
            scheduler_stored_bytes: new_gauge_family(),
        };
        assert(metrics@ =~= Map::<(Metric, Labels), int>::empty());
        metrics
    }

    /// Increments a counter for a label set.
    fn bump(&mut self, metric: Metric, labels: &LabelSet)
        requires
            metric.is_counter(),
        ensures
            final(self)@ == incremented(old(self)@, metric, labels.deep_view()),
    {
        match metric {
            Metric::InvalidMessages => counter_inc(&mut self.invalid_messages, labels),
            Metric::Ping => counter_inc(&mut self.ping, labels),
            Metric::QueriesOk => counter_inc(&mut self.queries_ok, labels),
            Metric::QueriesBadRequest => counter_inc(&mut self.queries_bad_request, labels),
            Metric::QueriesServerError => counter_inc(&mut self.queries_server_error, labels),
            Metric::QueriesByClient => counter_inc(&mut self.queries_by_client, labels),
            _ => {},
        }
        assert(self@ =~= incremented(old(self)@, metric, labels.deep_view()));
    }

    /// Sets a gauge for a label set.
    fn put(&mut self, metric: Metric, labels: &LabelSet, value: i64)
        requires
            !metric.is_counter(),
        ensures
            final(self)@ == written(old(self)@, metric, labels.deep_view(), value as int),
    {
        match metric {
            Metric::StoredBytes => gauge_set(&mut self.stored_bytes, labels, value),
            Metric::StoredChunks => gauge_set(&mut self.stored_chunks, labels, value),
            Metric::LastCollectedLog => gauge_set(&mut self.last_collected_log, labels, value),
            Metric::LastExecutedQuery => gauge_set(&mut self.last_executed_query, labels, value),
            Metric::NumMissingChunks => gauge_set(&mut self.num_missing_chunks, labels, value),
            Metric::AssignedUnits => gauge_set(&mut self.assigned_units, labels, value),
            Metric::AssignedBytes => gauge_set(&mut self.assigned_bytes, labels, value),
            Metric::LastAssignment => gauge_set(&mut self.last_assignment, labels, value),
            Metric::SchedulerStoredBytes => gauge_set(
                &mut self.scheduler_stored_bytes,
                labels,
                value,
            ),
            _ => {},
        }
        assert(self@ =~= written(old(self)@, metric, labels.deep_view(), value as int));
    }

    /// Reads a counter. The store holds the sample from then on, at zero if
    /// it had not seen it. A gauge is not read and leaves the store as it is.
    pub fn counter_value(&mut self, metric: Metric, labels: &LabelSet) -> (value: Option<u64>)
        ensures
            match value {
                Some(count) => metric.is_counter() && count == sample(
                    old(self)@,
                    metric,
                    labels.deep_view(),
                ) && final(self)@ == old(self)@.insert((metric, labels.deep_view()), count as int),
                None => !metric.is_counter() && final(self)@ == old(self)@,
            },
    {
        let value = match metric {
            Metric::InvalidMessages => Some(counter_get(&mut self.invalid_messages, labels)),
            Metric::Ping => Some(counter_get(&mut self.ping, labels)),
            Metric::QueriesOk => Some(counter_get(&mut self.queries_ok, labels)),
            Metric::QueriesBadRequest => Some(counter_get(&mut self.queries_bad_request, labels)),
            Metric::QueriesServerError => Some(
                counter_get(&mut self.queries_server_error, labels),
            ),
            Metric::QueriesByClient => Some(counter_get(&mut self.queries_by_client, labels)),
            _ => None,
        };
        proof {
            match value {
                Some(count) => {
                    assert(self@ =~= old(self)@.insert(
                        (metric, labels.deep_view()),
                        count as int,
                    ));
                },
                None => {
                    assert(self@ =~= old(self)@);
                },
            }
        }
        value
    }

    /// Reads a gauge. The store holds the sample from then on, at zero if it
    /// had not seen it. A counter is not read and leaves the store as it is.
    pub fn gauge_value(&mut self, metric: Metric, labels: &LabelSet) -> (value: Option<i64>)
        ensures
            match value {
                Some(level) => !metric.is_counter() && level == sample(
                    old(self)@,
                    metric,
                    labels.deep_view(),
                ) && final(self)@ == old(self)@.insert((metric, labels.deep_view()), level as int),
                None => metric.is_counter() && final(self)@ == old(self)@,
            },
    {
        let value = match metric {
            Metric::StoredBytes => Some(gauge_get(&mut self.stored_bytes, labels)),
            Metric::StoredChunks => Some(gauge_get(&mut self.stored_chunks, labels)),
            Metric::LastCollectedLog => Some(gauge_get(&mut self.last_collected_log, labels)),
            Metric::LastExecutedQuery => Some(gauge_get(&mut self.last_executed_query, labels)),
            Metric::NumMissingChunks => Some(gauge_get(&mut self.num_missing_chunks, labels)),
            Metric::AssignedUnits => Some(gauge_get(&mut self.assigned_units, labels)),
            Metric::AssignedBytes => Some(gauge_get(&mut self.assigned_bytes, labels)),
            Metric::LastAssignment => Some(gauge_get(&mut self.last_assignment, labels)),
            Metric::SchedulerStoredBytes => Some(
                gauge_get(&mut self.scheduler_stored_bytes, labels),
            ),
            _ => None,
        };
        proof {
            match value {
                Some(level) => {
                    assert(self@ =~= old(self)@.insert(
                        (metric, labels.deep_view()),
                        level as int,
                    ));
                },
                None => {
                    assert(self@ =~= old(self)@);
                },
            }
        }
        value
    }

    /// Registers the family of one metric under its name and help text.
    fn register_one(&self, registry: &mut Registry, metric: Metric)
        ensures
            registered(*final(registry)) == registered(*old(registry)).push(
                registry_entry(metric),
            ),
    {
        let name = metric.name();
        let help = metric.help();
        match metric {
            Metric::InvalidMessages => register_counters(
                registry,
                name,
                help,
                &self.invalid_messages,
            ),
            Metric::Ping => register_counters(registry, name, help, &self.ping),
            Metric::StoredBytes => register_gauges(registry, name, help, &self.stored_bytes),
            Metric::StoredChunks => register_gauges(registry, name, help, &self.stored_chunks),
            Metric::LastCollectedLog => register_gauges(
                registry,
                name,
                help,
                &self.last_collected_log,
            ),
            Metric::QueriesOk => register_counters(registry, name, help, &self.queries_ok),
            Metric::QueriesBadRequest => register_counters(
                registry,
                name,
                help,
                &self.queries_bad_request,
            ),
            Metric::QueriesServerError => register_counters(
                registry,
                name,
                help,
                &self.queries_server_error,
            ),
            Metric::LastExecutedQuery => register_gauges(
                registry,
                name,
                help,
                &self.last_executed_query,
            ),
            Metric::QueriesByClient => register_counters(
                registry,
                name,
                help,
                &self.queries_by_client,
            ),
            Metric::NumMissingChunks => register_gauges(
                registry,
                name,
                help,
                &self.num_missing_chunks,
            ),
            Metric::AssignedUnits => register_gauges(registry, name, help, &self.assigned_units),
            Metric::AssignedBytes => register_gauges(registry, name, help, &self.assigned_bytes),
            Metric::LastAssignment => register_gauges(registry, name, help, &self.last_assignment),
            Metric::SchedulerStoredBytes => register_gauges(
                registry,
                name,
                help,
                &self.scheduler_stored_bytes,
            ),
        }
    }
}

/// Counts one invalid message against its sender, or against no one where
/// the sender is unknown.
pub fn invalid_message(metrics: &mut Metrics, peer_id: Option<PeerIdentity>)
    ensures
        final(metrics)@ == incremented(
            old(metrics)@,
            Metric::InvalidMessages,
            worker_labels(sender_text(peer_id)),
        ),
{
    let labels = match peer_id {
        Some(id) => WorkerLabels::new(Some(id.to_base58())),
        None => WorkerLabels::new(None),
    };
    let set = labels.label_set();
    metrics.bump(Metric::InvalidMessages, &set);
}

/// Reports a heartbeat: counts it for the worker and its version, and sets
/// the worker's stored bytes and stored chunks.
pub fn report_ping(
    metrics: &mut Metrics,
    peer_id: PeerIdentity,
    version: String,
    stored_bytes: u64,
    total_chunks: u64,
)
    ensures
        final(metrics)@ == ping_update(
            old(metrics)@,
            peer_id@,
            version@,
            stored_bytes,
            total_chunks,
        ),
{
    let peer = peer_id.to_base58();
    let worker = WorkerLabels::new(Some(peer.clone())).label_set();
    let ping = PingLabels::new(peer, version).label_set();
    metrics.bump(Metric::Ping, &ping);
    metrics.put(Metric::StoredBytes, &worker, gauge_level(stored_bytes));
    metrics.put(Metric::StoredChunks, &worker, gauge_level(total_chunks));
}

/// Sets the sequence number of the last log collected from a worker.
pub fn report_logs_collected(metrics: &mut Metrics, peer_id: String, seq_no: u64)
    ensures
        final(metrics)@ == written(
            old(metrics)@,
            Metric::LastCollectedLog,
            worker_labels(Some(peer_id@)),
            as_gauge(seq_no) as int,
        ),
{
    let worker = WorkerLabels::new(Some(peer_id)).label_set();
    metrics.put(Metric::LastCollectedLog, &worker, gauge_level(seq_no));
}

/// Reports an executed query: counts it under its outcome for the worker,
/// sets the worker's last executed sequence number, and counts it for the
/// client.
pub fn report_query_executed(
    metrics: &mut Metrics,
    worker_id: String,
    result: QueryOutcome,
    seq_no: u64,
    client_id: String,
)
    ensures
        final(metrics)@ == query_update(old(metrics)@, worker_id@, result, seq_no, client_id@),
{
    let worker = WorkerLabels::new(Some(worker_id)).label_set();
    let client = ClientLabels::new(Some(client_id)).label_set();
    match result {
        QueryOutcome::Success => metrics.bump(Metric::QueriesOk, &worker),
        QueryOutcome::BadRequest => metrics.bump(Metric::QueriesBadRequest, &worker),
        QueryOutcome::ServerError => metrics.bump(Metric::QueriesServerError, &worker),
    }
    metrics.put(Metric::LastExecutedQuery, &worker, gauge_level(seq_no));
    metrics.bump(Metric::QueriesByClient, &client);
}

/// The samples after a worker's status was reported.
pub open spec fn status_update(samples: Samples, status: WorkerStatus) -> Samples {
    scheduler_update(
        samples,
        status.peer_id@,
        status.num_missing_chunks,
        status.assigned_units@.len(),
        status.assigned_bytes,
        status.last_assignment,
        status.stored_bytes,
    )
}

/// Reports the scheduler's status of a worker it holds by reference.
pub fn report_status(metrics: &mut Metrics, status: &WorkerStatus)
    ensures
        final(metrics)@ == status_update(old(metrics)@, *status),
{
    let units: u64 = status.assigned_units.len() as u64;
    let worker = WorkerLabels::new(Some(status.peer_id.clone())).label_set();
    metrics.put(Metric::NumMissingChunks, &worker, gauge_level(status.num_missing_chunks));
    metrics.put(Metric::AssignedUnits, &worker, gauge_level(units));
    metrics.put(Metric::AssignedBytes, &worker, gauge_level(status.assigned_bytes));
    metrics.put(Metric::LastAssignment, &worker, gauge_level(status.last_assignment));
    metrics.put(Metric::SchedulerStoredBytes, &worker, gauge_level(status.stored_bytes));
}

/// Reports the scheduler's status of one worker: its missing chunks, the
/// number of its assigned units, its assigned bytes, the time of its last
/// assignment and its stored bytes.
pub fn report_scheduler_status(metrics: &mut Metrics, status: WorkerStatus)
    ensures
        final(metrics)@ == status_update(old(metrics)@, status),
{
    report_status(metrics, &status);
}

/// Registers every metric of the store, in a fixed order, each under its
/// name and help text.
pub fn register_metrics(metrics: &Metrics, registry: &mut Registry)
    ensures
        registered(*final(registry)) == registered(*old(registry)) + catalogue(),
{
    metrics.register_one(registry, Metric::InvalidMessages);
    metrics.register_one(registry, Metric::Ping);
    metrics.register_one(registry, Metric::StoredBytes);
    metrics.register_one(registry, Metric::StoredChunks);
    metrics.register_one(registry, Metric::LastCollectedLog);
    metrics.register_one(registry, Metric::QueriesOk);
    metrics.register_one(registry, Metric::QueriesBadRequest);
    metrics.register_one(registry, Metric::QueriesServerError);
    metrics.register_one(registry, Metric::LastExecutedQuery);
    metrics.register_one(registry, Metric::QueriesByClient);
    metrics.register_one(registry, Metric::NumMissingChunks);
    metrics.register_one(registry, Metric::AssignedUnits);
    metrics.register_one(registry, Metric::AssignedBytes);
    metrics.register_one(registry, Metric::LastAssignment);
    metrics.register_one(registry, Metric::SchedulerStoredBytes);
    assert(registered(*registry) =~= registered(*old(registry)) + catalogue());
}

/// Whether every sample lies in the range of its kind: a counter in that of
/// `u64`, a gauge in that of `i64`.
pub open spec fn in_range(samples: Samples) -> bool {
    forall|key: (Metric, Labels)| #[trigger]
        samples.contains_key(key) ==> if key.0.is_counter() {
            0 <= samples[key] <= u64::MAX
        } else {
            i64::MIN <= samples[key] <= i64::MAX
        }
}

/// The value of a counter that started at `start` and was incremented
/// `times` times: the increments wrap at the end of the 64-bit range.
pub open spec fn counted(start: int, times: nat) -> int {
    (start + times) % 0x1_0000_0000_0000_0000
}

/// The samples of a store lie in the ranges of their kinds.
pub proof fn lemma_store_in_range(metrics: Metrics)
    ensures
        in_range(metrics@),
{
}

/// A gauge shows the last value written to it, whatever it showed before:
/// of two writes to one sample only the later one is seen, regardless of
/// which value is the larger.
pub proof fn lemma_last_write_wins(
    samples: Samples,
    metric: Metric,
    labels: Labels,
    earlier: int,
    later: int,
)
    ensures
        written(written(samples, metric, labels, earlier), metric, labels, later) == written(
            samples,
            metric,
            labels,
            later,
        ),
        sample(
            written(written(samples, metric, labels, earlier), metric, labels, later),
            metric,
            labels,
        ) == later,
{
    assert(written(written(samples, metric, labels, earlier), metric, labels, later) =~= written(
        samples,
        metric,
        labels,
        later,
    ));
}

/// A write to one sample leaves every other sample as it was.
pub proof fn lemma_write_is_local(
    samples: Samples,
    metric: Metric,
    labels: Labels,
    value: int,
    other: (Metric, Labels),
)
    requires
        other != (metric, labels),
    ensures
        written(samples, metric, labels, value).contains_key(other) == samples.contains_key(other),
        sample(written(samples, metric, labels, value), other.0, other.1) == sample(
            samples,
            other.0,
            other.1,
        ),
{
}

/// An increment moves one counter by one, wrapping, creates it where it was
/// not seen before, and leaves every other sample as it was.
pub proof fn lemma_increment_counts(samples: Samples, metric: Metric, labels: Labels)
    requires
        0 <= sample(samples, metric, labels) <= u64::MAX,
    ensures
        sample(incremented(samples, metric, labels), metric, labels) == counted(
            sample(samples, metric, labels),
            1,
        ),
        incremented(samples, metric, labels).contains_key((metric, labels)),
        forall|other: (Metric, Labels)|
            other != (metric, labels) ==> incremented(samples, metric, labels).contains_key(other)
                == samples.contains_key(other) && sample(
                incremented(samples, metric, labels),
                other.0,
                other.1,
            ) == sample(samples, other.0, other.1),
{
}

/// Two label sets of workers are the same exactly when the workers are.
pub proof fn lemma_worker_labels_distinct(one: Option<Seq<char>>, other: Option<Seq<char>>)
    ensures
        worker_labels(one) == worker_labels(other) <==> one == other,
{
    if worker_labels(one) == worker_labels(other) {
        match (one, other) {
            (Some(a), Some(b)) => {
                assert(worker_labels(one)[0].1 == a);
                assert(worker_labels(other)[0].1 == b);
            },
            (Some(a), None) => {
                assert(worker_labels(one).len() == 1);
                assert(worker_labels(other).len() == 0);
            },
            (None, Some(b)) => {
                assert(worker_labels(one).len() == 0);
                assert(worker_labels(other).len() == 1);
            },
            (None, None) => {},
        }
    }
}

} // verus!
