//! The scheduler's view of the workers.
//!
//! The scheduler publishes a snapshot of the status of every worker. A
//! snapshot is applied to the store as a whole or not at all: a snapshot
//! that could not be fetched or read changes nothing.

use crate::families::Labels;
use crate::metrics::report_status;
use crate::metrics::status_update;
use crate::metrics::Metric;
use crate::metrics::Metrics;
use crate::metrics::Samples;
use vstd::prelude::*;

verus! {

/// What the scheduler reports of one worker.
#[derive(Debug)]
pub struct WorkerStatus {
    pub peer_id: String,
    pub address: String,
    pub last_ping: u64,
    pub version: Option<String>,
    pub jailed: bool,
    pub jail_reason: Option<String>,
    pub assigned_units: Vec<String>,
    pub assigned_bytes: u64,
    pub stored_bytes: u64,
    pub num_missing_chunks: u64,
    pub last_assignment: u64,
    pub unreachable_since: Option<u64>,
    pub last_dial_time: u64,
    pub last_dial_ok: bool,
}

/// Why a snapshot could not be had.
#[derive(Clone, Copy, Debug, PartialEq, Eq, Structural)]
pub enum SchedulerError {
    /// The request failed or was answered with a failure.
    FetchError,
    /// The answer is not a list of worker statuses.
    ParseError,
}

/// The samples after the statuses of a snapshot were reported in order.
pub open spec fn snapshot_update(samples: Samples, workers: Seq<WorkerStatus>) -> Samples
    decreases workers.len(),
{
    if workers.len() == 0 {
        samples
    } else {
        status_update(snapshot_update(samples, workers.drop_last()), workers.last())
    }
}

/// The samples after the outcome of one fetch was handled.
pub open spec fn fetch_effect(
    samples: Samples,
    fetched: Result<Vec<WorkerStatus>, SchedulerError>,
) -> Samples {
    match fetched {
        Ok(workers) => snapshot_update(samples, workers@),
        Err(_) => samples,
    }
}

/// Applies the outcome of one fetch of the scheduler's snapshot. A snapshot
/// is reported worker by worker; a failure is handed back and leaves the
/// store untouched.
pub fn collect_scheduler_metrics(
    metrics: &mut Metrics,
    fetched: Result<Vec<WorkerStatus>, SchedulerError>,
) -> (outcome: Result<(), SchedulerError>)
    ensures
        final(metrics)@ == fetch_effect(old(metrics)@, fetched),
        match fetched {
            Ok(_) => outcome is Ok,
            Err(error) => outcome == Err::<(), SchedulerError>(error),
        },
{
    match fetched {
        Ok(workers) => {
            let mut i: usize = 0;
            while i < workers.len()
                invariant
                    i <= workers@.len(),
                    metrics@ == snapshot_update(old(metrics)@, workers@.take(i as int)),
                decreases workers@.len() - i,
            {
                proof {
                    assert(workers@.take(i + 1).drop_last() =~= workers@.take(i as int));
                }
                report_status(metrics, &workers[i]);
                i = i + 1;
            }
            proof {
                assert(workers@.take(i as int) =~= workers@);
            }
            Ok(())
        },
        Err(error) => Err(error),
    }
}

/// A fetch removes no sample and touches no counter: it writes gauges, or
/// nothing at all.
pub proof fn lemma_fetch_keeps_samples(
    samples: Samples,
    fetched: Result<Vec<WorkerStatus>, SchedulerError>,
    key: (Metric, Labels),
)
    requires
        samples.contains_key(key),
    ensures
        fetch_effect(samples, fetched).contains_key(key),
        key.0.is_counter() ==> fetch_effect(samples, fetched)[key] == samples[key],
{
    match fetched {
        Ok(workers) => {
            lemma_snapshot_keeps_samples(samples, workers@, key);
        },
        Err(_) => {},
    }
}

/// The statuses of a snapshot remove no sample and touch no counter.
proof fn lemma_snapshot_keeps_samples(
    samples: Samples,
    workers: Seq<WorkerStatus>,
    key: (Metric, Labels),
)
    requires
        samples.contains_key(key),
    ensures
        snapshot_update(samples, workers).contains_key(key),
        key.0.is_counter() ==> snapshot_update(samples, workers)[key] == samples[key],
    decreases workers.len(),
{
    if workers.len() > 0 {
        lemma_snapshot_keeps_samples(samples, workers.drop_last(), key);
    }
}

} // verus!
