//! The messages workers broadcast, as the observer reads them.
//!
//! An envelope wraps exactly one payload. Heartbeats and query records are
//! signed: each carries the bytes that its signature covers, which are its
//! own canonical form without the signature, and the signature itself.

use crate::metrics::QueryOutcome;
use crate::ranges::DatasetRanges;
use vstd::prelude::*;

verus! {

/// A worker's periodic report of what it runs and what it stores.
#[derive(Debug)]
pub struct Heartbeat {
    /// The worker the heartbeat claims to come from, in base 58.
    pub worker_id: String,
    /// The version the worker runs.
    pub version: Option<String>,
    /// The bytes the worker stores.
    pub stored_bytes: Option<u64>,
    /// The ranges the worker stores, by dataset.
    pub stored_ranges: Vec<DatasetRanges>,
    /// The bytes that the signature covers.
    pub payload: Vec<u8>,
    /// The signature of the claimed worker over `payload`.
    pub signature: Vec<u8>,
}

/// The collector's report of the logs it has saved: for each worker, the
/// highest sequence number collected. A later entry for the same worker
/// replaces an earlier one.
#[derive(Debug)]
pub struct LogsCollected {
    pub sequence_numbers: Vec<(String, u64)>,
}

/// A worker's record of one query it executed.
#[derive(Debug)]
pub struct QueryExecuted {
    /// The worker the record claims to come from, in base 58.
    pub worker_id: String,
    /// The client that asked.
    pub client_id: String,
    /// The worker's sequence number of the record.
    pub seq_no: Option<u64>,
    /// How the query ended.
    pub result: Option<QueryOutcome>,
    /// The bytes that the signature covers.
    pub payload: Vec<u8>,
    /// The signature of the claimed worker over `payload`.
    pub signature: Vec<u8>,
}

/// A decoded message: exactly one payload.
#[derive(Debug)]
pub enum Envelope {
    Heartbeat(Heartbeat),
    LogsCollected(LogsCollected),
    QueryExecutedBatch(Vec<QueryExecuted>),
}

impl Heartbeat {
    /// The stored bytes a heartbeat declares, zero where it declares none.
    pub open spec fn declared_bytes(&self) -> u64 {
        match self.stored_bytes {
            Some(bytes) => bytes,
            None => 0,
        }
    }

    /// The stored bytes the heartbeat declares, zero where it declares none.
    pub fn stored_bytes(&self) -> (bytes: u64)
        ensures
            bytes == self.declared_bytes(),
    {
        match self.stored_bytes {
            Some(bytes) => bytes,
            None => 0,
        }
    }
}

} // verus!
