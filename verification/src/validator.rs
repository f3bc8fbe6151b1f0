//! Validation of untrusted messages.
//!
//! Every rule is a function of the message, of the sender that the transport
//! asserts, and of the outcome of the signature check. The functions whose
//! names begin with `judge_` take that outcome as an argument; the functions
//! whose names begin with `validate_` obtain it and judge.

use crate::envelope::Heartbeat;
use crate::envelope::LogsCollected;
use crate::envelope::QueryExecuted;
use crate::identity::signature_verifies;
use crate::identity::verify_signature;
use crate::identity::PeerIdentity;
use crate::metrics::QueryOutcome;
use crate::ranges::datasets_chunks;
use crate::ranges::saturated;
use crate::ranges::total_chunks;
use vstd::prelude::*;

verus! {

/// Why a heartbeat is rejected.
#[derive(Clone, Copy, Debug, PartialEq, Eq, Structural)]
pub enum HeartbeatError {
    /// The signature does not verify under the key of the claimed worker.
    SignatureMismatch,
    /// The claimed worker is not the sender.
    IdentityMismatch,
    /// The heartbeat declares no version.
    MissingVersion,
}

/// Why a report of collected logs is rejected.
#[derive(Clone, Copy, Debug, PartialEq, Eq, Structural)]
pub enum LogsCollectedError {
    /// The sender is not the collector.
    WrongOrigin,
}

/// Why a query record is rejected.
#[derive(Clone, Copy, Debug, PartialEq, Eq, Structural)]
pub enum RecordError {
    /// The signature does not verify under the key of the claimed worker.
    SignatureMismatch,
    /// The claimed worker is not the sender.
    IdentityMismatch,
    /// The record holds no result.
    MissingResult,
    /// The record holds no sequence number.
    MissingSequence,
}

/// What a valid heartbeat says.
#[derive(Debug)]
pub struct ValidatedHeartbeat {
    pub peer_id: PeerIdentity,
    pub version: String,
    pub stored_bytes: u64,
    pub total_chunks: u64,
}

/// What a valid report of collected logs says.
#[derive(Debug)]
pub struct ValidatedLogsCollected {
    pub sequence_numbers: Vec<(String, u64)>,
}

/// What a valid query record says.
#[derive(Debug)]
pub struct ValidatedRecord {
    pub worker_id: String,
    pub client_id: String,
    pub seq_no: u64,
    pub outcome: QueryOutcome,
}

/// The first rule a heartbeat breaks, if any: its signature verifies, its
/// claimed worker is the sender, and it declares a version.
pub open spec fn heartbeat_error(
    heartbeat: Heartbeat,
    sender: Seq<char>,
    signature_ok: bool,
) -> Option<HeartbeatError> {
    if !signature_ok {
        Some(HeartbeatError::SignatureMismatch)
    } else if heartbeat.worker_id@ != sender {
        Some(HeartbeatError::IdentityMismatch)
    } else if heartbeat.version is None {
        Some(HeartbeatError::MissingVersion)
    } else {
        None
    }
}

/// Whether a validated heartbeat says what the heartbeat said.
pub open spec fn heartbeat_kept(valid: ValidatedHeartbeat, heartbeat: Heartbeat) -> bool {
    &&& valid.peer_id@ == heartbeat.worker_id@
    &&& heartbeat.version matches Some(version) && valid.version@ == version@
    &&& valid.stored_bytes == heartbeat.declared_bytes()
    &&& valid.total_chunks == saturated(datasets_chunks(heartbeat.stored_ranges@))
}

/// Whether the signature of a heartbeat verifies under the key of the worker
/// it claims to come from.
pub open spec fn heartbeat_signed(heartbeat: Heartbeat) -> bool {
    signature_verifies(heartbeat.worker_id@, heartbeat.payload@, heartbeat.signature@)
}

/// The first rule a query record breaks, if any: its signature verifies, its
/// claimed worker is the sender, and it holds a result and a sequence number.
pub open spec fn record_error(
    record: QueryExecuted,
    sender: Seq<char>,
    signature_ok: bool,
) -> Option<RecordError> {
    if !signature_ok {
        Some(RecordError::SignatureMismatch)
    } else if record.worker_id@ != sender {
        Some(RecordError::IdentityMismatch)
    } else if record.result is None {
        Some(RecordError::MissingResult)
    } else if record.seq_no is None {
        Some(RecordError::MissingSequence)
    } else {
        None
    }
}

/// Whether a validated record says what the record said.
pub open spec fn record_kept(valid: ValidatedRecord, record: QueryExecuted) -> bool {
    &&& valid.worker_id@ == record.worker_id@
    &&& valid.client_id@ == record.client_id@
    &&& record.seq_no == Some(valid.seq_no)
    &&& record.result == Some(valid.outcome)
}

/// Whether the signature of a record verifies under the key of the worker it
/// claims to come from.
pub open spec fn record_signed(record: QueryExecuted) -> bool {
    signature_verifies(record.worker_id@, record.payload@, record.signature@)
}

/// Whether an outcome is the judgement of a record.
pub open spec fn record_judged(
    outcome: Result<ValidatedRecord, RecordError>,
    record: QueryExecuted,
    sender: Seq<char>,
    signature_ok: bool,
) -> bool {
    match outcome {
        Ok(valid) => record_error(record, sender, signature_ok) is None && record_kept(
            valid,
            record,
        ),
        Err(error) => record_error(record, sender, signature_ok) == Some(error),
    }
}

/// Judges a heartbeat whose signature check gave `signature_ok`.
pub fn judge_heartbeat(heartbeat: &Heartbeat, sender: &PeerIdentity, signature_ok: bool) -> (verdict:
    Result<ValidatedHeartbeat, HeartbeatError>)
    ensures
        match verdict {
            Ok(valid) => heartbeat_error(*heartbeat, sender@, signature_ok) is None
                && heartbeat_kept(valid, *heartbeat),
            Err(error) => heartbeat_error(*heartbeat, sender@, signature_ok) == Some(error),
        },
{
    if !signature_ok {
        return Err(HeartbeatError::SignatureMismatch);
    }
    if !sender.is_named(&heartbeat.worker_id) {
        return Err(HeartbeatError::IdentityMismatch);
    }
    match &heartbeat.version {
        None => Err(HeartbeatError::MissingVersion),
        Some(version) => Ok(
            ValidatedHeartbeat {
                peer_id: sender.clone(),
                version: version.clone(),
                stored_bytes: heartbeat.stored_bytes(),
                total_chunks: total_chunks(&heartbeat.stored_ranges),
            },
        ),
    }
}

/// Validates a heartbeat that the transport attributes to `sender`. It is
/// valid exactly when its signature verifies under the key of the worker it
/// claims to come from, that worker is the sender, and it declares a version.
pub fn validate_heartbeat(heartbeat: &Heartbeat, sender: &PeerIdentity) -> (verdict: Result<
    ValidatedHeartbeat,
    HeartbeatError,
>)
    ensures
        match verdict {
            Ok(valid) => heartbeat_error(*heartbeat, sender@, heartbeat_signed(*heartbeat))
                is None && heartbeat_kept(valid, *heartbeat),
            Err(error) => heartbeat_error(*heartbeat, sender@, heartbeat_signed(*heartbeat))
                == Some(error),
        },
{
    let signature_ok = verify_signature(
        &heartbeat.worker_id,
        &heartbeat.payload,
        &heartbeat.signature,
    );
    judge_heartbeat(heartbeat, sender, signature_ok)
}

/// Validates a report of collected logs: it is accepted, whole, exactly when
/// its sender is the collector.
pub fn validate_logs_collected(
    logs: LogsCollected,
    sender: &PeerIdentity,
    expected_collector: &PeerIdentity,
) -> (verdict: Result<ValidatedLogsCollected, LogsCollectedError>)
    ensures
        match verdict {
            Ok(valid) => sender@ == expected_collector@ && valid.sequence_numbers
                == logs.sequence_numbers,
            Err(error) => sender@ != expected_collector@ && error
                == LogsCollectedError::WrongOrigin,
        },
{
    if sender.same_as(expected_collector) {
        Ok(ValidatedLogsCollected { sequence_numbers: logs.sequence_numbers })
    } else {
        Err(LogsCollectedError::WrongOrigin)
    }
}

/// Judges a query record whose signature check gave `signature_ok`.
pub fn judge_record(record: &QueryExecuted, sender: &PeerIdentity, signature_ok: bool) -> (outcome:
    Result<ValidatedRecord, RecordError>)
    ensures
        record_judged(outcome, *record, sender@, signature_ok),
{
    if !signature_ok {
        return Err(RecordError::SignatureMismatch);
    }
    if !sender.is_named(&record.worker_id) {
        return Err(RecordError::IdentityMismatch);
    }
    match (record.result, record.seq_no) {
        (None, _) => Err(RecordError::MissingResult),
        (Some(_), None) => Err(RecordError::MissingSequence),
        (Some(outcome), Some(seq_no)) => Ok(
            ValidatedRecord {
                worker_id: record.worker_id.clone(),
                client_id: record.client_id.clone(),
                seq_no,
                outcome,
            },
        ),
    }
}

/// Validates one query record that the transport attributes to `sender`.
pub fn validate_record(record: &QueryExecuted, sender: &PeerIdentity) -> (outcome: Result<
    ValidatedRecord,
    RecordError,
>)
    ensures
        record_judged(outcome, *record, sender@, record_signed(*record)),
{
    let signature_ok = verify_signature(&record.worker_id, &record.payload, &record.signature);
    judge_record(record, sender, signature_ok)
}

/// Validates a batch of query records, each on its own: the outcomes stand
/// in the order of the records, and no record affects another's outcome.
pub fn validate_query_batch(records: &Vec<QueryExecuted>, sender: &PeerIdentity) -> (outcomes:
    Vec<Result<ValidatedRecord, RecordError>>)
    ensures
        outcomes@.len() == records@.len(),
        forall|i: int|
            0 <= i < records@.len() ==> record_judged(
                #[trigger] outcomes@[i],
                records@[i],
                sender@,
                record_signed(records@[i]),
            ),
{
    let mut outcomes: Vec<Result<ValidatedRecord, RecordError>> = Vec::new();
    let mut i: usize = 0;
    while i < records.len()
        invariant
            i <= records@.len(),
            outcomes@.len() == i,
            forall|j: int|
                0 <= j < i ==> record_judged(
                    #[trigger] outcomes@[j],
                    records@[j],
                    sender@,
                    record_signed(records@[j]),
                ),
        decreases records@.len() - i,
    {
        let outcome = validate_record(&records[i], sender);
        outcomes.push(outcome);
        i = i + 1;
    }
    outcomes
}

} // verus!
