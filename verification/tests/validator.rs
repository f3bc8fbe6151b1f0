use libp2p::identity::Keypair;
use network_observer::envelope::Heartbeat;
use network_observer::envelope::LogsCollected;
use network_observer::envelope::QueryExecuted;
use network_observer::identity::PeerIdentity;
use network_observer::metrics::QueryOutcome;
use network_observer::ranges::DatasetRanges;
use network_observer::ranges::StoredRange;
use network_observer::validator::judge_heartbeat;
use network_observer::validator::judge_record;
use network_observer::validator::validate_heartbeat;
use network_observer::validator::validate_logs_collected;
use network_observer::validator::validate_query_batch;
use network_observer::validator::validate_record;
use network_observer::validator::HeartbeatError;
use network_observer::validator::LogsCollectedError;
use network_observer::validator::RecordError;

fn keypair(seed: u8) -> Keypair {
    Keypair::ed25519_from_bytes([seed; 32]).unwrap()
}

fn identity(pair: &Keypair) -> PeerIdentity {
    PeerIdentity::parse(&pair.public().to_peer_id().to_base58()).unwrap()
}

fn heartbeat(pair: &Keypair, version: Option<&str>) -> Heartbeat {
    let payload = b"heartbeat payload".to_vec();
    let signature = pair.sign(&payload).unwrap();
    Heartbeat {
        worker_id: pair.public().to_peer_id().to_base58(),
        version: version.map(|v| v.to_string()),
        stored_bytes: Some(1000),
        stored_ranges: vec![DatasetRanges {
            url: "s3://dataset".to_string(),
            ranges: vec![StoredRange { begin: 0, end: 99 }],
        }],
        payload,
        signature,
    }
}

fn record(pair: &Keypair, seq_no: Option<u64>, result: Option<QueryOutcome>) -> QueryExecuted {
    let payload = format!("query {:?}", seq_no).into_bytes();
    let signature = pair.sign(&payload).unwrap();
    QueryExecuted {
        worker_id: pair.public().to_peer_id().to_base58(),
        client_id: "client".to_string(),
        seq_no,
        result,
        payload,
        signature,
    }
}

#[test]
fn signed_heartbeat_of_the_sender_is_valid() {
    let pair = keypair(1);
    let valid = validate_heartbeat(&heartbeat(&pair, Some("1.2.3")), &identity(&pair)).unwrap();
    assert_eq!(valid.peer_id.to_base58(), identity(&pair).to_base58());
    assert_eq!(valid.version, "1.2.3");
    assert_eq!(valid.stored_bytes, 1000);
    assert_eq!(valid.total_chunks, 100);
}

#[test]
fn heartbeat_without_stored_bytes_declares_zero() {
    let pair = keypair(1);
    let mut message = heartbeat(&pair, Some("1.2.3"));
    message.stored_bytes = None;
    let valid = validate_heartbeat(&message, &identity(&pair)).unwrap();
    assert_eq!(valid.stored_bytes, 0);
}

#[test]
fn heartbeat_without_version_is_rejected() {
    let pair = keypair(1);
    let verdict = validate_heartbeat(&heartbeat(&pair, None), &identity(&pair));
    assert_eq!(verdict.unwrap_err(), HeartbeatError::MissingVersion);
}

#[test]
fn heartbeat_relayed_by_another_peer_is_rejected() {
    let signer = keypair(1);
    let relay = keypair(2);
    let verdict = validate_heartbeat(&heartbeat(&signer, Some("1.2.3")), &identity(&relay));
    assert_eq!(verdict.unwrap_err(), HeartbeatError::IdentityMismatch);
}

#[test]
fn heartbeat_claiming_another_worker_is_rejected() {
    let signer = keypair(1);
    let claimed = keypair(2);
    let mut message = heartbeat(&signer, Some("1.2.3"));
    message.worker_id = claimed.public().to_peer_id().to_base58();
    let verdict = validate_heartbeat(&message, &identity(&claimed));
    assert_eq!(verdict.unwrap_err(), HeartbeatError::SignatureMismatch);
}

#[test]
fn heartbeat_with_tampered_payload_is_rejected() {
    let pair = keypair(1);
    let clean = heartbeat(&pair, Some("1.2.3"));
    for i in 0..clean.payload.len() {
        let mut message = heartbeat(&pair, Some("1.2.3"));
        message.payload[i] ^= 0x04;
        let verdict = validate_heartbeat(&message, &identity(&pair));
        assert_eq!(verdict.unwrap_err(), HeartbeatError::SignatureMismatch);
    }
}

#[test]
fn heartbeat_with_tampered_signature_is_rejected() {
    let pair = keypair(1);
    let clean = heartbeat(&pair, Some("1.2.3"));
    for i in 0..clean.signature.len() {
        let mut message = heartbeat(&pair, Some("1.2.3"));
        message.signature[i] ^= 0x01;
        let verdict = validate_heartbeat(&message, &identity(&pair));
        assert_eq!(verdict.unwrap_err(), HeartbeatError::SignatureMismatch);
    }
}

#[test]
fn heartbeat_errors_come_in_a_fixed_order() {
    let pair = keypair(1);
    let other = keypair(2);
    let message = heartbeat(&pair, None);
    assert_eq!(
        judge_heartbeat(&message, &identity(&other), false).unwrap_err(),
        HeartbeatError::SignatureMismatch
    );
    assert_eq!(
        judge_heartbeat(&message, &identity(&other), true).unwrap_err(),
        HeartbeatError::IdentityMismatch
    );
    assert_eq!(
        judge_heartbeat(&message, &identity(&pair), true).unwrap_err(),
        HeartbeatError::MissingVersion
    );
    assert!(judge_heartbeat(&heartbeat(&pair, Some("2.0.0")), &identity(&pair), true).is_ok());
}

#[test]
fn logs_collected_from_the_collector_are_accepted() {
    let collector = keypair(3);
    let logs = LogsCollected {
        sequence_numbers: vec![("worker-a".to_string(), 7), ("worker-b".to_string(), 0)],
    };
    let valid =
        validate_logs_collected(logs, &identity(&collector), &identity(&collector)).unwrap();
    assert_eq!(
        valid.sequence_numbers,
        vec![("worker-a".to_string(), 7), ("worker-b".to_string(), 0)]
    );
}

#[test]
fn logs_collected_from_a_stranger_are_rejected() {
    let collector = keypair(3);
    let stranger = keypair(4);
    let logs = LogsCollected {
        sequence_numbers: vec![("worker-a".to_string(), 7)],
    };
    let verdict = validate_logs_collected(logs, &identity(&stranger), &identity(&collector));
    assert_eq!(verdict.unwrap_err(), LogsCollectedError::WrongOrigin);
}

#[test]
fn valid_record_is_kept_as_it_is() {
    let pair = keypair(5);
    let valid = validate_record(
        &record(&pair, Some(41), Some(QueryOutcome::BadRequest)),
        &identity(&pair),
    )
    .unwrap();
    assert_eq!(valid.worker_id, identity(&pair).to_base58());
    assert_eq!(valid.client_id, "client");
    assert_eq!(valid.seq_no, 41);
    assert_eq!(valid.outcome, QueryOutcome::BadRequest);
}

#[test]
fn record_errors_come_in_a_fixed_order() {
    let pair = keypair(5);
    let other = keypair(6);
    let empty = record(&pair, None, None);
    assert_eq!(
        judge_record(&empty, &identity(&other), false).unwrap_err(),
        RecordError::SignatureMismatch
    );
    assert_eq!(
        judge_record(&empty, &identity(&other), true).unwrap_err(),
        RecordError::IdentityMismatch
    );
    assert_eq!(
        judge_record(&empty, &identity(&pair), true).unwrap_err(),
        RecordError::MissingResult
    );
    assert_eq!(
        judge_record(
            &record(&pair, None, Some(QueryOutcome::Success)),
            &identity(&pair),
            true
        )
        .unwrap_err(),
        RecordError::MissingSequence
    );
    assert_eq!(
        judge_record(&record(&pair, Some(1), None), &identity(&pair), true).unwrap_err(),
        RecordError::MissingResult
    );
}

#[test]
fn batch_is_validated_record_by_record() {
    let pair = keypair(7);
    let other = keypair(8);
    let mut tampered = record(&pair, Some(2), Some(QueryOutcome::Success));
    tampered.payload.push(0);
    let records = vec![
        record(&pair, Some(1), Some(QueryOutcome::Success)),
        tampered,
        record(&other, Some(3), Some(QueryOutcome::Success)),
        record(&pair, None, Some(QueryOutcome::ServerError)),
        record(&pair, Some(5), None),
        record(&pair, Some(6), Some(QueryOutcome::ServerError)),
    ];
    let outcomes = validate_query_batch(&records, &identity(&pair));
    assert_eq!(outcomes.len(), 6);
    assert_eq!(outcomes[0].as_ref().unwrap().seq_no, 1);
    assert_eq!(
        *outcomes[1].as_ref().unwrap_err(),
        RecordError::SignatureMismatch
    );
    assert_eq!(
        *outcomes[2].as_ref().unwrap_err(),
        RecordError::IdentityMismatch
    );
    assert_eq!(
        *outcomes[3].as_ref().unwrap_err(),
        RecordError::MissingSequence
    );
    assert_eq!(
        *outcomes[4].as_ref().unwrap_err(),
        RecordError::MissingResult
    );
    assert_eq!(outcomes[5].as_ref().unwrap().seq_no, 6);
    assert_eq!(
        outcomes[5].as_ref().unwrap().outcome,
        QueryOutcome::ServerError
    );
}

#[test]
fn empty_batch_has_no_outcomes() {
    let pair = keypair(7);
    assert!(validate_query_batch(&Vec::new(), &identity(&pair)).is_empty());
}
