use network_observer::identity::PeerIdentity;
use network_observer::metrics::gauge_level;
use network_observer::metrics::invalid_message;
use network_observer::metrics::register_metrics;
use network_observer::metrics::report_logs_collected;
use network_observer::metrics::report_ping;
use network_observer::metrics::report_query_executed;
use network_observer::metrics::report_scheduler_status;
use network_observer::metrics::ClientLabels;
use network_observer::metrics::Metric;
use network_observer::metrics::Metrics;
use network_observer::metrics::PingLabels;
use network_observer::metrics::QueryOutcome;
use network_observer::metrics::WorkerLabels;
use network_observer::scheduler::WorkerStatus;
use prometheus_client::encoding::text::encode;
use prometheus_client::registry::Registry;

const PEER: &str = "12D3KooWD3eckifWpRn9wQpMG9R9hX3sD158z7EqHWmweQAJU5SA";

fn peer() -> PeerIdentity {
    PeerIdentity::parse(PEER).unwrap()
}

fn worker(id: &str) -> Vec<(String, String)> {
    WorkerLabels::new(Some(id.to_string())).label_set()
}

fn client(id: &str) -> Vec<(String, String)> {
    ClientLabels::new(Some(id.to_string())).label_set()
}

fn status(peer_id: &str) -> WorkerStatus {
    WorkerStatus {
        peer_id: peer_id.to_string(),
        address: "0x00".to_string(),
        last_ping: 1,
        version: Some("1.0.0".to_string()),
        jailed: false,
        jail_reason: None,
        assigned_units: vec!["a".to_string(), "b".to_string()],
        assigned_bytes: 2048,
        stored_bytes: 4096,
        num_missing_chunks: 5,
        last_assignment: 1_700_000_000,
        unreachable_since: None,
        last_dial_time: 2,
        last_dial_ok: true,
    }
}

fn export(metrics: &Metrics) -> String {
    let mut registry = Registry::default();
    register_metrics(metrics, &mut registry);
    let mut text = String::new();
    encode(&mut text, &registry).unwrap();
    text
}

#[test]
fn label_sets_name_their_labels() {
    assert_eq!(
        worker("w"),
        vec![("peer_id".to_string(), "w".to_string())]
    );
    assert_eq!(
        client("c"),
        vec![("client_id".to_string(), "c".to_string())]
    );
    assert_eq!(
        PingLabels::new("w".to_string(), "1.2.3".to_string()).label_set(),
        vec![
            ("peer_id".to_string(), "w".to_string()),
            ("version".to_string(), "1.2.3".to_string())
        ]
    );
}

#[test]
fn unknown_worker_and_client_have_no_label() {
    assert!(WorkerLabels::new(None).label_set().is_empty());
    assert!(ClientLabels::new(None).label_set().is_empty());
}

#[test]
fn gauge_level_keeps_what_fits() {
    assert_eq!(gauge_level(0), 0);
    assert_eq!(gauge_level(1000), 1000);
    assert_eq!(gauge_level(i64::MAX as u64), i64::MAX);
}

#[test]
fn gauge_level_reads_large_values_as_signed() {
    assert_eq!(gauge_level(1 << 63), i64::MIN);
    assert_eq!(gauge_level(u64::MAX), -1);
    assert_eq!(gauge_level((1 << 63) + 5), i64::MIN + 5);
}

#[test]
fn new_store_has_seen_nothing() {
    let mut metrics = Metrics::new();
    assert_eq!(
        metrics.counter_value(Metric::InvalidMessages, &worker(PEER)),
        Some(0)
    );
    assert_eq!(
        metrics.gauge_value(Metric::StoredBytes, &worker(PEER)),
        Some(0)
    );
}

#[test]
fn a_counter_is_no_gauge_and_a_gauge_no_counter() {
    let mut metrics = Metrics::new();
    assert_eq!(metrics.counter_value(Metric::StoredBytes, &worker(PEER)), None);
    assert_eq!(metrics.gauge_value(Metric::Ping, &worker(PEER)), None);
    assert!(Metric::Ping.counts());
    assert!(Metric::QueriesByClient.counts());
    assert!(!Metric::LastCollectedLog.counts());
    assert!(!Metric::SchedulerStoredBytes.counts());
}

#[test]
fn invalid_message_counts_against_the_sender() {
    let mut metrics = Metrics::new();
    invalid_message(&mut metrics, Some(peer()));
    invalid_message(&mut metrics, Some(peer()));
    invalid_message(&mut metrics, None);
    assert_eq!(
        metrics.counter_value(Metric::InvalidMessages, &worker(PEER)),
        Some(2)
    );
    assert_eq!(
        metrics.counter_value(Metric::InvalidMessages, &Vec::new()),
        Some(1)
    );
}

#[test]
fn report_ping_counts_and_sets() {
    let mut metrics = Metrics::new();
    report_ping(&mut metrics, peer(), "1.2.3".to_string(), 1000, 100);
    let ping = PingLabels::new(PEER.to_string(), "1.2.3".to_string()).label_set();
    assert_eq!(metrics.counter_value(Metric::Ping, &ping), Some(1));
    assert_eq!(
        metrics.gauge_value(Metric::StoredBytes, &worker(PEER)),
        Some(1000)
    );
    assert_eq!(
        metrics.gauge_value(Metric::StoredChunks, &worker(PEER)),
        Some(100)
    );
}

#[test]
fn report_ping_counts_each_version_apart() {
    let mut metrics = Metrics::new();
    report_ping(&mut metrics, peer(), "1.2.3".to_string(), 1000, 100);
    report_ping(&mut metrics, peer(), "1.2.3".to_string(), 900, 90);
    report_ping(&mut metrics, peer(), "1.3.0".to_string(), 800, 80);
    let old = PingLabels::new(PEER.to_string(), "1.2.3".to_string()).label_set();
    let new = PingLabels::new(PEER.to_string(), "1.3.0".to_string()).label_set();
    assert_eq!(metrics.counter_value(Metric::Ping, &old), Some(2));
    assert_eq!(metrics.counter_value(Metric::Ping, &new), Some(1));
    assert_eq!(
        metrics.gauge_value(Metric::StoredBytes, &worker(PEER)),
        Some(800)
    );
    assert_eq!(
        metrics.gauge_value(Metric::StoredChunks, &worker(PEER)),
        Some(80)
    );
}

#[test]
fn report_logs_collected_sets_the_gauge() {
    let mut metrics = Metrics::new();
    report_logs_collected(&mut metrics, "worker".to_string(), 42);
    assert_eq!(
        metrics.gauge_value(Metric::LastCollectedLog, &worker("worker")),
        Some(42)
    );
    assert_eq!(
        metrics.gauge_value(Metric::LastCollectedLog, &worker("other")),
        Some(0)
    );
}

#[test]
fn later_sequence_number_wins_whatever_its_size() {
    let mut metrics = Metrics::new();
    report_logs_collected(&mut metrics, "worker".to_string(), 100);
    report_logs_collected(&mut metrics, "worker".to_string(), 7);
    assert_eq!(
        metrics.gauge_value(Metric::LastCollectedLog, &worker("worker")),
        Some(7)
    );
    report_logs_collected(&mut metrics, "worker".to_string(), 9000);
    assert_eq!(
        metrics.gauge_value(Metric::LastCollectedLog, &worker("worker")),
        Some(9000)
    );
}

#[test]
fn report_query_executed_counts_by_outcome_and_client() {
    let mut metrics = Metrics::new();
    report_query_executed(
        &mut metrics,
        "w".to_string(),
        QueryOutcome::Success,
        1,
        "c1".to_string(),
    );
    report_query_executed(
        &mut metrics,
        "w".to_string(),
        QueryOutcome::Success,
        2,
        "c2".to_string(),
    );
    report_query_executed(
        &mut metrics,
        "w".to_string(),
        QueryOutcome::BadRequest,
        3,
        "c1".to_string(),
    );
    report_query_executed(
        &mut metrics,
        "w".to_string(),
        QueryOutcome::ServerError,
        4,
        "c1".to_string(),
    );
    assert_eq!(metrics.counter_value(Metric::QueriesOk, &worker("w")), Some(2));
    assert_eq!(
        metrics.counter_value(Metric::QueriesBadRequest, &worker("w")),
        Some(1)
    );
    assert_eq!(
        metrics.counter_value(Metric::QueriesServerError, &worker("w")),
        Some(1)
    );
    assert_eq!(
        metrics.gauge_value(Metric::LastExecutedQuery, &worker("w")),
        Some(4)
    );
    assert_eq!(
        metrics.counter_value(Metric::QueriesByClient, &client("c1")),
        Some(3)
    );
    assert_eq!(
        metrics.counter_value(Metric::QueriesByClient, &client("c2")),
        Some(1)
    );
}

#[test]
fn scheduler_snapshot_sets_the_gauges_of_the_worker() {
    let mut metrics = Metrics::new();
    report_scheduler_status(&mut metrics, status(PEER));
    assert_eq!(
        metrics.gauge_value(Metric::NumMissingChunks, &worker(PEER)),
        Some(5)
    );
    assert_eq!(
        metrics.gauge_value(Metric::AssignedUnits, &worker(PEER)),
        Some(2)
    );
    assert_eq!(
        metrics.gauge_value(Metric::AssignedBytes, &worker(PEER)),
        Some(2048)
    );
    assert_eq!(
        metrics.gauge_value(Metric::LastAssignment, &worker(PEER)),
        Some(1_700_000_000)
    );
    assert_eq!(
        metrics.gauge_value(Metric::SchedulerStoredBytes, &worker(PEER)),
        Some(4096)
    );
    assert_eq!(
        metrics.gauge_value(Metric::StoredBytes, &worker(PEER)),
        Some(0)
    );
}

#[test]
fn metric_names_and_help_texts() {
    assert_eq!(Metric::InvalidMessages.name(), "invalid_messages");
    assert_eq!(
        Metric::InvalidMessages.help(),
        "Number of messages that could not be parsed"
    );
    assert_eq!(Metric::LastAssignment.name(), "last_assignment");
    assert_eq!(
        Metric::SchedulerStoredBytes.help(),
        "Total bytes stored by the worker as reported by scheduler"
    );
}

#[test]
fn registered_metrics_are_exported_in_order() {
    let metrics = Metrics::new();
    let text = export(&metrics);
    let names = [
        "invalid_messages",
        "ping",
        "stored_bytes",
        "stored_chunks",
        "last_collected_log",
        "queries_ok",
        "queries_bad_request",
        "queries_server_error",
        "last_executed_query",
        "queries_by_client",
        "num_missing_chunks",
        "assigned_units",
        "assigned_bytes",
        "last_assignment",
        "scheduler_stored_bytes",
    ];
    let mut from = 0;
    for name in names {
        let line = format!("# HELP {} ", name);
        let at = text[from..].find(&line).unwrap();
        from += at + line.len();
    }
    assert!(text.contains("# HELP ping Ping received from a worker.\n"));
    assert!(text.contains("# TYPE ping counter\n"));
    assert!(text.contains("# TYPE stored_bytes gauge\n"));
    assert!(text.ends_with("# EOF\n"));
}

#[test]
fn exported_samples_show_what_was_reported() {
    let mut metrics = Metrics::new();
    report_ping(&mut metrics, peer(), "1.2.3".to_string(), 1000, 100);
    invalid_message(&mut metrics, None);
    let text = export(&metrics);
    assert!(text.contains(&format!(
        "ping_total{{peer_id=\"{}\",version=\"1.2.3\"}} 1\n",
        PEER
    )));
    assert!(text.contains(&format!("stored_bytes{{peer_id=\"{}\"}} 1000\n", PEER)));
    assert!(text.contains(&format!("stored_chunks{{peer_id=\"{}\"}} 100\n", PEER)));
    assert!(text.contains("invalid_messages_total{} 1\n"));
}

#[test]
fn registry_sees_reports_made_after_registration() {
    let mut metrics = Metrics::new();
    let mut registry = Registry::default();
    register_metrics(&metrics, &mut registry);
    report_logs_collected(&mut metrics, "worker".to_string(), 12);
    let mut text = String::new();
    encode(&mut text, &registry).unwrap();
    assert!(text.contains("last_collected_log{peer_id=\"worker\"} 12\n"));
}
