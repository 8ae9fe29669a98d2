use reth_mev::cache::GlobalSharedCache;
use reth_mev::metrics::{
    method, record_degraded_gap, record_degraded_path, record_e2e_latency, record_epoch_mismatch,
    record_error, record_request, record_worker_path, Labels, MethodCounters, MevCounters,
    PeriodicReporter, Snapshot, Update,
};

#[test]
fn counters_start_at_zero_and_count() {
    let mut counters = MevCounters::new();
    assert_eq!(counters.trace_call.total, 0);
    counters.eth_call.inc_total();
    counters.eth_call.inc_total();
    counters.eth_call.inc_worker();
    counters.eth_call.inc_degraded();
    counters.eth_call.inc_error();
    let snapshot = counters.eth_call.load_all();
    assert_eq!(
        (snapshot.total, snapshot.worker, snapshot.degraded, snapshot.errors),
        (2, 1, 1, 1)
    );
    assert_eq!(counters.debug_trace_call.load_all().total, 0);
}

#[test]
fn counters_wrap() {
    let mut c = MethodCounters { total: u64::MAX, worker: 1, degraded: 2, errors: 3 };
    c.inc_total();
    assert_eq!(c.total, 0);
    assert_eq!((c.worker, c.degraded, c.errors), (1, 2, 3));
}

#[test]
fn recording_counts_and_reports() {
    let mut c = MethodCounters::default();
    let out = record_request(method::ETH_CALL, &mut c);
    assert_eq!(out.metric, "mev_requests_total");
    assert!(matches!(out.labels, Labels::One("method", "eth_call")));
    assert!(matches!(out.update, Update::Increment(1)));
    let out = record_worker_path(method::DEBUG_TRACE, &mut c);
    assert_eq!(out.metric, "mev_worker_path_total");
    assert!(matches!(out.labels, Labels::One("method", "debug_traceCall")));
    let out = record_degraded_path(method::TRACE_CALL, &mut c);
    assert_eq!(out.metric, "mev_degraded_path_total");
    assert!(matches!(out.labels, Labels::One("method", "trace_call")));
    let out = record_error(method::ETH_CALL, "worker_error", &mut c);
    assert_eq!(out.metric, "mev_errors_total");
    assert!(matches!(out.labels, Labels::Two("method", "eth_call", "kind", "worker_error")));
    assert_eq!((c.total, c.worker, c.degraded, c.errors), (1, 1, 1, 1));
    let out = record_e2e_latency(method::ETH_CALL, 7);
    assert_eq!(out.metric, "mev_e2e_duration_seconds");
    assert!(matches!(out.update, Update::RecordNanos(7)));
}

#[test]
fn gaps_have_reasons() {
    let out = record_epoch_mismatch(method::ETH_CALL, None);
    assert_eq!(out.metric, "mev_epoch_mismatch_total");
    assert!(matches!(out.labels, Labels::Two("method", "eth_call", "reason", "non_number")));
    let out = record_epoch_mismatch(method::ETH_CALL, Some(1));
    assert!(matches!(out.labels, Labels::Two(_, _, "reason", "drain")));
    let out = record_epoch_mismatch(method::ETH_CALL, Some(2));
    assert!(matches!(out.labels, Labels::Two(_, _, "reason", "stale")));
    let out = record_degraded_gap(method::TRACE_CALL, Some(0));
    assert_eq!(out.metric, "mev_degraded_gap_total");
    assert!(matches!(out.labels, Labels::Two("method", "trace_call", "reason", "stale")));
}

#[test]
fn delta_and_share() {
    let prev = Snapshot { total: 10, worker: 5, degraded: 5, errors: 9 };
    let now = Snapshot { total: 17, worker: 9, degraded: 7, errors: 3 };
    let delta = now.delta(&prev);
    assert_eq!((delta.total, delta.worker, delta.degraded, delta.errors), (7, 4, 2, 0));
    assert_eq!(delta.degraded_pct(), 28);
    assert_eq!(Snapshot::default().degraded_pct(), 0);
    let all = Snapshot { total: 3, worker: 0, degraded: 3, errors: 0 };
    assert_eq!(all.degraded_pct(), 100);
}

#[test]
fn reports_cover_their_interval() {
    let mut reporter = PeriodicReporter::new();
    let mut counters = MevCounters::new();
    let cache = GlobalSharedCache::new(1);
    counters.eth_call.inc_total();
    counters.eth_call.inc_total();
    counters.eth_call.inc_degraded();
    counters.trace_call.inc_total();
    let report = reporter.tick(&counters, &cache);
    assert_eq!(report.eth_call.total, 2);
    assert_eq!(report.eth_call.delta.total, 2);
    assert_eq!(report.eth_call.degraded_pct, 50);
    assert_eq!(report.trace_call.total, 1);
    counters.eth_call.inc_total();
    let report = reporter.tick(&counters, &cache);
    assert_eq!(report.eth_call.total, 3);
    assert_eq!(report.eth_call.delta.total, 1);
    assert_eq!(report.eth_call.degraded_pct, 0);
    assert_eq!(report.trace_call.delta.total, 0);
    let gauges = report.gauges();
    assert_eq!(gauges.len(), 9);
    assert_eq!(gauges[1].metric, "mev_degraded_pct");
    assert!(matches!(gauges[1].labels, Labels::One("method", "debug_traceCall")));
    assert_eq!(gauges[5].metric, "mev_global_cache_entry_count");
    assert!(matches!(gauges[5].labels, Labels::One("sub", "bytecode")));
    assert!(matches!(gauges[5].update, Update::Assign(0)));
    assert_eq!(gauges[7].metric, "mev_global_cache_size_bytes");
    assert!(matches!(gauges[7].labels, Labels::One("sub", "storage")));
}

#[test]
fn no_increment_is_lost_in_any_order() {
    let mut counters = MethodCounters { total: u64::MAX - 1, worker: 5, degraded: 0, errors: 9 };
    for n in 0..1000u64 {
        counters.inc_total();
        if n % 2 == 0 {
            counters.inc_worker();
        } else {
            counters.inc_degraded();
        }
    }
    assert_eq!(counters.total, 998);
    assert_eq!(counters.worker, 505);
    assert_eq!(counters.degraded, 500);
    assert_eq!(counters.errors, 9);
}
