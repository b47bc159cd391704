use solprobe::diagnostics::{
    evaluate_troubleshoot, expected_version, network_performance_report, node_health_from_queries,
    performance_from_sample, MetricsError,
};
use solprobe::probe::ProbeResult;
use solprobe::types::PerfSample;

fn sample(num_transactions: u64, num_slots: u64, sample_period_secs: u64) -> PerfSample {
    PerfSample { num_transactions, num_slots, sample_period_secs }
}

#[test]
fn boundary_rate_is_not_congested() {
    // 3000 transactions over 2 seconds is exactly 1500 tps: the congestion
    // flag needs strictly more.
    let s = Some(sample(3000, 4, 2));
    let r = evaluate_troubleshoot(true, &None, &None, &s);
    assert!(!r.network_congestion);

    let p = performance_from_sample(&s, None);
    assert_eq!(p.tps_milli, 1_500_000);
    assert_eq!(p.avg_block_time_milli, Some(500));
}

#[test]
fn rate_above_threshold_is_congested() {
    let s = Some(sample(4000, 4, 2));
    let r = evaluate_troubleshoot(true, &None, &None, &s);
    assert!(r.network_congestion);

    let p = performance_from_sample(&s, None);
    assert_eq!(p.tps_milli, 2_000_000);
}

#[test]
fn version_mismatch_on_inequality() {
    let reported = Some(String::from("1.14.1"));
    let r = evaluate_troubleshoot(true, &reported, &None, &None);
    assert!(r.version_mismatch);
}

#[test]
fn version_match_on_equality() {
    let reported = Some(expected_version());
    assert_eq!(reported.as_deref(), Some("1.14.0"));
    let r = evaluate_troubleshoot(true, &reported, &None, &None);
    assert!(!r.version_mismatch);
}

#[test]
fn missing_version_fails_open() {
    let r = evaluate_troubleshoot(true, &None, &None, &None);
    assert!(!r.version_mismatch);
}

#[test]
fn latency_threshold_is_strict() {
    let at = evaluate_troubleshoot(true, &None, &Some(500), &None);
    assert!(!at.high_latency);
    let above = evaluate_troubleshoot(true, &None, &Some(501), &None);
    assert!(above.high_latency);
    let unmeasured = evaluate_troubleshoot(true, &None, &None, &None);
    assert!(!unmeasured.high_latency);
}

#[test]
fn connection_status_is_passed_through() {
    assert!(evaluate_troubleshoot(true, &None, &None, &None).connection_status);
    assert!(!evaluate_troubleshoot(false, &None, &None, &None).connection_status);
}

#[test]
fn missing_sample_gives_zero_rate() {
    let p = performance_from_sample(&None, Some(250));
    assert_eq!(p.tps_milli, 0);
    assert_eq!(p.avg_block_time_milli, None);
    assert_eq!(p.confirmation_time_ms, Some(250));
}

#[test]
fn sample_without_slots_has_no_block_time() {
    let p = performance_from_sample(&Some(sample(100, 0, 2)), None);
    assert_eq!(p.tps_milli, 50_000);
    assert_eq!(p.avg_block_time_milli, None);
}

#[test]
fn node_health_keeps_exactly_what_was_answered() {
    let h = node_health_from_queries(true, Some(String::from("1.14.0")), Some(7), None, Some(2));
    assert!(h.is_responsive);
    assert_eq!(h.version.as_deref(), Some("1.14.0"));
    assert_eq!(h.current_slot, Some(7));
    assert_eq!(h.current_epoch, None);
    assert_eq!(h.total_nodes, Some(2));
}

#[test]
fn timed_out_probe_is_an_error() {
    let r = network_performance_report(&Some(sample(3000, 4, 2)), &ProbeResult::TimedOut);
    assert!(matches!(r, Err(MetricsError::ConfirmationTimeout)));
}

#[test]
fn confirmed_probe_completes_the_snapshot() {
    let r = network_performance_report(&Some(sample(3000, 4, 2)), &ProbeResult::Confirmed(700));
    let p = r.unwrap();
    assert_eq!(p.tps_milli, 1_500_000);
    assert_eq!(p.avg_block_time_milli, Some(500));
    assert_eq!(p.confirmation_time_ms, Some(700));
}
