use monstera::bench::Bench;

#[test]
fn summary_without_events_is_not_available() {
    let bench = Bench::new();
    assert_eq!(bench.summary(), "N/A");
}

#[test]
fn durations_are_stop_minus_start() {
    let mut bench = Bench::new();
    bench.add_total(100, 250);
    bench.add_present(7, 7);
    bench.add_update(3, 13);
    assert_eq!(bench.bench_events, vec![150]);
    assert_eq!(bench.present_events, vec![0]);
    assert_eq!(bench.update_events, vec![10]);
}

#[test]
fn reversed_timestamps_count_as_zero() {
    let mut bench = Bench::new();
    bench.add_total(500, 100);
    assert_eq!(bench.bench_events, vec![0]);
}

#[test]
fn stats_are_exact() {
    let mut bench = Bench::new();
    bench.add_total(0, 10);
    bench.add_total(0, 30);
    bench.add_present(0, 5);
    let stats = bench.stats();
    assert_eq!(stats.events, 2);
    assert_eq!(stats.average_ns, 20);
    assert_eq!(stats.presents, 1);
    assert_eq!(stats.average_present_ns, 5);
    assert_eq!(stats.updates, 0);
    assert_eq!(stats.average_update_ns, 0);
    assert_eq!(stats.min_ns, 10);
    assert_eq!(stats.max_ns, 30);
}

#[test]
fn average_rounds_down() {
    let mut bench = Bench::new();
    bench.add_total(0, 3);
    bench.add_total(0, 4);
    assert_eq!(bench.stats().average_ns, 3);
}

#[test]
fn summary_reports_the_statistics() {
    let mut bench = Bench::new();
    bench.add_total(0, 10);
    bench.add_total(0, 30);
    let summary = bench.summary();
    assert_ne!(summary, "N/A");
    assert!(summary.contains("events: 2"));
    assert!(summary.contains("average event (ns): 20"));
    assert!(summary.contains("min: 10"));
    assert!(summary.contains("max: 30"));
}

#[test]
fn default_bench_is_empty() {
    let bench = Bench::default();
    assert_eq!(bench.bench_events.len(), 0);
    assert_eq!(bench.present_events.len(), 0);
    assert_eq!(bench.update_events.len(), 0);
}
