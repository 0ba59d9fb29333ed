use std::time::Duration;

use snowscape::performance::MAX_ENTRIES;
use snowscape::{Indicator, Performance, Stats, SLOW_CALL_THRESHOLD};

const BASE_STATS: Stats = Stats {
    count: 100,
    last: None,
    avg: None,
    min: None,
    max: None,
    p50: None,
    p90: None,
    p99: None,
    slow_call_count: 0,
};

fn micros(n: u64) -> u64 {
    Duration::from_micros(n).as_nanos() as u64
}

#[test]
fn slow_call_threshold() {
    assert_eq!(SLOW_CALL_THRESHOLD, Duration::from_millis(1).as_nanos() as u64);
}

#[test]
fn combine_takes_higher_priority() {
    assert_eq!(
        Indicator::Healthy.combine(Indicator::Degraded),
        Indicator::Degraded
    );
    assert_eq!(
        Indicator::Degraded.combine(Indicator::Severe),
        Indicator::Severe
    );
    assert_eq!(
        Indicator::Healthy.combine(Indicator::Healthy),
        Indicator::Healthy
    );
    assert_eq!(
        Indicator::Unknown.combine(Indicator::Healthy),
        Indicator::Healthy
    );
}

#[test]
fn stats_indicator_unknown_when_no_p90() {
    assert_eq!(BASE_STATS.indicator(), Indicator::Unknown);
}

#[test]
fn stats_indicator_healthy_low_p90_no_slow_calls() {
    let mut stats = BASE_STATS;
    stats.p90 = Some(micros(600));
    assert_eq!(stats.indicator(), Indicator::Healthy);
}

#[test]
fn stats_indicator_few_slow_calls() {
    let mut stats = BASE_STATS;
    stats.p90 = Some(micros(850));
    stats.slow_call_count = 3;
    assert_eq!(stats.indicator(), Indicator::Degraded);
}

#[test]
fn stats_indicator_several_slow_calls() {
    let mut stats = BASE_STATS;
    stats.p90 = Some(micros(900));
    stats.slow_call_count = 10;
    assert_eq!(stats.indicator(), Indicator::Severe);
}

#[test]
fn stats_indicator_at_slow_call_threshold() {
    let mut stats = BASE_STATS;
    stats.p90 = Some(SLOW_CALL_THRESHOLD);
    assert_eq!(stats.indicator(), Indicator::Degraded);
}

#[test]
fn stats_indicator_at_double_threshold() {
    let mut stats = BASE_STATS;
    stats.p90 = Some(SLOW_CALL_THRESHOLD * 2);
    assert_eq!(stats.indicator(), Indicator::Severe);
    stats.p90 = Some(SLOW_CALL_THRESHOLD * 2 + 1);
    assert_eq!(stats.indicator(), Indicator::Severe);
}

#[test]
fn stats_indicator_5_percent_slow_calls_at_degraded_boundary() {
    let mut stats = BASE_STATS;
    stats.p90 = Some(micros(900));
    stats.slow_call_count = 5;
    assert_eq!(stats.indicator(), Indicator::Severe);
}

#[test]
fn one_very_slow_update_among_ten_fast_is_not_healthy() {
    let mut samples = vec![micros(100); 10];
    samples.push(SLOW_CALL_THRESHOLD * 10);
    let performance = Performance::new(Vec::new(), samples);
    let stats = performance.update_stats();
    assert_eq!(stats.count, 11);
    assert_eq!(stats.slow_call_count, 1);
    assert_ne!(stats.indicator(), Indicator::Healthy);
    assert_ne!(performance.overall_status(), Indicator::Healthy);
}

#[test]
fn stats_of_known_samples() {
    let samples: Vec<u64> = vec![50, 10, 40, 20, 30];
    let performance = Performance::new(samples.clone(), Vec::new());
    let stats = performance.view_stats();
    assert_eq!(stats.count, 5);
    assert_eq!(stats.last, Some(30));
    assert_eq!(stats.avg, Some(30));
    assert_eq!(stats.min, Some(10));
    assert_eq!(stats.max, Some(50));
    // floor(50 * 5 / 100) = 2, floor(90 * 5 / 100) = 4, floor(99 * 5 / 100) = 4
    assert_eq!(stats.p50, Some(30));
    assert_eq!(stats.p90, Some(50));
    assert_eq!(stats.p99, Some(50));
    assert_eq!(stats.slow_call_count, 0);
    assert_eq!(performance.view_count(), 5);
    assert_eq!(performance.last_view_time(), Some(30));
    assert_eq!(performance.avg_view_time(), Some(30));
    assert_eq!(performance.min_view_time(), Some(10));
    assert_eq!(performance.max_view_time(), Some(50));
}

#[test]
fn average_rounds_down() {
    let performance = Performance::new(Vec::new(), vec![1, 2]);
    assert_eq!(performance.avg_update_time(), Some(1));
    assert_eq!(performance.min_update_time(), Some(1));
    assert_eq!(performance.max_update_time(), Some(2));
    assert_eq!(performance.last_update_time(), Some(2));
    assert_eq!(performance.update_count(), 2);
}

#[test]
fn average_of_huge_samples_does_not_overflow() {
    let performance = Performance::new(vec![u64::MAX, u64::MAX, u64::MAX - 2], Vec::new());
    assert_eq!(performance.avg_view_time(), Some(u64::MAX - 1));
}

#[test]
fn empty_samples_give_no_stats() {
    let performance = Performance::new(Vec::new(), Vec::new());
    let stats = performance.view_stats();
    assert_eq!(stats.count, 0);
    assert_eq!(stats.last, None);
    assert_eq!(stats.avg, None);
    assert_eq!(stats.min, None);
    assert_eq!(stats.max, None);
    assert_eq!(stats.p50, None);
    assert_eq!(stats.p90, None);
    assert_eq!(stats.p99, None);
    assert_eq!(stats.indicator(), Indicator::Unknown);
    assert_eq!(performance.overall_status(), Indicator::Unknown);
}

#[test]
fn record_calls_time_and_return() {
    let mut performance = Performance::new(Vec::new(), Vec::new());
    let seven = performance.record_view(|| 3 + 4);
    assert_eq!(seven, 7);
    let text = performance.record_update(|| String::from("done"));
    assert_eq!(text, "done");
    assert_eq!(performance.view_count(), 1);
    assert_eq!(performance.update_count(), 1);
    performance.reset();
    assert_eq!(performance.view_count(), 0);
    assert_eq!(performance.update_count(), 0);
}

#[test]
fn recording_stops_at_the_cap() {
    let mut performance = Performance::new(vec![5; MAX_ENTRIES], Vec::new());
    performance.record_view(|| ());
    assert_eq!(performance.view_count(), MAX_ENTRIES);
    assert_eq!(performance.last_view_time(), Some(5));
}

#[test]
fn severity_order_when_combining() {
    for a in Indicator::ALL {
        assert_eq!(a.combine(Indicator::Unknown), a);
        assert_eq!(Indicator::Severe.combine(a), Indicator::Severe);
    }
    assert_eq!(Indicator::Degraded.combine(Indicator::Healthy), Indicator::Degraded);
    assert_eq!(Indicator::Severe.name(), "Severe");
    assert_eq!(Indicator::default(), Indicator::Unknown);
}
