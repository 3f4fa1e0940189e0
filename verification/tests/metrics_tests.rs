use volt_usb_manager::metrics::counters::MetricsCounters;
use volt_usb_manager::metrics::histogram::LatencyHistogram;
use volt_usb_manager::metrics::latency::LatencyRange;
use volt_usb_manager::metrics::throughput::ThroughputMetrics;

#[test]
fn test_new_counters_all_zero() {
    let c = MetricsCounters::new();
    let snap = c.snapshot();
    assert_eq!(snap.cache_hit_count, 0);
    assert_eq!(snap.cache_miss_count, 0);
    assert_eq!(snap.flush_count, 0);
    assert_eq!(snap.sbp_request_count, 0);
}

#[test]
fn test_snapshot_reflects_atomic_increments() {
    let mut c = MetricsCounters::new();
    c.cache_hits += 10;
    c.cache_misses += 5;
    c.flush_count += 3;
    c.eject_count += 1;
    c.sbp_requests += 100;

    let snap = c.snapshot();
    assert_eq!(snap.cache_hit_count, 10);
    assert_eq!(snap.cache_miss_count, 5);
    assert_eq!(snap.flush_count, 3);
    assert_eq!(snap.eject_count, 1);
    assert_eq!(snap.sbp_request_count, 100);
}

/// The hit ratio as the metrics snapshot derives it from the counters.
fn hit_ratio(c: &MetricsCounters) -> f64 {
    let (total, hits) = c.lookups();
    if total == 0 {
        0.0
    } else {
        hits as f64 / total as f64
    }
}

#[test]
fn test_hit_ratio_calculation() {
    let mut c = MetricsCounters::new();
    c.cache_hits += 7;
    c.cache_misses += 3;
    assert!((hit_ratio(&c) - 0.7).abs() < 0.001);
}

#[test]
fn test_zero_hit_ratio_when_no_requests() {
    let c = MetricsCounters::new();
    assert!((hit_ratio(&c) - 0.0).abs() < 0.001);
}

#[test]
fn test_snapshot_does_not_consume_counters() {
    let mut c = MetricsCounters::new();
    c.cache_hits += 5;
    let _ = c.snapshot();
    assert_eq!(c.cache_hits, 5);
}

#[test]
fn counters_lookups_sum_hits_and_misses() {
    let mut c = MetricsCounters::new();
    c.cache_hits = 7;
    c.cache_misses = 3;
    assert_eq!(c.lookups(), (10, 7));
    assert_eq!(MetricsCounters::new().lookups(), (0, 0));
}

#[test]
fn test_new_histogram() {
    let h = LatencyHistogram::new(vec![100, 200, 500, 1000]);
    assert_eq!(h.snapshot().len(), 5);
}

#[test]
fn test_record_in_first_bucket() {
    let mut h = LatencyHistogram::new(vec![100, 200]);
    h.record(50);
    let snap = h.snapshot();
    assert_eq!(snap[0], 1);
    assert_eq!(snap[1], 0);
    assert_eq!(snap[2], 0);
}

#[test]
fn test_record_in_last_bucket() {
    let mut h = LatencyHistogram::new(vec![100, 200]);
    h.record(999);
    let snap = h.snapshot();
    assert_eq!(snap[0], 0);
    assert_eq!(snap[1], 0);
    assert_eq!(snap[2], 1);
}

#[test]
fn test_reset_clears_all() {
    let mut h = LatencyHistogram::new(vec![100, 200]);
    h.record(50);
    h.record(150);
    h.reset();
    let snap = h.snapshot();
    assert_eq!(snap.iter().sum::<u64>(), 0);
}

#[test]
fn test_record_on_boundary() {
    let mut h = LatencyHistogram::new(vec![100, 200]);
    h.record(100);
    let snap = h.snapshot();
    assert_eq!(snap[0], 0);
    assert_eq!(snap[1], 1);
}

#[test]
fn test_empty_bounds() {
    let mut h = LatencyHistogram::new(vec![]);
    h.record(42);
    let snap = h.snapshot();
    assert_eq!(snap.len(), 1);
    assert_eq!(snap[0], 1);
}

#[test]
fn test_multiple_records() {
    let mut h = LatencyHistogram::new(vec![10, 20, 30]);
    h.record(5);
    h.record(15);
    h.record(25);
    h.record(35);
    let snap = h.snapshot();
    assert_eq!(snap[0], 1);
    assert_eq!(snap[1], 1);
    assert_eq!(snap[2], 1);
    assert_eq!(snap[3], 1);
}

#[test]
fn histogram_weighted_sum_uses_bucket_middles() {
    let mut h = LatencyHistogram::new(vec![100, 200]);
    h.record(50);
    assert_eq!(h.total_count(), 1);
    assert_eq!(h.weighted_sum(), Some(50));
    h.record(150);
    h.record(999);
    assert_eq!(h.total_count(), 3);
    // 50 for [0,100), 150 for [100,200), 2 * 200 for the open bucket.
    assert_eq!(h.weighted_sum(), Some(50 + 150 + 400));
}

#[test]
fn histogram_empty_sums_are_zero() {
    let h = LatencyHistogram::new(vec![100, 200]);
    assert_eq!(h.total_count(), 0);
    assert_eq!(h.weighted_sum(), Some(0));
}

#[test]
fn histogram_weighted_sum_open_bucket() {
    let mut h = LatencyHistogram::new(vec![u64::MAX - 1]);
    for _ in 0..3 {
        h.record(u64::MAX - 1);
    }
    // The open bucket above u64::MAX - 1 weighs 2 * (u64::MAX - 1) per count.
    assert_eq!(h.weighted_sum(), Some(3 * 2 * (u64::MAX as u128 - 1)));
}

#[test]
fn test_record_bytes_increases_count() {
    let mut tm = ThroughputMetrics::new();
    tm.record_bytes(1024);
    assert_eq!(tm.bytes(), 1024);
}

#[test]
fn test_multiple_record_bytes() {
    let mut tm = ThroughputMetrics::new();
    tm.record_bytes(100);
    tm.record_bytes(200);
    tm.record_bytes(300);
    assert_eq!(tm.bytes(), 600);
}

#[test]
fn throughput_reset_clears_bytes() {
    let mut tm = ThroughputMetrics::new();
    tm.record_bytes(5000);
    tm.reset();
    assert_eq!(tm.bytes(), 0);
}

#[test]
fn latency_range_starts_empty() {
    let r = LatencyRange::new();
    assert_eq!(r.count, 0);
    assert_eq!(r.min_us, u64::MAX);
    assert_eq!(r.max_us, 0);
}

#[test]
fn latency_range_tracks_bounds() {
    let mut r = LatencyRange::new();
    r.record(100);
    assert_eq!((r.count, r.min_us, r.max_us), (1, 100, 100));
    r.record(200);
    r.record(300);
    assert_eq!((r.count, r.min_us, r.max_us), (3, 100, 300));
    r.record(50);
    assert_eq!((r.count, r.min_us, r.max_us), (4, 50, 300));
    let snap = r.snapshot();
    r.record(999);
    assert_eq!(snap.count, 4);
    assert_eq!(r.count, 5);
    assert_eq!(r.max_us, 999);
}
