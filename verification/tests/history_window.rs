//! Behavior of the sliding history window and the process table.

use rgm::data::GpuData;
use rgm::data::ProcessInfo;
use rgm::history::History;
use rgm::history::ProcessTable;

fn sample_at(ts: u64) -> GpuData {
    GpuData {
        timestamp: ts,
        utilization: 42,
        memory_used: 2_000_000_000,
        memory_total: 8_000_000_000,
        temperature: 60,
        gpu_clock: 1500,
        memory_clock: 7000,
        power_usage: 120_000,
        power_limit: 250_000,
        fan_speed: 35,
        pcie_throughput_tx: 1024,
        pcie_throughput_rx: 2048,
    }
}

fn timestamps(h: &History) -> Vec<u64> {
    let mut out = Vec::new();
    let mut i = 0;
    while i < h.len() {
        out.push(h.get(i).timestamp);
        i += 1;
    }
    out
}

#[test]
fn window_eviction_scenario() {
    // Timestamps 0, 2, 4, 6, 11 seconds with a 10 second window: appending
    // 11 moves the threshold to 1, so only the first sample is evicted.
    let mut h = History::new(10_000);
    for ts in [0, 2_000, 4_000, 6_000, 11_000] {
        h.push(sample_at(ts));
    }
    assert_eq!(timestamps(&h), vec![2_000, 4_000, 6_000, 11_000]);
}

#[test]
fn window_keeps_everything_within_span() {
    let mut h = History::new(10_000);
    for ts in [0, 1_000, 2_000, 3_000] {
        h.push(sample_at(ts));
    }
    assert_eq!(h.len(), 4);
    assert_eq!(timestamps(&h), vec![0, 1_000, 2_000, 3_000]);
}

#[test]
fn window_evicts_all_older_samples() {
    let mut h = History::new(1_000);
    for ts in [0, 100, 200, 50_000] {
        h.push(sample_at(ts));
    }
    assert_eq!(timestamps(&h), vec![50_000]);
}

#[test]
fn empty_window_has_no_latest() {
    let h = History::new(10_000);
    assert_eq!(h.len(), 0);
    assert!(h.latest().is_none());
    assert!(h.snapshot().is_empty());
    assert!(h.series_points().is_empty());
    assert!(h.power_points().is_empty());
}

#[test]
fn latest_is_newest_sample() {
    let mut h = History::new(10_000);
    h.push(sample_at(500));
    h.push(sample_at(700));
    assert_eq!(h.latest().unwrap().timestamp, 700);
}

#[test]
fn display_duration_change_takes_effect_at_next_push() {
    // A long window admits old samples; shrinking the span evicts them as
    // soon as the next sample arrives, without any further flushing.
    let mut h = History::new(1_000_000);
    for ts in [0, 30_000, 60_000] {
        h.push(sample_at(ts));
    }
    assert_eq!(h.len(), 3);
    h.set_display_duration(10_000);
    assert_eq!(h.len(), 3, "changing the span touches no samples by itself");
    h.push(sample_at(61_000));
    assert_eq!(timestamps(&h), vec![60_000, 61_000]);
}

#[test]
fn snapshot_copies_window_in_order() {
    let mut h = History::new(10_000);
    h.push(sample_at(100));
    h.push(sample_at(200));
    let snap = h.snapshot();
    assert_eq!(snap.len(), 2);
    assert_eq!(snap[0], sample_at(100));
    assert_eq!(snap[1], sample_at(200));
}

#[test]
fn series_points_include_every_sample_unmodified() {
    let mut h = History::new(100_000);
    let mut zero_cap = sample_at(1_000);
    zero_cap.power_limit = 0;
    h.push(zero_cap);
    h.push(sample_at(4_000));
    let points = h.series_points();
    assert_eq!(points.len(), 2);
    // Ages are relative to the newest timestamp.
    assert_eq!(points[0].0, 3_000);
    assert_eq!(points[1].0, 0);
    assert_eq!(points[0].1, zero_cap);
    assert_eq!(points[1].1, sample_at(4_000));
}

#[test]
fn power_series_excludes_zero_power_limit() {
    let mut h = History::new(100_000);
    let mut zero_cap = sample_at(1_000);
    zero_cap.power_limit = 0;
    h.push(zero_cap);
    h.push(sample_at(4_000));
    let points = h.power_points();
    assert_eq!(points.len(), 1);
    assert_eq!(points[0], (0, 120_000, 250_000));
}

#[test]
fn process_table_replaces_wholesale() {
    let mut t = ProcessTable::new();
    t.replace(vec![
        ProcessInfo { pid: 1, name: "alpha".to_string(), memory_usage: 10 },
        ProcessInfo { pid: 2, name: "beta".to_string(), memory_usage: 20 },
    ]);
    assert_eq!(t.len(), 2);
    t.replace(vec![ProcessInfo { pid: 3, name: "gamma".to_string(), memory_usage: 30 }]);
    // Atomic from the reader's point of view: nothing of the old list
    // survives next to the new one.
    let snap = t.snapshot();
    assert_eq!(snap.len(), 1);
    assert_eq!(snap[0].pid, 3);
    assert_eq!(snap[0].name, "gamma");
    assert_eq!(snap[0].memory_usage, 30);
}

#[test]
fn process_table_starts_empty() {
    let t = ProcessTable::new();
    assert_eq!(t.len(), 0);
    assert!(t.snapshot().is_empty());
}
