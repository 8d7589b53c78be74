//! The pipeline end to end: scripted monitor, channel, drain, stores.

use rgm::channel::drain_into;
use rgm::channel::sample_channel;
use rgm::channel::send_sample;
use rgm::data::GpuData;
use rgm::data::GpuInfo;
use rgm::data::ProcessInfo;
use rgm::history::History;
use rgm::history::ProcessTable;
use rgm::monitor::GpuMonitor;
use rgm::monitor::ScriptStep;
use rgm::monitor::ScriptedMonitor;
use rgm::sampler::SamplerOutcome;
use rgm::sampler::outcome_of;
use rgm::sampler::sampler_tick;
use rgm::sampler::should_continue;

fn sample_at(ts: u64) -> GpuData {
    GpuData {
        timestamp: ts,
        utilization: 10,
        memory_used: 1,
        memory_total: 2,
        temperature: 40,
        gpu_clock: 100,
        memory_clock: 200,
        power_usage: 50,
        power_limit: 100,
        fan_speed: 20,
        pcie_throughput_tx: 3,
        pcie_throughput_rx: 4,
    }
}

fn proc_entry(pid: u32, mem: u64) -> ProcessInfo {
    ProcessInfo { pid, name: "unknown".to_string(), memory_usage: mem }
}

fn scripted_info() -> GpuInfo {
    GpuInfo {
        name: "Scripted".to_string(),
        uuid: "GPU-0000".to_string(),
        pcie_gen: 4,
        pcie_width: 16,
        driver_version: "0.0".to_string(),
        vbios_version: "0.0".to_string(),
    }
}

#[test]
fn draining_empty_channel_changes_nothing() {
    let (_tx, rx) = sample_channel(100);
    let mut history = History::new(10_000);
    history.push(sample_at(100));
    let mut table = ProcessTable::new();
    table.replace(vec![proc_entry(7, 70)]);

    let drained = drain_into(&rx, &mut history, &mut table);

    assert_eq!(drained, 0);
    assert_eq!(history.len(), 1);
    assert_eq!(history.get(0), sample_at(100));
    assert_eq!(table.len(), 1);
    assert_eq!(table.get(0).pid, 7);
}

#[test]
fn drain_appends_in_order_and_keeps_last_process_list() {
    let (tx, rx) = sample_channel(100);
    assert!(send_sample(&tx, (sample_at(1_000), vec![proc_entry(1, 10)])));
    assert!(send_sample(&tx, (sample_at(2_000), vec![proc_entry(2, 20)])));
    assert!(send_sample(&tx, (sample_at(3_000), vec![proc_entry(3, 30)])));

    let mut history = History::new(100_000);
    let mut table = ProcessTable::new();
    let drained = drain_into(&rx, &mut history, &mut table);

    assert_eq!(drained, 3);
    assert_eq!(history.len(), 3);
    // FIFO preserved end to end: non-decreasing timestamps.
    let mut prev = 0;
    for i in 0..history.len() {
        let ts = history.get(i).timestamp;
        assert!(ts >= prev);
        prev = ts;
    }
    // Only the last message's process list is retained.
    assert_eq!(table.len(), 1);
    assert_eq!(table.get(0).pid, 3);
}

#[test]
fn drain_evicts_by_window_across_messages() {
    let (tx, rx) = sample_channel(100);
    for ts in [0, 2_000, 4_000, 6_000, 11_000] {
        assert!(send_sample(&tx, (sample_at(ts), Vec::new())));
    }
    let mut history = History::new(10_000);
    let mut table = ProcessTable::new();
    assert_eq!(drain_into(&rx, &mut history, &mut table), 5);
    assert_eq!(history.len(), 4);
    assert_eq!(history.get(0).timestamp, 2_000);
    assert_eq!(history.get(3).timestamp, 11_000);
}

#[test]
fn scripted_monitor_replays_script() {
    let mut monitor = ScriptedMonitor::new(
        scripted_info(),
        vec![
            ScriptStep::Produce(sample_at(100), vec![proc_entry(5, 50)]),
            ScriptStep::Fail,
        ],
    );
    let info = monitor.get_static_info();
    assert_eq!(info.name, "Scripted");
    assert_eq!(info.pcie_width, 16);

    let first = monitor.sample().expect("first step produces a reading");
    assert_eq!(first.0, sample_at(100));
    assert_eq!(first.1.len(), 1);
    assert_eq!(first.1[0].pid, 5);

    assert!(monitor.sample().is_err(), "second step is a scripted failure");
    assert!(monitor.sample().is_err(), "an exhausted script keeps failing");
}

#[test]
fn sampling_failure_does_not_stop_loop_and_leaves_history_unchanged() {
    // One transient failure, then a good reading: the loop must carry on
    // after the failure, the stores must be untouched by it, and the next
    // tick must deliver.
    let mut monitor = ScriptedMonitor::new(
        scripted_info(),
        vec![
            ScriptStep::Fail,
            ScriptStep::Produce(sample_at(100), vec![proc_entry(1, 10)]),
        ],
    );
    let (tx, rx) = sample_channel(100);
    let mut history = History::new(10_000);
    let mut table = ProcessTable::new();

    let first = sampler_tick(&mut monitor, &tx);
    assert_eq!(first, SamplerOutcome::SampleFailed);
    assert!(should_continue(first), "a transient failure never ends the loop");
    assert_eq!(drain_into(&rx, &mut history, &mut table), 0);
    assert_eq!(history.len(), 0, "a failed attempt publishes nothing");
    assert_eq!(table.len(), 0);

    let second = sampler_tick(&mut monitor, &tx);
    assert_eq!(second, SamplerOutcome::Sent);
    assert!(should_continue(second));
    assert_eq!(drain_into(&rx, &mut history, &mut table), 1);
    assert_eq!(history.len(), 1);
    assert_eq!(history.get(0), sample_at(100));
    assert_eq!(table.len(), 1);
}

#[test]
fn dropped_receiver_stops_loop() {
    let mut monitor = ScriptedMonitor::new(
        scripted_info(),
        vec![ScriptStep::Produce(sample_at(100), Vec::new())],
    );
    let (tx, rx) = sample_channel(100);
    drop(rx);
    let outcome = sampler_tick(&mut monitor, &tx);
    assert_eq!(outcome, SamplerOutcome::Disconnected);
    assert!(!should_continue(outcome), "a gone consumer ends the loop");
}

#[test]
fn loop_outcomes_follow_the_two_outside_steps() {
    assert_eq!(outcome_of(false, false), SamplerOutcome::SampleFailed);
    assert_eq!(outcome_of(true, true), SamplerOutcome::Sent);
    assert_eq!(outcome_of(true, false), SamplerOutcome::Disconnected);
    assert!(should_continue(SamplerOutcome::SampleFailed));
    assert!(should_continue(SamplerOutcome::Sent));
    assert!(!should_continue(SamplerOutcome::Disconnected));
}

#[test]
fn scripted_monitor_dedups_process_list() {
    // Two entries share a process id: after deduplication exactly one entry
    // with that id remains, the first one.
    let mut monitor = ScriptedMonitor::new(
        scripted_info(),
        vec![ScriptStep::Produce(
            sample_at(100),
            vec![proc_entry(9, 111), proc_entry(9, 222), proc_entry(4, 44)],
        )],
    );
    let (_, procs) = monitor.sample().unwrap();
    assert_eq!(procs.len(), 2);
    assert_eq!(procs[0].pid, 9);
    assert_eq!(procs[0].memory_usage, 111);
    assert_eq!(procs[1].pid, 4);
}
