use openworkspace_api::monitor::{memory_usage, sample_due, MetricsSampler, ACTIVE_STATUSES};
use openworkspace_api::proc::{CpuCounters, MemInfo};

fn base_counters() -> CpuCounters {
    CpuCounters {
        user: 51_478,
        nice: 0,
        system: 30_000,
        idle: 32_964_934,
        iowait: 100,
        irq: 0,
        softirq: 50,
        steal: 0,
    }
}

#[test]
fn sampling_runs_every_fifth_tick() {
    assert!(sample_due(0));
    assert!(!sample_due(4));
    assert!(sample_due(5));
    assert!(sample_due(15));
    assert_eq!(ACTIVE_STATUSES, ["running", "starting", "paused"]);
}

#[test]
fn first_pass_has_no_cpu_delta_and_next_pass_does() {
    let mut s = MetricsSampler::new();
    let prev = base_counters();
    assert_eq!(s.observe_cpu(prev), None);
    let cur = CpuCounters { user: 51_678, idle: 32_965_534, ..prev };
    assert_eq!(s.observe_cpu(cur), Some((200, 800)));
}

#[test]
fn counter_reset_counts_as_no_progress() {
    let mut s = MetricsSampler::new();
    let prev = base_counters();
    s.observe_cpu(prev);
    let reset = CpuCounters { user: 1, nice: 0, system: 1, idle: 10, iowait: 0, irq: 0, softirq: 0, steal: 0 };
    assert_eq!(s.observe_cpu(reset), Some((0, 0)));
}

#[test]
fn memory_usage_is_total_less_available_in_bytes() {
    assert_eq!(memory_usage(MemInfo { total_kb: 1000, available_kb: 250 }), (750 * 1024, 1000 * 1024));
    assert_eq!(memory_usage(MemInfo { total_kb: 100, available_kb: 250 }), (0, 100 * 1024));
}
