use openworkspace_api::metrics::{
    EntitySnapshot, MetricsStore, Range, Series, Snapshot, TIER1_CAPACITY, TIER2_CAPACITY,
    WINDOW_SAMPLES,
};

#[derive(Debug, Clone, Copy, PartialEq)]
struct Sample {
    ts: i64,
    cpu_percent: f64,
    mem_used_bytes: u64,
    mem_total_bytes: u64,
    disk_used_bytes: u64,
    disk_total_bytes: u64,
}

#[derive(Debug, Clone, Copy, PartialEq)]
struct Aggregate {
    ts: i64,
    cpu_mean: f64,
    cpu_peak: f64,
    mem_used_mean: u64,
    mem_used_peak: u64,
}

fn aggregate(window: Vec<Sample>) -> Aggregate {
    let n = window.len() as f64;
    let cpu_sum: f64 = window.iter().map(|s| s.cpu_percent).sum();
    let cpu_peak = window.iter().map(|s| s.cpu_percent).fold(0.0_f64, f64::max);
    let mem_sum: u64 = window.iter().map(|s| s.mem_used_bytes).sum();
    let mem_peak = window.iter().map(|s| s.mem_used_bytes).max().unwrap_or(0);
    Aggregate {
        ts: window.last().unwrap().ts,
        cpu_mean: cpu_sum / n,
        cpu_peak,
        mem_used_mean: (mem_sum as f64 / n) as u64,
        mem_used_peak: mem_peak,
    }
}

fn sample(ts: i64, cpu: f64, mem: u64) -> Sample {
    Sample {
        ts,
        cpu_percent: cpu,
        mem_used_bytes: mem,
        mem_total_bytes: 32_000_000_000,
        disk_used_bytes: 180_000_000_000,
        disk_total_bytes: 500_000_000_000,
    }
}

type Store = MetricsStore<Sample, Aggregate>;

fn record_host(store: &mut Store, s: Sample) {
    store.record_host(s, &aggregate);
}

fn record_instance(store: &mut Store, id: u128, s: Sample) {
    store.record_instance(id, s, &aggregate);
}

fn cpu_series(e: &EntitySnapshot<Sample, Aggregate>) -> Vec<f64> {
    match &e.series {
        Series::Hour(v) => v.iter().map(|s| s.cpu_percent).collect(),
        Series::Day(v) => v.iter().map(|a| a.cpu_mean).collect(),
    }
}

fn cpu_percent(e: &EntitySnapshot<Sample, Aggregate>) -> f64 {
    e.latest.map(|s| s.cpu_percent).unwrap_or(0.0)
}

fn find(snap: &Snapshot<Sample, Aggregate>, id: u128) -> &EntitySnapshot<Sample, Aggregate> {
    &snap.instances.iter().find(|(k, _)| *k == id).unwrap().1
}

#[test]
fn tier1_evicts_oldest_past_capacity() {
    let mut store = Store::new();
    for i in 0..(TIER1_CAPACITY + 1) {
        record_host(&mut store, sample(i as i64, i as f64, i as u64));
    }
    let snap = store.snapshot(Range::Hour);
    let series = cpu_series(&snap.host);
    assert_eq!(series.len(), TIER1_CAPACITY);
    assert_eq!(series[0], 1.0);
    assert_eq!(*series.last().unwrap(), TIER1_CAPACITY as f64);
}

#[test]
fn tier2_promotes_every_20_samples() {
    let mut store = Store::new();
    for i in 0..40 {
        record_host(&mut store, sample(i as i64, i as f64, i as u64));
    }
    let snap = store.snapshot(Range::Day);
    let series = cpu_series(&snap.host);
    assert_eq!(series.len(), 2);
    assert!((series[0] - 9.5).abs() < 1e-9);
}

#[test]
fn tier2_capacity_is_24h() {
    let mut store = Store::new();
    for i in 0..(TIER2_CAPACITY * WINDOW_SAMPLES + WINDOW_SAMPLES) {
        record_host(&mut store, sample(i as i64, i as f64, i as u64));
    }
    let snap = store.snapshot(Range::Day);
    assert_eq!(cpu_series(&snap.host).len(), TIER2_CAPACITY);
}

#[test]
fn snapshot_latest_values_from_last_sample() {
    let mut store = Store::new();
    record_host(&mut store, sample(1, 11.0, 5_000_000_000));
    let snap = store.snapshot(Range::Hour);
    let latest = snap.host.latest.unwrap();
    assert_eq!(latest.cpu_percent, 11.0);
    assert_eq!(latest.mem_used_bytes, 5_000_000_000);
    assert_eq!(latest.mem_total_bytes, 32_000_000_000);
    assert_eq!(latest.disk_used_bytes, 180_000_000_000);
    assert_eq!(latest.disk_total_bytes, 500_000_000_000);
}

#[test]
fn instances_are_keyed_and_snapshotted() {
    let mut store = Store::new();
    let a: u128 = 0x1111_2222_3333_4444_5555_6666_7777_8888;
    let b: u128 = 0x9999_aaaa_bbbb_cccc_dddd_eeee_ffff_0000;
    record_instance(&mut store, a, sample(1, 42.0, 1_000));
    record_instance(&mut store, b, sample(1, 7.0, 2_000));
    let snap = store.snapshot(Range::Hour);
    assert_eq!(snap.instances.len(), 2);
    assert_eq!(cpu_percent(find(&snap, a)), 42.0);
}

#[test]
fn retain_active_drops_stale_instances() {
    let mut store = Store::new();
    let a: u128 = 1;
    let b: u128 = 2;
    record_instance(&mut store, a, sample(1, 1.0, 1));
    record_instance(&mut store, b, sample(1, 2.0, 2));
    store.retain_active(&[a]);
    let snap = store.snapshot(Range::Hour);
    assert_eq!(snap.instances.len(), 1);
    assert_eq!(snap.instances[0].0, a);
}

#[test]
fn empty_store_snapshots_zeros() {
    let store = Store::new();
    let snap = store.snapshot(Range::Hour);
    assert_eq!(cpu_percent(&snap.host), 0.0);
    assert!(cpu_series(&snap.host).is_empty());
    assert!(snap.instances.is_empty());
}

#[test]
fn window_aggregate_carries_last_timestamp_and_peaks() {
    let mut store = Store::new();
    for i in 0..WINDOW_SAMPLES {
        record_host(&mut store, sample(100 + i as i64, (i % 7) as f64, 1000 + i as u64));
    }
    let snap = store.snapshot(Range::Day);
    match snap.host.series {
        Series::Day(v) => {
            assert_eq!(v.len(), 1);
            assert_eq!(v[0].ts, 119);
            assert_eq!(v[0].cpu_peak, 6.0);
            assert_eq!(v[0].mem_used_peak, 1019);
            assert_eq!(v[0].mem_used_mean, 1009);
        }
        Series::Hour(_) => panic!("a day snapshot carries the aggregated series"),
    }
}

#[test]
fn nineteen_samples_leave_the_day_series_empty() {
    let mut store = Store::new();
    for i in 0..(WINDOW_SAMPLES - 1) {
        record_host(&mut store, sample(i as i64, 1.0, 1));
    }
    assert!(cpu_series(&store.snapshot(Range::Day).host).is_empty());
    assert_eq!(cpu_series(&store.snapshot(Range::Hour).host).len(), WINDOW_SAMPLES - 1);
}

#[test]
fn recording_one_instance_leaves_the_others_alone() {
    let mut store = Store::new();
    record_instance(&mut store, 5, sample(1, 3.0, 3));
    record_instance(&mut store, 9, sample(1, 4.0, 4));
    record_instance(&mut store, 5, sample(2, 8.0, 8));
    let snap = store.snapshot(Range::Hour);
    assert_eq!(snap.instances.len(), 2);
    assert_eq!(cpu_series(find(&snap, 5)), vec![3.0, 8.0]);
    assert_eq!(cpu_series(find(&snap, 9)), vec![4.0]);
    assert!(cpu_series(&snap.host).is_empty());
}

#[test]
fn retain_active_keeps_exactly_the_listed_survivors() {
    let mut store = Store::new();
    for id in [7u128, 3, 11, 5] {
        record_instance(&mut store, id, sample(1, id as f64, 1));
    }
    store.retain_active(&[5, 7, 42]);
    let snap = store.snapshot(Range::Hour);
    let mut ids: Vec<u128> = snap.instances.iter().map(|(k, _)| *k).collect();
    ids.sort();
    assert_eq!(ids, vec![5, 7]);
    assert_eq!(cpu_percent(find(&snap, 7)), 7.0);
}
