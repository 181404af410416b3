use openworkspace_api::proc::{
    count_cpu_lines, disk_usage_from_counts, parse_cpu_counters, parse_meminfo, CpuCounters,
};

const STAT_FIXTURE: &str =
    "cpu  51428 5448 28883 32964784 39949 0 3098 0 0 0";

fn base_counters() -> CpuCounters {
    CpuCounters {
        user: 51428,
        nice: 5448,
        system: 28883,
        idle: 32964784,
        iowait: 39949,
        irq: 0,
        softirq: 3098,
        steal: 0,
    }
}

#[test]
fn parse_cpu_counters_reads_all_fields() {
    let c = parse_cpu_counters(STAT_FIXTURE).expect("valid line");
    assert_eq!(c, base_counters());
}

#[test]
fn parse_cpu_counters_rejects_malformed() {
    assert_eq!(parse_cpu_counters(""), None);
    assert_eq!(parse_cpu_counters("cpu"), None);
    assert_eq!(parse_cpu_counters("cpu  1 2 3"), None);
    assert_eq!(parse_cpu_counters("cpu  1 2 3 4 5 6 7 nope 9 10"), None);
    assert_eq!(parse_cpu_counters("cpu0  1 2 3 4 5 6 7 8 9 10"), None);
    assert_eq!(parse_cpu_counters("bogus  1 2 3 4 5 6 7 8 9 10"), None);
}

#[test]
fn count_cpu_lines_counts_per_cpu_lines_not_aggregate() {
    let text = "\
cpu  51428 5448 28883 32964784 39949 0 3098 0 0 0
cpu0  1 2 3 4 5 6 7 8 9 10
cpu1  1 2 3 4 5 6 7 8 9 10
cpu2  1 2 3 4 5 6 7 8 9 10
cpu03  1 2 3 4 5 6 7 8 9 10
intr 1234
";
    assert_eq!(count_cpu_lines(text), 4);
}

#[test]
fn count_cpu_lines_malformed_is_zero() {
    assert_eq!(count_cpu_lines(""), 0);
    assert_eq!(count_cpu_lines("cpu  1 2 3\n"), 0);
    assert_eq!(count_cpu_lines("bogus\nintr 1\n"), 0);
}

const MEMINFO_FIXTURE: &str = "\
MemTotal:       32768512 kB
MemFree:        1234567 kB
MemAvailable:   26000000 kB
Buffers:         543210 kB
Cached:         4321098 kB
";

#[test]
fn parse_meminfo_reads_total_and_available() {
    let m = parse_meminfo(MEMINFO_FIXTURE).expect("valid meminfo");
    assert_eq!(m.total_kb, 32768512);
    assert_eq!(m.available_kb, 26000000);
}

#[test]
fn parse_meminfo_tolerates_extra_and_blank_lines() {
    let text = "\n\nMemTotal:       8 kB\n   \nMemAvailable:   4 kB\n\n";
    let m = parse_meminfo(text).expect("tolerant parse");
    assert_eq!((m.total_kb, m.available_kb), (8, 4));
}

#[test]
fn parse_meminfo_missing_fields_is_none() {
    assert_eq!(parse_meminfo(""), None);
    assert_eq!(parse_meminfo("MemTotal:       8 kB\n"), None);
    assert_eq!(parse_meminfo("MemAvailable:   4 kB\n"), None);
    assert_eq!(parse_meminfo("garbage line here\n"), None);
}

#[test]
fn disk_usage_from_counts_matches_math() {
    let d = disk_usage_from_counts(1000, 250, 4096);
    assert_eq!(d.total_bytes, 4_096_000);
    assert_eq!(d.used_bytes, 3_072_000);
}
