//! The monitor-dashboard sampling pass: how often it runs, which instances
//! it samples, and the integer half of a host sample (CPU tick progress
//! between passes, memory use from `/proc/meminfo`). The reads and the
//! percentage are the caller's.

use vstd::prelude::*;

use crate::proc::{cpu_tick_deltas, CpuCounters, MemInfo};

verus! {

/// The health worker ticks every 3 s; a sampling pass runs on every fifth
/// tick, i.e. every 15 s.
pub const SAMPLE_EVERY_TICKS: u32 = 5;

/// Which instance statuses the monitor treats as active (sampled and
/// listed).
pub const ACTIVE_STATUSES: [&'static str; 3] = ["running", "starting", "paused"];

/// Whether worker tick `tick` runs a sampling pass.
pub fn sample_due(tick: u32) -> (r: bool)
    ensures
        r == (tick % SAMPLE_EVERY_TICKS == 0),
{
    tick % SAMPLE_EVERY_TICKS == 0
}

/// The sampler's state: the host CPU counters of the previous pass, from
/// which the next pass's CPU use is computed.
pub struct MetricsSampler {
    prev_host_cpu: Option<CpuCounters>,
}

impl MetricsSampler {
    /// The counters of the previous pass, if one has read them.
    pub closed spec fn previous(&self) -> Option<CpuCounters> {
        self.prev_host_cpu
    }

    /// A sampler that has not read the host counters yet.
    pub fn new() -> (s: MetricsSampler)
        ensures
            s.previous() is None,
    {
        MetricsSampler { prev_host_cpu: None }
    }

    /// Record this pass's host CPU counters and return the busy and total
    /// tick progress since the previous pass (`None` on the first pass,
    /// whose CPU use is reported as zero).
    pub fn observe_cpu(&mut self, cur: CpuCounters) -> (r: Option<(u64, u64)>)
        requires
            cur.total_spec() <= u64::MAX,
            match old(self).previous() {
                Some(p) => p.total_spec() <= u64::MAX,
                None => true,
            },
        ensures
            final(self).previous() == Some(cur),
            match old(self).previous() {
                None => r is None,
                Some(p) => r is Some && r.unwrap().0 == (if cur.busy_spec() >= p.busy_spec() {
                    cur.busy_spec() - p.busy_spec()
                } else {
                    0
                }) && r.unwrap().1 == (if cur.total_spec() >= p.total_spec() {
                    cur.total_spec() - p.total_spec()
                } else {
                    0
                }),
            },
    {
        let r = match self.prev_host_cpu {
            Some(prev) => Some(cpu_tick_deltas(&prev, &cur)),
            None => None,
        };
        self.prev_host_cpu = Some(cur);
        r
    }
}

/// Used and total memory bytes of the host from `/proc/meminfo` values in
/// kB: total, and total less available (floored at zero).
pub fn memory_usage(mem: MemInfo) -> (r: (u64, u64))
    requires
        mem.total_kb * 1024 <= u64::MAX,
    ensures
        r.0 == (if mem.total_kb >= mem.available_kb {
            mem.total_kb - mem.available_kb
        } else {
            0
        }) * 1024,
        r.1 == mem.total_kb * 1024,
{
    let used_kb = if mem.total_kb >= mem.available_kb {
        mem.total_kb - mem.available_kb
    } else {
        0
    };
    (used_kb * 1024, mem.total_kb * 1024)
}

} // verus!
