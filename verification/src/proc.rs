//! Host metrics read from `/proc` text and `statfs` counts: the aggregate CPU
//! counters, the number of logical CPUs, total and available memory, and
//! used / total disk bytes.

use vstd::prelude::*;

use crate::text::{
    chars_eq, chars_of, digit, is_digit, lines, lines_chars, parse_unsigned_opt, parse_u64_chars,
    starts_with, starts_with_chars, trim_end_char, trim_end_char_chars, words, words_chars,
};

verus! {

/// The eight tick counters of the aggregate `cpu` line of `/proc/stat`.
#[derive(Debug, Clone, Copy, PartialEq, Eq, Structural)]
pub struct CpuCounters {
    pub user: u64,
    pub nice: u64,
    pub system: u64,
    pub idle: u64,
    pub iowait: u64,
    pub irq: u64,
    pub softirq: u64,
    pub steal: u64,
}

/// The eight numeric fields after `cpu` all read as `u64`.
pub open spec fn counter_fields_ok(w: Seq<Seq<char>>) -> bool {
    forall|k: int| 1 <= k <= 8 ==> #[trigger] parse_unsigned_opt(w[k], u64::MAX as nat) is Some
}

/// Field `k` of the aggregate line.
pub open spec fn counter_field(w: Seq<Seq<char>>, k: int) -> u64 {
    parse_unsigned_opt(w[k], u64::MAX as nat).unwrap() as u64
}

/// The counters of an aggregate `cpu` line: its first word is exactly `cpu`
/// and the next eight words are unsigned integers (later words are ignored).
pub open spec fn cpu_counters_spec(line: Seq<char>) -> Option<CpuCounters> {
    let w = words(line);
    if w.len() >= 9 && w[0] == "cpu"@ && counter_fields_ok(w) {
        Some(
            CpuCounters {
                user: counter_field(w, 1),
                nice: counter_field(w, 2),
                system: counter_field(w, 3),
                idle: counter_field(w, 4),
                iowait: counter_field(w, 5),
                irq: counter_field(w, 6),
                softirq: counter_field(w, 7),
                steal: counter_field(w, 8),
            },
        )
    } else {
        None
    }
}

/// Parse the aggregate `cpu ...` line of `/proc/stat`.
pub fn parse_cpu_counters(line: &str) -> (r: Option<CpuCounters>)
    ensures
        r == cpu_counters_spec(line@),
{
    let v = chars_of(line);
    let w = words_chars(&v);
    let cpu = vec!['c', 'p', 'u'];
    proof {
        reveal_strlit("cpu");
        assert(cpu@ =~= "cpu"@);
    }
    if w.len() == 0 || !chars_eq(&w[0], &cpu) {
        return None;
    }
    let mut fields: Vec<u64> = Vec::new();
    let mut k: usize = 1;
    while k <= 8
        invariant
            1 <= k <= 9,
            w.len() == words(line@).len(),
            forall|j: int| 0 <= j < w.len() ==> (#[trigger] w[j])@ == words(line@)[j],
            fields.len() == k - 1,
            k - 1 <= w.len() - 1,
            forall|j: int|
                1 <= j < k ==> #[trigger] parse_unsigned_opt(w[j]@, u64::MAX as nat) == Some(
                    fields[j - 1] as nat,
                ),
        decreases 9 - k,
    {
        if k >= w.len() {
            return None;
        }
        match parse_u64_chars(&w[k]) {
            None => {
                assert(!counter_fields_ok(words(line@)));
                return None;
            },
            Some(n) => {
                fields.push(n);
            },
        }
        k = k + 1;
    }
    let ghost ws = words(line@);
    assert(counter_fields_ok(ws)) by {
        assert forall|j: int| 1 <= j <= 8 implies #[trigger] parse_unsigned_opt(
            ws[j],
            u64::MAX as nat,
        ) is Some by {
            assert(w[j]@ == ws[j]);
        }
    }
    assert forall|j: int| 1 <= j <= 8 implies counter_field(ws, j) == fields[j - 1] by {
        assert(w[j]@ == ws[j]);
    }
    Some(
        CpuCounters {
            user: fields[0],
            nice: fields[1],
            system: fields[2],
            idle: fields[3],
            iowait: fields[4],
            irq: fields[5],
            softirq: fields[6],
            steal: fields[7],
        },
    )
}

impl CpuCounters {
    /// Ticks spent doing work: every counter but `idle`.
    pub open spec fn busy_spec(&self) -> int {
        self.user + self.nice + self.system + self.iowait + self.irq + self.softirq + self.steal
    }

    /// Every tick.
    pub open spec fn total_spec(&self) -> int {
        self.busy_spec() + self.idle
    }

    /// Ticks spent doing work.
    pub fn busy(&self) -> (r: u64)
        requires
            self.busy_spec() <= u64::MAX,
        ensures
            r == self.busy_spec(),
    {
        self.user + self.nice + self.system + self.iowait + self.irq + self.softirq + self.steal
    }

    /// Every tick, busy or idle.
    pub fn total(&self) -> (r: u64)
        requires
            self.total_spec() <= u64::MAX,
        ensures
            r == self.total_spec(),
    {
        self.busy() + self.idle
    }
}

/// The busy and total tick progress between two reads, each floored at zero
/// (a counter reset counts as no progress): the two integers whose ratio is
/// the CPU busy percentage, which is zero when the total does not advance.
pub fn cpu_tick_deltas(prev: &CpuCounters, cur: &CpuCounters) -> (r: (u64, u64))
    requires
        prev.total_spec() <= u64::MAX,
        cur.total_spec() <= u64::MAX,
    ensures
        r.0 == if cur.busy_spec() >= prev.busy_spec() {
            cur.busy_spec() - prev.busy_spec()
        } else {
            0
        },
        r.1 == if cur.total_spec() >= prev.total_spec() {
            cur.total_spec() - prev.total_spec()
        } else {
            0
        },
{
    let total_delta = cur.total().saturating_sub(prev.total());
    let busy_delta = cur.busy().saturating_sub(prev.busy());
    (busy_delta, total_delta)
}

/// A per-CPU line: `cpu` followed directly by an ASCII digit.
pub open spec fn is_cpu_line(line: Seq<char>) -> bool {
    starts_with(line, "cpu"@) && line.len() > 3 && is_digit(line[3])
}

/// Number of per-CPU lines among `ls`.
pub open spec fn cpu_line_count(ls: Seq<Seq<char>>) -> nat
    decreases ls.len(),
{
    if ls.len() == 0 {
        0
    } else {
        cpu_line_count(ls.drop_last()) + if is_cpu_line(ls.last()) {
            1nat
        } else {
            0nat
        }
    }
}

proof fn lemma_cpu_line_count_bounded(ls: Seq<Seq<char>>)
    ensures
        cpu_line_count(ls) <= ls.len(),
    decreases ls.len(),
{
    if ls.len() > 0 {
        lemma_cpu_line_count_bounded(ls.drop_last());
    }
}

/// Number of logical CPUs in `/proc/stat` text, counted from the `cpuN`
/// lines (the aggregate `cpu` line is not one); 0 for malformed text.
pub fn count_cpu_lines(text: &str) -> (r: u64)
    ensures
        r == cpu_line_count(lines(text@)),
{
    let v = chars_of(text);
    let ls = lines_chars(&v);
    let ghost all = lines(text@);
    let cpu = vec!['c', 'p', 'u'];
    proof {
        reveal_strlit("cpu");
        assert(cpu@ =~= "cpu"@);
    }
    let mut count: u64 = 0;
    let mut k: usize = 0;
    while k < ls.len()
        invariant
            k <= ls.len(),
            ls.len() == all.len(),
            cpu@ == "cpu"@,
            forall|j: int| 0 <= j < ls.len() ==> (#[trigger] ls[j])@ == all[j],
            count == cpu_line_count(all.subrange(0, k as int)),
            count <= k,
        decreases ls.len() - k,
    {
        let ghost after = all.subrange(0, k + 1);
        assert(after.drop_last() =~= all.subrange(0, k as int));
        assert(after.last() == ls[k as int]@);
        let line = &ls[k];
        if starts_with_chars(line, &cpu) && line.len() > 3 && digit(line[3]) {
            count = count + 1;
        }
        k = k + 1;
        assert(all.subrange(0, k as int) == after);
    }
    assert(all.subrange(0, ls.len() as int) =~= all);
    count
}

/// The logical CPU count of the host from the text of `/proc/stat`: the
/// per-CPU line count, at least 1 (also when the text could not be read).
pub fn cpu_count_from_stat(text: Option<&str>) -> (r: u64)
    ensures
        match text {
            Some(t) => r == if cpu_line_count(lines(t@)) >= 1 {
                cpu_line_count(lines(t@))
            } else {
                1
            },
            None => r == 1,
        },
{
    let n = match text {
        Some(t) => count_cpu_lines(t),
        None => 0,
    };
    if n >= 1 {
        n
    } else {
        1
    }
}

/// Total and available memory in kB.
#[derive(Debug, Clone, Copy, PartialEq, Eq, Structural)]
pub struct MemInfo {
    pub total_kb: u64,
    pub available_kb: u64,
}

/// What one `/proc/meminfo` line says: its key with trailing `:`s dropped
/// and its value, when it has at least two words and the second is a `u64`.
pub open spec fn meminfo_entry(line: Seq<char>) -> Option<(Seq<char>, nat)> {
    let w = words(line);
    if w.len() >= 2 && parse_unsigned_opt(w[1], u64::MAX as nat) is Some {
        Some((trim_end_char(w[0], ':'), parse_unsigned_opt(w[1], u64::MAX as nat).unwrap()))
    } else {
        None
    }
}

/// The last value given to `key` among `ls`.
pub open spec fn meminfo_last(ls: Seq<Seq<char>>, key: Seq<char>) -> Option<nat>
    decreases ls.len(),
{
    if ls.len() == 0 {
        None
    } else {
        match meminfo_entry(ls.last()) {
            Some(e) => if e.0 == key {
                Some(e.1)
            } else {
                meminfo_last(ls.drop_last(), key)
            },
            None => meminfo_last(ls.drop_last(), key),
        }
    }
}

/// `MemTotal` and `MemAvailable` of `/proc/meminfo` text (the last line of
/// each wins); `None` unless both are present.
pub open spec fn meminfo_spec(text: Seq<char>) -> Option<MemInfo> {
    let ls = lines(text);
    match (meminfo_last(ls, "MemTotal"@), meminfo_last(ls, "MemAvailable"@)) {
        (Some(t), Some(a)) => Some(MemInfo { total_kb: t as u64, available_kb: a as u64 }),
        _ => None,
    }
}

fn meminfo_entry_chars(line: &Vec<char>) -> (r: Option<(Vec<char>, u64)>)
    ensures
        match r {
            Some(e) => meminfo_entry(line@) == Some((e.0@, e.1 as nat)),
            None => meminfo_entry(line@) is None,
        },
{
    let w = words_chars(line);
    if w.len() < 2 {
        return None;
    }
    match parse_u64_chars(&w[1]) {
        None => None,
        Some(val) => Some((trim_end_char_chars(&w[0], ':'), val)),
    }
}

/// Parse `MemTotal` / `MemAvailable` from `/proc/meminfo` text.
pub fn parse_meminfo(text: &str) -> (r: Option<MemInfo>)
    ensures
        r == meminfo_spec(text@),
{
    let v = chars_of(text);
    let ls = lines_chars(&v);
    let ghost all = lines(text@);
    let total_key = vec!['M', 'e', 'm', 'T', 'o', 't', 'a', 'l'];
    let avail_key = vec!['M', 'e', 'm', 'A', 'v', 'a', 'i', 'l', 'a', 'b', 'l', 'e'];
    proof {
        reveal_strlit("MemTotal");
        reveal_strlit("MemAvailable");
        assert(total_key@ =~= "MemTotal"@);
        assert(avail_key@ =~= "MemAvailable"@);
        assert("MemTotal"@.len() != "MemAvailable"@.len());
    }
    let mut total_kb: Option<u64> = None;
    let mut available_kb: Option<u64> = None;
    let mut k: usize = 0;
    while k < ls.len()
        invariant
            k <= ls.len(),
            ls.len() == all.len(),
            total_key@ == "MemTotal"@,
            avail_key@ == "MemAvailable"@,
            "MemTotal"@ != "MemAvailable"@,
            forall|j: int| 0 <= j < ls.len() ==> (#[trigger] ls[j])@ == all[j],
            match total_kb {
                Some(t) => meminfo_last(all.subrange(0, k as int), "MemTotal"@) == Some(t as nat),
                None => meminfo_last(all.subrange(0, k as int), "MemTotal"@) is None,
            },
            match available_kb {
                Some(a) => meminfo_last(all.subrange(0, k as int), "MemAvailable"@) == Some(
                    a as nat,
                ),
                None => meminfo_last(all.subrange(0, k as int), "MemAvailable"@) is None,
            },
        decreases ls.len() - k,
    {
        let ghost after = all.subrange(0, k + 1);
        assert(after.drop_last() =~= all.subrange(0, k as int));
        assert(after.last() == ls[k as int]@);
        match meminfo_entry_chars(&ls[k]) {
            None => {},
            Some(e) => {
                if chars_eq(&e.0, &total_key) {
                    total_kb = Some(e.1);
                } else if chars_eq(&e.0, &avail_key) {
                    available_kb = Some(e.1);
                }
            },
        }
        k = k + 1;
        assert(all.subrange(0, k as int) == after);
    }
    assert(all.subrange(0, ls.len() as int) =~= all);
    match (total_kb, available_kb) {
        (Some(t), Some(a)) => Some(MemInfo { total_kb: t, available_kb: a }),
        _ => None,
    }
}

/// Used and total bytes of a filesystem.
#[derive(Debug, Clone, Copy, PartialEq, Eq, Structural)]
pub struct DiskUsage {
    pub used_bytes: u64,
    pub total_bytes: u64,
}

/// `a * b`, or `u64::MAX` where the product does not fit.
pub open spec fn sat_mul(a: u64, b: u64) -> u64 {
    if a * b > u64::MAX {
        u64::MAX
    } else {
        (a * b) as u64
    }
}

fn saturating_mul(a: u64, b: u64) -> (r: u64)
    ensures
        r == sat_mul(a, b),
{
    match a.checked_mul(b) {
        Some(p) => p,
        None => u64::MAX,
    }
}

/// Used / total bytes from `statfs` block counts, each product saturating at
/// `u64::MAX` and the difference at zero.
pub fn disk_usage_from_counts(total_blocks: u64, free_blocks: u64, block_bytes: u64) -> (r:
    DiskUsage)
    ensures
        r.total_bytes == sat_mul(total_blocks, block_bytes),
        r.used_bytes == if sat_mul(total_blocks, block_bytes) >= sat_mul(free_blocks, block_bytes) {
            sat_mul(total_blocks, block_bytes) - sat_mul(free_blocks, block_bytes)
        } else {
            0
        },
{
    let total_bytes = saturating_mul(total_blocks, block_bytes);
    let free_bytes = saturating_mul(free_blocks, block_bytes);
    DiskUsage { used_bytes: total_bytes.saturating_sub(free_bytes), total_bytes }
}

/// Busy ticks are every tick that is not idle: user, nice, system, iowait,
/// irq, softirq and steal all count as busy, and busy plus idle is the sum
/// of all eight counters.
pub proof fn law_busy_is_every_non_idle_tick(c: CpuCounters)
    ensures
        c.busy_spec() + c.idle == c.user + c.nice + c.system + c.idle + c.iowait + c.irq + c.softirq
            + c.steal,
        c.total_spec() == c.user + c.nice + c.system + c.idle + c.iowait + c.irq + c.softirq + c.steal,
        c.busy_spec() == c.total_spec() - c.idle,
{
}

/// Between two reads, time spent in any non-idle counter (kernel time
/// included) advances the busy ticks by exactly as much as the total, and
/// idle time advances only the total.
pub proof fn law_busy_delta_counts_every_non_idle_tick(prev: CpuCounters, cur: CpuCounters)
    requires
        cur.user >= prev.user,
        cur.nice >= prev.nice,
        cur.system >= prev.system,
        cur.idle >= prev.idle,
        cur.iowait >= prev.iowait,
        cur.irq >= prev.irq,
        cur.softirq >= prev.softirq,
        cur.steal >= prev.steal,
    ensures
        cur.busy_spec() - prev.busy_spec() == (cur.user - prev.user) + (cur.nice - prev.nice) + (
        cur.system - prev.system) + (cur.iowait - prev.iowait) + (cur.irq - prev.irq) + (cur.softirq
            - prev.softirq) + (cur.steal - prev.steal),
        cur.total_spec() - prev.total_spec() == cur.busy_spec() - prev.busy_spec() + (cur.idle
            - prev.idle),
{
}

} // verus!
