//! Host-port allocation over a half-open pool `[start, end)`: the lowest free
//! port, a circular scan from an offset, probe-guarded allocation, a
//! deterministic per-token spread, and the in-process reservation registry.

use std::collections::BTreeSet;
use vstd::std_specs::btree::{increasing_seq, spec_btree_keys_iter};
use vstd::prelude::*;
use vstd::std_specs::cmp::OrdSpec;
use vstd::std_specs::iter::IteratorSpec;
use vstd::string::StringSliceAdditionalSpecFns;


use crate::text::{chars_of, contains, contains_chars};

verus! {

broadcast use vstd::laws_cmp::group_laws_cmp, vstd::std_specs::btree::group_btree_axioms;


/// Every port of `[lo, hi)` is in `used`.
pub open spec fn all_used(used: Set<u16>, lo: int, hi: int) -> bool {
    forall|p: u16| lo <= p < hi ==> #[trigger] used.contains(p)
}

/// Lowest unused port in `[start, end)`; `None` when the pool is exhausted or
/// the range is empty.
pub fn lowest_free_port(used: &BTreeSet<u16>, start: u16, end: u16) -> (r: Option<u16>)
    ensures
        match r {
            Some(p) => start <= p < end && !used@.contains(p) && all_used(used@, start as int, p as int),
            None => all_used(used@, start as int, end as int),
        },
{
    let mut p = start;
    while p < end
        invariant
            start <= p,
            all_used(used@, start as int, p as int),
        decreases end - p,
    {
        if !used.contains(&p) {
            return Some(p);
        }
        p = p + 1;
    }
    None
}

/// The `i`-th port of the circular scan of `[start, start + width)` that
/// begins at `from`'s position.
pub open spec fn circular(start: int, width: int, from: int, i: int) -> int {
    start + ((from - start) % width + i) % width
}

pub proof fn lemma_circular_in_range(start: int, width: int, from: int, i: int)
    requires
        width > 0,
        from >= start,
        i >= 0,
    ensures
        start <= circular(start, width, from, i) < start + width,
{
}

pub proof fn lemma_circular_covers(start: int, width: int, from: int, p: int)
    requires
        width > 0,
        from >= start,
        start <= p < start + width,
    ensures
        ({
            let k = ((p - start) - (from - start) % width + width) % width;
            0 <= k < width && circular(start, width, from, k) == p
        }),
{
    let n = (from - start) % width;
    let q = p - start;
    let k = (q - n + width) % width;
    assert(0 <= n < width);
    assert(0 <= q < width);
    assert(0 <= k < width);
    if q >= n {
        assert(k == q - n) by {
            vstd::arithmetic::div_mod::lemma_mod_sub_multiples_vanish(q - n + width, width);
            vstd::arithmetic::div_mod::lemma_small_mod((q - n) as nat, width as nat);
        }
        assert(n + k == q);
        vstd::arithmetic::div_mod::lemma_small_mod(q as nat, width as nat);
    } else {
        assert(k == q - n + width) by {
            vstd::arithmetic::div_mod::lemma_small_mod((q - n + width) as nat, width as nat);
        }
        assert(n + k == q + width);
        vstd::arithmetic::div_mod::lemma_mod_sub_multiples_vanish(q + width, width);
        vstd::arithmetic::div_mod::lemma_small_mod(q as nat, width as nat);
    }
}

/// The first ports of the circular scan are all in `used`.
pub open spec fn scan_prefix_used(used: Set<u16>, start: int, width: int, from: int, n: int) -> bool {
    forall|j: int| 0 <= j < n ==> #[trigger] used.contains(circular(start, width, from, j) as u16)
}

/// Each of the first `n` ports of the circular scan is in `used` or was
/// reported listening by `in_use`.
pub open spec fn scan_prefix_refused<F: Fn(u16) -> bool>(
    used: Set<u16>,
    start: int,
    width: int,
    from: int,
    n: int,
    in_use: F,
) -> bool {
    forall|j: int|
        0 <= j < n ==> #[trigger] used.contains(circular(start, width, from, j) as u16) || call_ensures(
            in_use,
            (circular(start, width, from, j) as u16,),
            true,
        )
}

/// Lowest unused port in `[start, end)` scanning circularly from `from`
/// (wrapping back to `start`). `None` when every port is used or the range
/// is empty.
pub fn lowest_free_port_from(used: &BTreeSet<u16>, start: u16, end: u16, from: u16) -> (r: Option<
    u16,
>)
    requires
        start < end ==> from >= start,
    ensures
        match r {
            Some(p) => start <= p < end && !used@.contains(p) && exists|i: int|
                0 <= i < end - start && #[trigger] circular(start as int, end - start, from as int, i) == p
                    && scan_prefix_used(used@, start as int, end - start, from as int, i),
            None => all_used(used@, start as int, end as int),
        },
{
    if start >= end {
        return None;
    }
    let width: u32 = end as u32 - start as u32;
    let offset: u32 = (from as u32 - start as u32) % width;
    let mut i: u32 = 0;
    while i < width
        invariant
            start < end,
            from >= start,
            width == end - start,
            offset == (from - start) % (width as int),
            i <= width,
            scan_prefix_used(used@, start as int, width as int, from as int, i as int),
        decreases width - i,
    {
        proof {
            lemma_circular_in_range(start as int, width as int, from as int, i as int);
        }
        let candidate: u16 = (start as u32 + (offset + i) % width) as u16;
        assert(candidate == circular(start as int, width as int, from as int, i as int));
        if !used.contains(&candidate) {
            return Some(candidate);
        }
        i = i + 1;
    }
    assert forall|p: u16| start <= p < end implies #[trigger] used@.contains(p) by {
        lemma_circular_covers(start as int, width as int, from as int, p as int);
        let k = ((p - start) - (from - start) % (width as int) + width) % (width as int);
        assert(used@.contains(circular(start as int, width as int, from as int, k) as u16));
    }
    None
}

/// Number of ports of `[lo, lo + k)` that are not in `busy`.
pub open spec fn free_count(busy: Set<u16>, lo: int, k: nat) -> nat
    decreases k,
{
    if k == 0 {
        0
    } else {
        free_count(busy, lo, (k - 1) as nat) + if busy.contains((lo + k - 1) as u16) {
            0nat
        } else {
            1nat
        }
    }
}

proof fn lemma_free_count_insert(busy: Set<u16>, lo: int, k: nat, c: u16)
    requires
        0 <= lo,
        lo + k <= 0x10000,
        lo <= c < lo + k,
        !busy.contains(c),
    ensures
        free_count(busy.insert(c), lo, k) + 1 == free_count(busy, lo, k),
    decreases k,
{
    if c < lo + k - 1 {
        lemma_free_count_insert(busy, lo, (k - 1) as nat, c);
        assert(busy.insert(c).contains((lo + k - 1) as u16) == busy.contains(
            (lo + k - 1) as u16,
        ));
    } else {
        lemma_free_count_unchanged(busy, lo, (k - 1) as nat, c);
    }
}

proof fn lemma_free_count_unchanged(busy: Set<u16>, lo: int, k: nat, c: u16)
    requires
        0 <= lo,
        lo + k <= 0x10000,
        c >= lo + k,
    ensures
        free_count(busy.insert(c), lo, k) == free_count(busy, lo, k),
    decreases k,
{
    if k > 0 {
        lemma_free_count_unchanged(busy, lo, (k - 1) as nat, c);
        assert(busy.insert(c).contains((lo + k - 1) as u16) == busy.contains(
            (lo + k - 1) as u16,
        ));
    }
}

/// Allocate a host port: scan circularly from `from` for a port of
/// `[start, end)` that is neither in `used` nor reported listening by
/// `in_use`; a port the probe reports busy is skipped and the scan resumes.
/// `None` when every port is used or busy.
pub fn allocate_host_port_from<F: Fn(u16) -> bool>(
    used: &BTreeSet<u16>,
    start: u16,
    end: u16,
    in_use: &F,
    from: u16,
) -> (r: Option<u16>)
    requires
        start < end ==> from >= start,
        forall|p: u16| call_requires(*in_use, (p,)),
    ensures
        match r {
            Some(p) => start <= p < end && !used@.contains(p) && call_ensures(
                *in_use,
                (p,),
                false,
            ) && exists|i: int|
                0 <= i < end - start && #[trigger] circular(start as int, end - start, from as int, i) == p
                    && scan_prefix_refused(used@, start as int, end - start, from as int, i, *in_use),
            None => forall|p: u16|
                start <= p < end ==> used@.contains(p) || call_ensures(*in_use, (p,), true),
        },
{
    let mut busy = used.clone();
    let ghost width: nat = if start < end {
        (end - start) as nat
    } else {
        0
    };
    loop
        invariant
            start < end ==> from >= start,
            forall|p: u16| call_requires(*in_use, (p,)),
            width == if start < end {
                (end - start) as nat
            } else {
                0nat
            },
            forall|p: u16| #[trigger] used@.contains(p) ==> busy@.contains(p),
            forall|p: u16|
                #[trigger] busy@.contains(p) ==> used@.contains(p) || call_ensures(
                    *in_use,
                    (p,),
                    true,
                ),
        decreases free_count(busy@, start as int, width),
    {
        match lowest_free_port_from(&busy, start, end, from) {
            None => {
                assert forall|p: u16| start <= p < end implies used@.contains(p) || call_ensures(
                    *in_use,
                    (p,),
                    true,
                ) by {
                    assert(busy@.contains(p));
                }
                return None;
            },
            Some(candidate) => {
                let listening = in_use(candidate);
                if listening {
                    proof {
                        lemma_free_count_insert(busy@, start as int, width, candidate);
                    }
                    busy.insert(candidate);
                } else {
                    proof {
                        if used@.contains(candidate) {
                            assert(busy@.contains(candidate));
                        }
                        let i = choose|i: int|
                            0 <= i < end - start && #[trigger] circular(start as int, end - start, from as int, i)
                                == candidate && scan_prefix_used(busy@, start as int, end - start, from as int, i);
                        assert forall|j: int| 0 <= j < i implies #[trigger] used@.contains(
                            circular(start as int, end - start, from as int, j) as u16,
                        ) || call_ensures(
                            *in_use,
                            (circular(start as int, end - start, from as int, j) as u16,),
                            true,
                        ) by {
                            assert(busy@.contains(circular(start as int, end - start, from as int, j) as u16));
                        }
                        assert(scan_prefix_refused(used@, start as int, end - start, from as int, i, *in_use));
                    }
                    return Some(candidate);
                }
            },
        }
    }
}

/// Allocate the lowest port of `[start, end)` that is neither in `used` nor
/// reported listening by `in_use`.
pub fn allocate_host_port<F: Fn(u16) -> bool>(
    used: &BTreeSet<u16>,
    start: u16,
    end: u16,
    in_use: &F,
) -> (r: Option<u16>)
    requires
        forall|p: u16| call_requires(*in_use, (p,)),
    ensures
        match r {
            Some(p) => start <= p < end && !used@.contains(p) && call_ensures(
                *in_use,
                (p,),
                false,
            ),
            None => forall|p: u16|
                start <= p < end ==> used@.contains(p) || call_ensures(*in_use, (p,), true),
        },
        match r {
            Some(p) => forall|q: u16| start <= q < p ==> used@.contains(q) || call_ensures(*in_use, (q,), true),
            None => true,
        },
{
    let r = allocate_host_port_from(used, start, end, in_use, start);
    proof {
        if let Some(p) = r {
            let w = end - start;
            let i = choose|i: int|
                0 <= i < w && #[trigger] circular(start as int, w, start as int, i) == p
                    && scan_prefix_refused(used@, start as int, w, start as int, i, *in_use);
            assert forall|j: int| 0 <= j < w implies #[trigger] circular(start as int, w, start as int, j)
                == start + j by {
                vstd::arithmetic::div_mod::lemma_small_mod(0nat, w as nat);
                vstd::arithmetic::div_mod::lemma_small_mod(j as nat, w as nat);
            }
            assert forall|q: u16| start <= q < p implies used@.contains(q) || call_ensures(
                *in_use,
                (q,),
                true,
            ) by {
                let j = q - start;
                assert(circular(start as int, w, start as int, j) == q);
                assert(circular(start as int, w, start as int, j) as u16 == q);
            }
        }
    }
    r
}

/// FNV-1a (32-bit) over a byte string.
pub open spec fn fnv1a32(bytes: Seq<u8>) -> u32
    decreases bytes.len(),
{
    if bytes.len() == 0 {
        0x811c_9dc5
    } else {
        let h = fnv1a32(bytes.drop_last());
        (((h ^ (bytes.last() as u32)) as nat * 0x0100_0193nat) % 0x1_0000_0000nat) as u32
    }
}

/// FNV-1a (32-bit) of a byte slice.
pub fn fnv1a32_bytes(bytes: &[u8]) -> (h: u32)
    ensures
        h == fnv1a32(bytes@),
{
    let mut hash: u32 = 0x811c_9dc5;
    let mut i: usize = 0;
    while i < bytes.len()
        invariant
            i <= bytes.len(),
            hash == fnv1a32(bytes@.subrange(0, i as int)),
        decreases bytes.len() - i,
    {
        let ghost pre = bytes@.subrange(0, i + 1);
        assert(pre.drop_last() =~= bytes@.subrange(0, i as int));
        hash = hash ^ (bytes[i] as u32);
        hash = hash.wrapping_mul(0x0100_0193);
        i = i + 1;
        assert(bytes@.subrange(0, i as int) == pre);
    }
    assert(bytes@.subrange(0, bytes.len() as int) =~= bytes@);
    hash
}

/// Deterministic per-instance spread across a pool of `width` ports: FNV-1a
/// of the token's UTF-8 bytes modulo `width` (`0` for an empty pool).
pub fn spread_offset(token: &str, width: u16) -> (r: u16)
    ensures
        width == 0 ==> r == 0,
        width > 0 ==> r == fnv1a32(token.spec_bytes()) % (width as u32) && r < width,
{
    if width == 0 {
        return 0;
    }
    let hash = fnv1a32_bytes(token.as_bytes());
    (hash % width as u32) as u16
}

/// Whether a container-create error is Docker's "port is already allocated"
/// bind failure.
pub fn is_port_conflict(err: &str) -> (r: bool)
    ensures
        r == contains(err@, "port is already allocated"@),
{
    let e = chars_of(err);
    let needle = chars_of("port is already allocated");
    contains_chars(&e, &needle)
}

/// The in-process registry of host ports handed out but not yet released:
/// a set of ports, listed in increasing order.
#[derive(Debug)]
pub struct PortPool {
    reserved: BTreeSet<u16>,
}

pub open spec fn strictly_increasing(s: Seq<u16>) -> bool {
    forall|i: int, j: int| 0 <= i < j < s.len() ==> s[i] < s[j]
}

impl View for PortPool {
    type V = Set<u16>;

    closed spec fn view(&self) -> Set<u16> {
        self.reserved@
    }
}

impl Default for PortPool {
    fn default() -> (pool: PortPool)
        ensures
            pool@ == Set::<u16>::empty(),
    {
        PortPool::new()
    }
}

impl PortPool {
    pub fn new() -> (pool: PortPool)
        ensures
            pool@ == Set::<u16>::empty(),
    {
        PortPool { reserved: BTreeSet::new() }
    }

    pub fn reserve(&mut self, port: u16)
        ensures
            final(self)@ == old(self)@.insert(port),
    {
        self.reserved.insert(port);
    }

    pub fn release(&mut self, port: u16)
        ensures
            final(self)@ == old(self)@.remove(port),
    {
        self.reserved.remove(&port);
    }

    /// The reserved ports in increasing order, each once.
    pub fn reserved(&self) -> (ports: Vec<u16>)
        ensures
            ports@.to_set() == self@,
            strictly_increasing(ports@),
    {
        let mut v: Vec<u16> = Vec::new();
        let ghost all = self.reserved.iter().remaining();
        for p in it: self.reserved.iter()
            invariant
                it.seq() == all,
                v@ == all.take(it.index()).unref(),
        {
            v.push(*p);
            assert(v@ =~= all.take(it.index() + 1).unref());
        }
        assert(v@ =~= all.unref());
        proof {
            assert(all == spec_btree_keys_iter(&self.reserved).remaining());
            assert(increasing_seq(all));
            lemma_increasing_ports(all);
        }
        v
    }
}

/// Ports listed in the order of the set's iterator are strictly increasing.
proof fn lemma_increasing_ports(all: Seq<&u16>)
    requires
        increasing_seq(all),
    ensures
        strictly_increasing(all.unref()),
{
    broadcast use vstd::laws_cmp::lemma_ref_obeys_cmp_spec;
    assert(vstd::laws_cmp::obeys_cmp::<u16>());
    assert(vstd::laws_cmp::obeys_cmp::<&u16>());
    vstd::std_specs::btree::axiom_increasing_seq_meaning(all);
    assert forall|i: int, j: int| 0 <= i < j < all.unref().len() implies all.unref()[i] < all.unref()[j] by {
        assert(OrdSpec::cmp_spec(&all[i], &all[j]) is Less);
    }
}

/// Over the registry's view: releasing a port undoes reserving it when the
/// port was free, reserving it again changes nothing, and after a release
/// the port is free whatever came before.
pub proof fn law_release_undoes_reserve(pool: Set<u16>, port: u16)
    ensures
        !pool.contains(port) ==> pool.insert(port).remove(port) == pool,
        pool.insert(port).insert(port) == pool.insert(port),
        !pool.remove(port).contains(port),
{
    if !pool.contains(port) {
        assert(pool.insert(port).remove(port) =~= pool);
    }
    assert(pool.insert(port).insert(port) =~= pool.insert(port));
}

} // verus!
