//! The monitor dashboard's two-tier in-memory series store. A fine tier keeps
//! the latest samples; every full window of samples is folded by the
//! caller's aggregator into one entry of a coarse tier. What a sample or an
//! aggregate holds is the caller's: the store only keeps, evicts and folds.

use std::collections::{HashMap, VecDeque};
use vstd::prelude::*;
use vstd::std_specs::hash::spec_hash_map_iter;
use vstd::std_specs::iter::IteratorSpec;

verus! {

broadcast use vstd::std_specs::hash::group_hash_axioms;

/// Fine-grained series capacity: 240 samples at 15 s = 1 hour.
pub const TIER1_CAPACITY: usize = 240;

/// Aggregated series capacity: 288 five-minute aggregates = 24 hours.
pub const TIER2_CAPACITY: usize = 288;

/// Samples folded into one aggregate: 20 x 15 s = 5 minutes.
pub const WINDOW_SAMPLES: usize = 20;

/// The span a snapshot's series covers.
#[derive(Debug, Clone, Copy, PartialEq, Eq, Hash, Structural)]
pub enum Range {
    /// The fine-grained series (15 s), 1 hour.
    Hour,
    /// The aggregated series (5 min), 24 hours.
    Day,
}

/// The last `n` items of `s`, or all of `s` when it is shorter.
pub open spec fn last_n<T>(s: Seq<T>, n: nat) -> Seq<T> {
    if s.len() <= n {
        s
    } else {
        s.subrange(s.len() - n, s.len() as int)
    }
}

/// The samples of `h` after its last full window: the window being filled.
pub open spec fn pending_of<S>(h: Seq<S>) -> Seq<S> {
    h.subrange(h.len() - h.len() % (WINDOW_SAMPLES as nat), h.len() as int)
}

/// How many aggregates a history of `n` samples leaves in the coarse tier.
pub open spec fn day_len(n: nat) -> nat {
    let full = n / (WINDOW_SAMPLES as nat);
    if full <= TIER2_CAPACITY as nat { full } else { TIER2_CAPACITY as nat }
}

/// `a` is what `agg` returned for a window holding exactly `window`.
pub open spec fn aggregated_by<S, A, F: Fn(Vec<S>) -> A>(agg: F, window: Seq<S>, a: A) -> bool {
    exists|w: Vec<S>| #[trigger] w@ == window && agg.ensures((w,), a)
}

/// `agg` may be called on every full window.
pub open spec fn folds_windows<S, A, F: Fn(Vec<S>) -> A>(agg: F) -> bool {
    forall|w: Vec<S>| w@.len() == WINDOW_SAMPLES ==> #[trigger] agg.requires((w,))
}

/// The series of one entity (the host, or one instance).
pub struct EntityMetrics<S, A> {
    tier1: VecDeque<S>,
    tier2: VecDeque<A>,
    window: VecDeque<S>,
    history: Ghost<Seq<S>>,
}

impl<S: Copy, A: Copy> EntityMetrics<S, A> {
    /// Every sample recorded so far, oldest first.
    pub closed spec fn recorded(&self) -> Seq<S> {
        self.history@
    }

    /// The fine-grained series, oldest first.
    pub closed spec fn hour_series(&self) -> Seq<S> {
        self.tier1@
    }

    /// The aggregated series, oldest first.
    pub closed spec fn day_series(&self) -> Seq<A> {
        self.tier2@
    }

    /// The samples of the window being filled.
    pub closed spec fn pending(&self) -> Seq<S> {
        self.window@
    }

    /// The tiers agree with the history: the fine tier is its last
    /// `TIER1_CAPACITY` samples, the window its samples after the last full
    /// window, and the coarse tier holds one aggregate per full window, at
    /// most `TIER2_CAPACITY` of them.
    pub closed spec fn wf(&self) -> bool {
        &&& self.tier1@ == last_n(self.history@, TIER1_CAPACITY as nat)
        &&& self.window@ == pending_of(self.history@)
        &&& self.tier2@.len() == day_len(self.history@.len())
    }

    /// `after` is `before` with `sample` recorded through `agg`: the sample
    /// joins the history and, when it completes a window, the window's
    /// aggregate joins the coarse tier, whose oldest entry leaves once it is
    /// full.
    pub open spec fn records<F: Fn(Vec<S>) -> A>(before: &Self, after: &Self, sample: S, agg: F) -> bool {
        let h = before.recorded().push(sample);
        &&& after.recorded() == h
        &&& if h.len() % (WINDOW_SAMPLES as nat) == 0 {
            exists|a: A|
                #![trigger aggregated_by(agg, h.subrange(h.len() - WINDOW_SAMPLES, h.len() as int), a)]
                aggregated_by(agg, h.subrange(h.len() - WINDOW_SAMPLES, h.len() as int), a)
                    && after.day_series() == last_n(before.day_series().push(a), TIER2_CAPACITY as nat)
        } else {
            after.day_series() == before.day_series()
        }
    }

    /// An entity with no samples.
    pub fn new() -> (m: Self)
        ensures
            m.wf(),
            m.recorded() == Seq::<S>::empty(),
            m.day_series() == Seq::<A>::empty(),
    {
        let m = EntityMetrics {
            tier1: VecDeque::new(),
            tier2: VecDeque::new(),
            window: VecDeque::new(),
            history: Ghost(Seq::empty()),
        };
        assert(m.window@ =~= pending_of(m.history@));
        m
    }

    /// Record one sample: it joins the fine tier (evicting the oldest at
    /// capacity) and the window; a window that fills up is folded by `agg`
    /// into the coarse tier (evicting the oldest aggregate at capacity) and
    /// starts over.
    pub fn record<F: Fn(Vec<S>) -> A>(&mut self, sample: S, agg: &F)
        requires
            old(self).wf(),
            folds_windows(*agg),
        ensures
            final(self).wf(),
            Self::records(old(self), final(self), sample, *agg),
    {
        let ghost h0 = self.history@;
        let ghost h = h0.push(sample);
        let ghost d0 = self.tier2@;
        if self.tier1.len() == TIER1_CAPACITY {
            self.tier1.pop_front();
        }
        self.tier1.push_back(sample);
        assert(self.tier1@ == last_n(h, TIER1_CAPACITY as nat));
        if self.window.len() == WINDOW_SAMPLES {
            self.window.pop_front();
        }
        self.window.push_back(sample);
        self.history = Ghost(h);
        proof {
            let w = WINDOW_SAMPLES as int;
            let n0 = h0.len() as int;
            let n = h.len() as int;
            assert(n == n0 + 1);
            if n0 % w + 1 == w {
                assert(n % w == 0 && n / w == n0 / w + 1) by (nonlinear_arith)
                    requires n0 % w + 1 == w, n == n0 + 1, w == 20, n0 >= 0;
            } else {
                assert(n % w == n0 % w + 1 && n / w == n0 / w) by (nonlinear_arith)
                    requires n0 % w + 1 != w, n == n0 + 1, w == 20, n0 >= 0;
            }
        }
        if self.window.len() == WINDOW_SAMPLES {
            let full: Vec<S> = copy_deque(&self.window);
            self.window.clear();
            let ghost fg = full;
            assert(full@ == h.subrange(h.len() - WINDOW_SAMPLES, h.len() as int));
            if self.tier2.len() == TIER2_CAPACITY {
                self.tier2.pop_front();
            }
            let a = agg(full);
            self.tier2.push_back(a);
            proof {
                assert(aggregated_by(*agg, fg@, a));
                assert(self.tier2@ == last_n(d0.push(a), TIER2_CAPACITY as nat));
                assert(self.window@ =~= pending_of(h));
            }
        } else {
            assert(self.window@ == pending_of(h));
        }
    }

    /// The latest sample, if any.
    pub fn latest(&self) -> (r: Option<S>)
        requires
            self.wf(),
        ensures
            r == latest_of(self.recorded()),
    {
        if self.tier1.len() == 0 {
            None
        } else {
            Some(self.tier1[self.tier1.len() - 1])
        }
    }

    /// The fine-grained series, oldest first.
    pub fn hour(&self) -> (r: Vec<S>)
        ensures
            r@ == self.hour_series(),
    {
        copy_deque(&self.tier1)
    }

    /// The aggregated series, oldest first.
    pub fn day(&self) -> (r: Vec<A>)
        ensures
            r@ == self.day_series(),
    {
        copy_deque(&self.tier2)
    }
}

/// The last item of `h`, if any.
pub open spec fn latest_of<S>(h: Seq<S>) -> Option<S> {
    if h.len() == 0 {
        None
    } else {
        Some(h.last())
    }
}

/// The items of `d` in a `Vec`, front first.
pub fn copy_deque<T: Copy>(d: &VecDeque<T>) -> (r: Vec<T>)
    ensures
        r@ == d@,
{
    let mut r: Vec<T> = Vec::new();
    let mut i: usize = 0;
    while i < d.len()
        invariant
            i <= d@.len(),
            r@ == d@.subrange(0, i as int),
        decreases d@.len() - i,
    {
        r.push(d[i]);
        i = i + 1;
        assert(r@ =~= d@.subrange(0, i as int));
    }
    assert(r@ =~= d@);
    r
}

/// The tiers of a well-formed entity follow its history: the fine series
/// is its latest `TIER1_CAPACITY` samples, the window holds fewer than
/// `WINDOW_SAMPLES` samples (those after the last full window), and the
/// coarse series holds one aggregate per full window, at most
/// `TIER2_CAPACITY`.
pub proof fn law_tiers_follow_history<S: Copy, A: Copy>(m: &EntityMetrics<S, A>)
    requires
        m.wf(),
    ensures
        m.hour_series() == last_n(m.recorded(), TIER1_CAPACITY as nat),
        m.hour_series().len() <= TIER1_CAPACITY,
        m.pending() == pending_of(m.recorded()),
        m.pending().len() < WINDOW_SAMPLES,
        m.day_series().len() == day_len(m.recorded().len()),
        m.day_series().len() <= TIER2_CAPACITY,
{
}

/// The series a snapshot carries: the fine samples or the aggregates.
pub enum Series<S, A> {
    Hour(Vec<S>),
    Day(Vec<A>),
}

/// What a snapshot reports of one entity: its latest sample and the series
/// of the requested range.
pub struct EntitySnapshot<S, A> {
    pub latest: Option<S>,
    pub series: Series<S, A>,
}

/// `snap` reports `m` over `range`.
pub open spec fn describes<S: Copy, A: Copy>(snap: EntitySnapshot<S, A>, m: EntityMetrics<S, A>, range: Range) -> bool {
    &&& snap.latest == latest_of(m.recorded())
    &&& match (range, snap.series) {
        (Range::Hour, Series::Hour(v)) => v@ == m.hour_series(),
        (Range::Day, Series::Day(v)) => v@ == m.day_series(),
        _ => false,
    }
}

impl<S: Copy, A: Copy> EntitySnapshot<S, A> {
    /// The latest sample of `m` and its series over `range`.
    pub fn from_metrics(m: &EntityMetrics<S, A>, range: Range) -> (r: Self)
        requires
            m.wf(),
        ensures
            describes(r, *m, range),
    {
        let series = match range {
            Range::Hour => Series::Hour(m.hour()),
            Range::Day => Series::Day(m.day()),
        };
        EntitySnapshot { latest: m.latest(), series }
    }
}

/// A snapshot of the host and of every tracked instance, each instance
/// once, in the order the store's map is walked.
pub struct Snapshot<S, A> {
    pub host: EntitySnapshot<S, A>,
    pub instances: Vec<(u128, EntitySnapshot<S, A>)>,
}

/// The ids among the first `n` of `ids`.
pub open spec fn ids_before(ids: Seq<u128>, n: int) -> Set<u128> {
    Set::new(|x: u128| exists|j: int| 0 <= j < n && ids[j] == x)
}

/// The series of the host and of each instance, keyed by instance id.
pub struct MetricsStore<S, A> {
    host: EntityMetrics<S, A>,
    instances: HashMap<u128, EntityMetrics<S, A>>,
}

impl<S: Copy, A: Copy> MetricsStore<S, A> {
    /// The host's series.
    pub closed spec fn host(&self) -> EntityMetrics<S, A> {
        self.host
    }

    /// Each tracked instance's series, by instance id.
    pub closed spec fn instances(&self) -> Map<u128, EntityMetrics<S, A>> {
        self.instances@
    }

    /// Every entity is well formed.
    pub closed spec fn wf(&self) -> bool {
        &&& self.host.wf()
        &&& forall|id: u128| #[trigger] self.instances@.contains_key(id) ==> self.instances@[id].wf()
    }

    /// An empty store.
    pub fn new() -> (s: Self)
        ensures
            s.wf(),
            s.host().recorded() == Seq::<S>::empty(),
            s.host().day_series() == Seq::<A>::empty(),
            s.instances() == Map::<u128, EntityMetrics<S, A>>::empty(),
    {
        MetricsStore { host: EntityMetrics::new(), instances: HashMap::new() }
    }

    /// Record a host sample.
    pub fn record_host<F: Fn(Vec<S>) -> A>(&mut self, sample: S, agg: &F)
        requires
            old(self).wf(),
            folds_windows(*agg),
        ensures
            final(self).wf(),
            EntityMetrics::records(&old(self).host(), &final(self).host(), sample, *agg),
            final(self).instances() == old(self).instances(),
    {
        self.host.record(sample, agg);
    }

    /// Record a sample of instance `id`, which starts being tracked if it
    /// was not yet; no other entity changes.
    pub fn record_instance<F: Fn(Vec<S>) -> A>(&mut self, id: u128, sample: S, agg: &F)
        requires
            old(self).wf(),
            folds_windows(*agg),
        ensures
            final(self).wf(),
            final(self).host() == old(self).host(),
            final(self).instances() == old(self).instances().insert(id, final(self).instances()[id]),
            old(self).instances().contains_key(id) ==> EntityMetrics::records(
                &old(self).instances()[id],
                &final(self).instances()[id],
                sample,
                *agg,
            ),
            !old(self).instances().contains_key(id) ==> {
                &&& final(self).instances()[id].recorded() == seq![sample]
                &&& final(self).instances()[id].day_series() == Seq::<A>::empty()
            },
    {
        let ghost before = self.instances@;
        let mut m = match self.instances.remove(&id) {
            Some(m) => m,
            None => EntityMetrics::new(),
        };
        let ghost m0 = m;
        m.record(sample, agg);
        proof {
            if !before.contains_key(id) {
                assert(m.recorded() =~= seq![sample]);
            }
        }
        self.instances.insert(id, m);
        assert(self.instances@ =~= before.insert(id, self.instances@[id]));
    }

    /// Stop tracking every instance whose id is not in `ids`; the others
    /// keep their series.
    pub fn retain_active(&mut self, ids: &[u128])
        requires
            old(self).wf(),
        ensures
            final(self).wf(),
            final(self).host() == old(self).host(),
            final(self).instances() == old(self).instances().restrict(ids@.to_set()),
    {
        let ghost all = self.instances@;
        let ghost host = self.host;
        let mut kept: HashMap<u128, EntityMetrics<S, A>> = HashMap::new();
        let mut i: usize = 0;
        while i < ids.len()
            invariant
                i <= ids@.len(),
                self.host == host,
                host.wf(),
                forall|k: u128| #[trigger] all.contains_key(k) ==> all[k].wf(),
                kept@ == all.restrict(ids_before(ids@, i as int)),
                self.instances@ == all.remove_keys(ids_before(ids@, i as int)),
            decreases ids@.len() - i,
        {
            let id = ids[i];
            assert(ids_before(ids@, i + 1) =~= ids_before(ids@, i as int).insert(id));
            match self.instances.remove(&id) {
                Some(m) => {
                    kept.insert(id, m);
                },
                None => {},
            }
            i = i + 1;
            assert(kept@ =~= all.restrict(ids_before(ids@, i as int)));
            assert(self.instances@ =~= all.remove_keys(ids_before(ids@, i as int)));
        }
        assert(ids_before(ids@, ids@.len() as int) =~= ids@.to_set());
        self.instances = kept;
    }

    /// The latest sample and the series over `range` of the host and of
    /// every tracked instance, each instance once.
    pub fn snapshot(&self, range: Range) -> (r: Snapshot<S, A>)
        requires
            self.wf(),
        ensures
            describes(r.host, self.host(), range),
            r.instances@.len() == self.instances().dom().len(),
            forall|i: int| 0 <= i < r.instances@.len() ==> {
                &&& self.instances().contains_key((#[trigger] r.instances@[i]).0)
                &&& describes(r.instances@[i].1, self.instances()[r.instances@[i].0], range)
            },
            forall|i: int, j: int|
                0 <= i < j < r.instances@.len() ==> (#[trigger] r.instances@[i]).0 != (
                #[trigger] r.instances@[j]).0,
            forall|id: u128|
                #[trigger] self.instances().contains_key(id) ==> exists|i: int|
                    0 <= i < r.instances@.len() && (#[trigger] r.instances@[i]).0 == id,
    {
        let host = EntitySnapshot::from_metrics(&self.host, range);
        let mut instances: Vec<(u128, EntitySnapshot<S, A>)> = Vec::new();
        let ghost all = self.instances.iter().remaining();
        for entry in it: self.instances.iter()
            invariant
                self.wf(),
                it.seq() == all,
                instances@.len() == it.index(),
                forall|j: int| 0 <= j < it.index() ==> {
                    &&& (#[trigger] instances@[j]).0 == *all[j].0
                    &&& describes(instances@[j].1, *all[j].1, range)
                },
        {
            let (id, m) = entry;
            assert(self.instances@.contains_key(*id) && self.instances@[*id] == *m);
            let snap = EntitySnapshot::from_metrics(m, range);
            instances.push((*id, snap));
        }
        let r = Snapshot { host, instances };
        assert(r.instances@.len() == all.len());
        proof {
            assert(self.instances() == self.instances@);
            let v = all;
            assert(v == spec_hash_map_iter(&self.instances).remaining());
            assert forall|i: int| 0 <= i < r.instances@.len() implies {
                &&& self.instances().contains_key((#[trigger] r.instances@[i]).0)
                &&& describes(r.instances@[i].1, self.instances()[r.instances@[i].0], range)
            } by {
                assert(self.instances().contains_key(*v[i].0) && self.instances()[*v[i].0] == *v[i].1);
            }
            assert forall|i: int, j: int| 0 <= i < j < r.instances@.len() implies (
            #[trigger] r.instances@[i]).0 != (#[trigger] r.instances@[j]).0 by {
                assert(self.instances().contains_key(*v[i].0) && self.instances()[*v[i].0] == *v[i].1);
                assert(self.instances().contains_key(*v[j].0) && self.instances()[*v[j].0] == *v[j].1);
                if *v[i].0 == *v[j].0 {
                    assert(v[i] == v[j]);
                }
            }
            assert forall|id: u128| #[trigger] self.instances().contains_key(id) implies exists|i: int|
                0 <= i < r.instances@.len() && (#[trigger] r.instances@[i]).0 == id by {
                assert(v.contains((&id, &self.instances()[id])));
                let k = choose|k: int| 0 <= k < v.len() && v[k] == (&id, &self.instances()[id]);
                assert(r.instances@[k].0 == id);
            }
        }
        r
    }
}

impl<S: Copy, A: Copy> Default for MetricsStore<S, A> {
    fn default() -> (s: Self)
        ensures
            s.wf(),
            s.host().recorded() == Seq::<S>::empty(),
            s.host().day_series() == Seq::<A>::empty(),
            s.instances() == Map::<u128, EntityMetrics<S, A>>::empty(),
    {
        Self::new()
    }
}

} // verus!
