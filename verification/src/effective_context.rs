//! Effective-context policy engine: every permission and ceiling decision of
//! a user, and the launch pre-flight, as pure functions of plain values.
//!
//! Identifiers (users, groups, templates) are 128-bit integers: the value of
//! the UUID they name.

use std::collections::HashMap;
use vstd::prelude::*;
use vstd::std_specs::hash::*;

use crate::text::{push_str, str_eq};

verus! {

broadcast use vstd::std_specs::hash::group_hash_axioms;

/// The derived tier of a group kind, and of the user that belongs to it.
/// `admin` = 2, `manager` = 1, everything else (user/custom/none) = 0.
pub const TIER_USER: i32 = 0;

pub const TIER_MANAGER: i32 = 1;

pub const TIER_ADMIN: i32 = 2;

pub open spec fn opt_chars(o: Option<String>) -> Option<Seq<char>> {
    match o {
        Some(s) => Some(s@),
        None => None,
    }
}

pub open spec fn opt_str_chars(o: Option<&str>) -> Option<Seq<char>> {
    match o {
        Some(s) => Some(s@),
        None => None,
    }
}

/// Tier of a group kind: identity is the kind, names are cosmetic.
pub open spec fn kind_tier(kind: Option<Seq<char>>) -> i32 {
    match kind {
        Some(k) => if k == "admin"@ {
            TIER_ADMIN
        } else if k == "manager"@ {
            TIER_MANAGER
        } else {
            TIER_USER
        },
        None => TIER_USER,
    }
}

pub fn group_kind_tier(kind: Option<&str>) -> (t: i32)
    ensures
        t == kind_tier(opt_str_chars(kind)),
{
    match kind {
        Some(k) => {
            if str_eq(k, "admin") {
                TIER_ADMIN
            } else if str_eq(k, "manager") {
                TIER_MANAGER
            } else {
                TIER_USER
            }
        },
        None => TIER_USER,
    }
}

fn kind_tier_of(kind: &Option<String>) -> (t: i32)
    ensures
        t == kind_tier(opt_chars(*kind)),
{
    match kind {
        Some(k) => group_kind_tier(Some(k.as_str())),
        None => group_kind_tier(None),
    }
}

/// A snapshot of resource usage and its caps. `-1` always means "unlimited"
/// for caps; `0` is a real zero.
#[derive(Debug, Clone, Copy, PartialEq, Eq, Default, Structural)]
pub struct ResourceUse {
    pub cpu_cores: i64,
    pub memory_mb: i64,
    pub gpu_count: i64,
}

/// The resource pool a group offers its members, as reported on the context.
#[derive(Debug, Clone, PartialEq, Eq)]
pub struct GroupBilling {
    pub group_id: u128,
    pub group_name: String,
    pub tier: i32,
    /// `shared` | `dedicated`.
    pub billing_model: String,
    pub pool_cpu_cores: i64,
    pub pool_memory_mb: i64,
    pub pool_gpu_count: i64,
    pub member_cpu_cores: i64,
    pub member_memory_mb: i64,
    pub member_gpu_count: i64,
}

/// The resolved permissions and ceilings of a user at a point in time.
#[derive(Debug, Clone, PartialEq, Eq)]
pub struct EffectiveContext {
    pub user_id: u128,
    pub username: String,
    pub is_admin: bool,
    pub tier: i32,
    pub can_create_template: bool,
    pub can_manage_users: bool,
    pub can_manage_group_instances: bool,
    pub can_manage_docker: bool,
    pub can_manage_registry: bool,
    pub can_view_monitoring: bool,
    pub can_view_audit_logs: bool,
    /// `-1` = no ceiling, `0` blocks every launch, positive = exact limit.
    pub effective_max_instances: i32,
    pub allowed_template_ids: Vec<u128>,
    pub group_ids: Vec<u128>,
    pub direct_max_instances: Option<i32>,
    pub group_billing: Vec<GroupBilling>,
    pub resource_quotas: ResourceUse,
}

/// A user's identity and personal ceiling.
#[derive(Debug, Clone, PartialEq, Eq)]
pub struct UserPolicy {
    pub user_id: u128,
    pub username: String,
    pub direct_max_instances: Option<i32>,
}

/// A group's policy as seen by the effective-context computation.
#[derive(Debug, Clone, PartialEq, Eq)]
pub struct GroupPolicy {
    pub id: u128,
    pub name: String,
    /// `admin` | `manager` | `user` | `None` (custom groups).
    pub kind: Option<String>,
    /// `None` and `-1` both mean "unlimited"; `0` blocks.
    pub max_instances: Option<i32>,
    pub billing_model: String,
    pub pool_cpu_cores: i64,
    pub pool_memory_mb: i64,
    pub pool_gpu_count: i64,
    pub member_cpu_cores: i64,
    pub member_memory_mb: i64,
    pub member_gpu_count: i64,
    pub can_create_template: bool,
    pub can_manage_users: bool,
    pub can_manage_group_instances: bool,
    pub can_manage_docker: bool,
    pub can_manage_registry: bool,
    pub can_view_monitoring: bool,
    pub can_view_audit_logs: bool,
}

// ───────────────────────── the model of a context ─────────────────────────

/// Maximum kind tier over the groups (`0` with no groups).
pub open spec fn max_tier(gs: Seq<GroupPolicy>) -> i32
    decreases gs.len(),
{
    if gs.len() == 0 {
        TIER_USER
    } else {
        let a = max_tier(gs.drop_last());
        let b = kind_tier(opt_chars(gs.last().kind));
        if b > a {
            b
        } else {
            a
        }
    }
}

/// Whether a group grants an unlimited ceiling (`NULL` or negative).
pub open spec fn group_unlimited(g: GroupPolicy) -> bool {
    match g.max_instances {
        None => true,
        Some(c) => c < 0,
    }
}

/// Largest finite group ceiling (`0` with none).
pub open spec fn max_finite_ceiling(gs: Seq<GroupPolicy>) -> i32
    decreases gs.len(),
{
    if gs.len() == 0 {
        0
    } else {
        let a = max_finite_ceiling(gs.drop_last());
        match gs.last().max_instances {
            Some(c) => if c >= 0 && c > a {
                c
            } else {
                a
            },
            None => a,
        }
    }
}

/// The effective instance ceiling: `-1` when nothing constrains the user or
/// any source is unlimited; otherwise the largest finite ceiling among the
/// personal one and every group's.
pub open spec fn effective_ceiling(direct: Option<i32>, gs: Seq<GroupPolicy>) -> i32 {
    let unlimited = (direct is None && gs.len() == 0) || (direct matches Some(d) && d < 0)
        || exists|i: int| 0 <= i < gs.len() && group_unlimited(#[trigger] gs[i]);
    if unlimited {
        -1i32
    } else {
        let f = max_finite_ceiling(gs);
        match direct {
            Some(d) => if d > f {
                d
            } else {
                f
            },
            None => f,
        }
    }
}

/// The ids a group whitelists, per the group → templates map.
pub open spec fn listed(m: Map<u128, Vec<u128>>, id: u128) -> Seq<u128> {
    if m.contains_key(id) {
        m[id]@
    } else {
        Seq::empty()
    }
}

/// `acc` extended, in order, by each id of `ids` that is neither hidden nor
/// already present.
pub open spec fn union_into(acc: Seq<u128>, ids: Seq<u128>, hidden: Seq<u128>) -> Seq<u128>
    decreases ids.len(),
{
    if ids.len() == 0 {
        acc
    } else {
        let a = union_into(acc, ids.drop_last(), hidden);
        let t = ids.last();
        if hidden.contains(t) || a.contains(t) {
            a
        } else {
            a.push(t)
        }
    }
}

/// The effective whitelist: the ordered, duplicate-free union of every
/// member group's whitelist, hidden templates left out.
pub open spec fn whitelist(gs: Seq<GroupPolicy>, m: Map<u128, Vec<u128>>, hidden: Seq<u128>) -> Seq<
    u128,
>
    decreases gs.len(),
{
    if gs.len() == 0 {
        Seq::empty()
    } else {
        union_into(whitelist(gs.drop_last(), m, hidden), listed(m, gs.last().id), hidden)
    }
}

/// Aggregate of one pool field over the groups: `-1` when any group's pool is
/// unlimited, else the largest finite pool (`0` with no groups).
pub open spec fn aggregate_pool(vals: Seq<i64>) -> i64 {
    if exists|i: int| 0 <= i < vals.len() && #[trigger] vals[i] < 0 {
        -1i64
    } else {
        max_nonneg(vals)
    }
}

pub open spec fn max_nonneg(vals: Seq<i64>) -> i64
    decreases vals.len(),
{
    if vals.len() == 0 {
        0
    } else {
        let a = max_nonneg(vals.drop_last());
        if vals.last() > a {
            vals.last()
        } else {
            a
        }
    }
}

pub open spec fn billing_matches(b: GroupBilling, g: GroupPolicy) -> bool {
    &&& b.group_id == g.id
    &&& b.group_name@ == g.name@
    &&& b.tier == kind_tier(opt_chars(g.kind))
    &&& b.billing_model@ == g.billing_model@
    &&& b.pool_cpu_cores == g.pool_cpu_cores
    &&& b.pool_memory_mb == g.pool_memory_mb
    &&& b.pool_gpu_count == g.pool_gpu_count
    &&& b.member_cpu_cores == g.member_cpu_cores
    &&& b.member_memory_mb == g.member_memory_mb
    &&& b.member_gpu_count == g.member_gpu_count
}

// ───────────────────────── computing a context ─────────────────────────

fn contains_id(v: &[u128], x: u128) -> (r: bool)
    ensures
        r == v@.contains(x),
{
    let mut i: usize = 0;
    while i < v.len()
        invariant
            i <= v.len(),
            forall|j: int| 0 <= j < i ==> v@[j] != x,
        decreases v.len() - i,
    {
        if v[i] == x {
            return true;
        }
        i = i + 1;
    }
    false
}

fn add_unique_ids(acc: &mut Vec<u128>, ids: &Vec<u128>, hidden: &[u128])
    ensures
        final(acc)@ == union_into(old(acc)@, ids@, hidden@),
{
    let ghost start = acc@;
    let mut k: usize = 0;
    while k < ids.len()
        invariant
            k <= ids.len(),
            acc@ == union_into(start, ids@.subrange(0, k as int), hidden@),
        decreases ids.len() - k,
    {
        let ghost prefix = ids@.subrange(0, k + 1);
        assert(prefix.drop_last() =~= ids@.subrange(0, k as int));
        let t = ids[k];
        let seen = contains_id(acc.as_slice(), t);
        if !contains_id(hidden, t) && !seen {
            acc.push(t);
        }
        k = k + 1;
        assert(ids@.subrange(0, k as int) == prefix);
    }
    assert(ids@.subrange(0, ids.len() as int) =~= ids@);
}

fn pool_update(unlimited: &mut bool, best: &mut i64, v: i64)
    ensures
        *final(unlimited) == (*old(unlimited) || v < 0),
        *final(best) == (if v > *old(best) {
            v
        } else {
            *old(best)
        }),
{
    if v < 0 {
        *unlimited = true;
    }
    if v > *best {
        *best = v;
    }
}

/// Compute a user's effective context:
///
/// 1. `tier` = the maximum kind tier across the user's groups; `is_admin` =
///    tier 2;
/// 2. each flag = OR across the groups;
/// 3. whitelist = ordered union of the member groups' whitelists, without
///    duplicates and without hidden templates;
/// 4. `effective_max_instances` = the largest of the personal ceiling and the
///    group ceilings, `-1` (unlimited) dominating; no groups and no personal
///    ceiling is unlimited.
pub fn calculate_effective_context(
    user: &UserPolicy,
    groups: &[GroupPolicy],
    group_template_ids: &HashMap<u128, Vec<u128>>,
    hidden_template_ids: &[u128],
) -> (ctx: EffectiveContext)
    ensures
        ctx.user_id == user.user_id,
        ctx.username@ == user.username@,
        ctx.tier == max_tier(groups@),
        ctx.is_admin == (max_tier(groups@) == TIER_ADMIN),
        ctx.can_create_template == exists|i: int|
            0 <= i < groups@.len() && (#[trigger] groups@[i]).can_create_template,
        ctx.can_manage_users == exists|i: int|
            0 <= i < groups@.len() && (#[trigger] groups@[i]).can_manage_users,
        ctx.can_manage_group_instances == exists|i: int|
            0 <= i < groups@.len() && (#[trigger] groups@[i]).can_manage_group_instances,
        ctx.can_manage_docker == exists|i: int|
            0 <= i < groups@.len() && (#[trigger] groups@[i]).can_manage_docker,
        ctx.can_manage_registry == exists|i: int|
            0 <= i < groups@.len() && (#[trigger] groups@[i]).can_manage_registry,
        ctx.can_view_monitoring == exists|i: int|
            0 <= i < groups@.len() && (#[trigger] groups@[i]).can_view_monitoring,
        ctx.can_view_audit_logs == exists|i: int|
            0 <= i < groups@.len() && (#[trigger] groups@[i]).can_view_audit_logs,
        ctx.effective_max_instances == effective_ceiling(user.direct_max_instances, groups@),
        ctx.allowed_template_ids@ == whitelist(
            groups@,
            group_template_ids@,
            hidden_template_ids@,
        ),
        ctx.group_ids@ == groups@.map_values(|g: GroupPolicy| g.id),
        ctx.direct_max_instances == user.direct_max_instances,
        ctx.group_billing.len() == groups.len(),
        forall|i: int|
            0 <= i < groups.len() ==> billing_matches(
                #[trigger] ctx.group_billing@[i],
                groups@[i],
            ),
        ctx.resource_quotas.cpu_cores == aggregate_pool(
            groups@.map_values(|g: GroupPolicy| g.pool_cpu_cores),
        ),
        ctx.resource_quotas.memory_mb == aggregate_pool(
            groups@.map_values(|g: GroupPolicy| g.pool_memory_mb),
        ),
        ctx.resource_quotas.gpu_count == aggregate_pool(
            groups@.map_values(|g: GroupPolicy| g.pool_gpu_count),
        ),
{
    let ghost gs = groups@;
    let ghost m = group_template_ids@;
    let ghost hid = hidden_template_ids@;
    let ghost cpus = gs.map_values(|g: GroupPolicy| g.pool_cpu_cores);
    let ghost mems = gs.map_values(|g: GroupPolicy| g.pool_memory_mb);
    let ghost gpus = gs.map_values(|g: GroupPolicy| g.pool_gpu_count);
    let mut tier: i32 = TIER_USER;
    let mut create = false;
    let mut users = false;
    let mut group_instances = false;
    let mut docker = false;
    let mut registry = false;
    let mut monitoring = false;
    let mut audit_logs = false;
    let mut any_unlimited = false;
    let mut finite: i32 = 0;
    let mut allowed: Vec<u128> = Vec::new();
    let mut group_ids: Vec<u128> = Vec::new();
    let mut billing: Vec<GroupBilling> = Vec::new();
    let mut cpu_unlimited = false;
    let mut mem_unlimited = false;
    let mut gpu_unlimited = false;
    let mut cpu_max: i64 = 0;
    let mut mem_max: i64 = 0;
    let mut gpu_max: i64 = 0;
    let mut i: usize = 0;
    while i < groups.len()
        invariant
            gs == groups@,
            m == group_template_ids@,
            hid == hidden_template_ids@,
            cpus == gs.map_values(|g: GroupPolicy| g.pool_cpu_cores),
            mems == gs.map_values(|g: GroupPolicy| g.pool_memory_mb),
            gpus == gs.map_values(|g: GroupPolicy| g.pool_gpu_count),
            i <= groups.len(),
            tier == max_tier(gs.subrange(0, i as int)),
            create == exists|j: int| 0 <= j < i && (#[trigger] gs[j]).can_create_template,
            users == exists|j: int| 0 <= j < i && (#[trigger] gs[j]).can_manage_users,
            group_instances == exists|j: int|
                0 <= j < i && (#[trigger] gs[j]).can_manage_group_instances,
            docker == exists|j: int| 0 <= j < i && (#[trigger] gs[j]).can_manage_docker,
            registry == exists|j: int| 0 <= j < i && (#[trigger] gs[j]).can_manage_registry,
            monitoring == exists|j: int| 0 <= j < i && (#[trigger] gs[j]).can_view_monitoring,
            audit_logs == exists|j: int| 0 <= j < i && (#[trigger] gs[j]).can_view_audit_logs,
            any_unlimited == exists|j: int| 0 <= j < i && group_unlimited(#[trigger] gs[j]),
            finite == max_finite_ceiling(gs.subrange(0, i as int)),
            allowed@ == whitelist(gs.subrange(0, i as int), m, hid),
            group_ids@ == gs.subrange(0, i as int).map_values(|g: GroupPolicy| g.id),
            billing.len() == i,
            forall|j: int| 0 <= j < i ==> billing_matches(#[trigger] billing@[j], gs[j]),
            cpu_unlimited == exists|j: int| 0 <= j < i && #[trigger] cpus[j] < 0,
            mem_unlimited == exists|j: int| 0 <= j < i && #[trigger] mems[j] < 0,
            gpu_unlimited == exists|j: int| 0 <= j < i && #[trigger] gpus[j] < 0,
            cpu_max == max_nonneg(cpus.subrange(0, i as int)),
            mem_max == max_nonneg(mems.subrange(0, i as int)),
            gpu_max == max_nonneg(gpus.subrange(0, i as int)),
        decreases groups.len() - i,
    {
        let g = &groups[i];
        let ghost pre = gs.subrange(0, i + 1);
        proof {
            assert(pre.drop_last() =~= gs.subrange(0, i as int));
            assert(pre.last() == gs[i as int]);
            assert(cpus.subrange(0, i + 1).drop_last() =~= cpus.subrange(0, i as int));
            assert(mems.subrange(0, i + 1).drop_last() =~= mems.subrange(0, i as int));
            assert(gpus.subrange(0, i + 1).drop_last() =~= gpus.subrange(0, i as int));
        }
        let t = kind_tier_of(&g.kind);
        if t > tier {
            tier = t;
        }
        create = create || g.can_create_template;
        users = users || g.can_manage_users;
        group_instances = group_instances || g.can_manage_group_instances;
        docker = docker || g.can_manage_docker;
        registry = registry || g.can_manage_registry;
        monitoring = monitoring || g.can_view_monitoring;
        audit_logs = audit_logs || g.can_view_audit_logs;
        match g.max_instances {
            None => {
                any_unlimited = true;
            },
            Some(c) => {
                if c < 0 {
                    any_unlimited = true;
                } else if c > finite {
                    finite = c;
                }
            },
        }
        match group_template_ids.get(&g.id) {
            Some(ids) => {
                add_unique_ids(&mut allowed, ids, hidden_template_ids);
            },
            None => {
                proof {
                    assert(listed(m, g.id) =~= Seq::<u128>::empty());
                }
            },
        }
        group_ids.push(g.id);
        let b = GroupBilling {
            group_id: g.id,
            group_name: g.name.clone(),
            tier: t,
            billing_model: g.billing_model.clone(),
            pool_cpu_cores: g.pool_cpu_cores,
            pool_memory_mb: g.pool_memory_mb,
            pool_gpu_count: g.pool_gpu_count,
            member_cpu_cores: g.member_cpu_cores,
            member_memory_mb: g.member_memory_mb,
            member_gpu_count: g.member_gpu_count,
        };
        billing.push(b);
        pool_update(&mut cpu_unlimited, &mut cpu_max, g.pool_cpu_cores);
        pool_update(&mut mem_unlimited, &mut mem_max, g.pool_memory_mb);
        pool_update(&mut gpu_unlimited, &mut gpu_max, g.pool_gpu_count);
        i = i + 1;
        proof {
            assert(gs.subrange(0, i as int) == pre);
            assert(pre.map_values(|g: GroupPolicy| g.id) =~= gs.subrange(0, i - 1).map_values(
                |g: GroupPolicy| g.id,
            ).push(gs[i - 1].id));
            assert(cpus[i - 1] == gs[i - 1].pool_cpu_cores);
            assert(mems[i - 1] == gs[i - 1].pool_memory_mb);
            assert(gpus[i - 1] == gs[i - 1].pool_gpu_count);
        }
    }
    proof {
        assert(gs.subrange(0, gs.len() as int) =~= gs);
        assert(cpus.subrange(0, gs.len() as int) =~= cpus);
        assert(mems.subrange(0, gs.len() as int) =~= mems);
        assert(gpus.subrange(0, gs.len() as int) =~= gpus);
    }
    let unlimited_ceiling = match user.direct_max_instances {
        None => any_unlimited || groups.len() == 0,
        Some(d) => any_unlimited || d < 0,
    };
    let effective_max_instances = if unlimited_ceiling {
        -1
    } else {
        match user.direct_max_instances {
            Some(d) => if d > finite {
                d
            } else {
                finite
            },
            None => finite,
        }
    };
    let resource_quotas = ResourceUse {
        cpu_cores: if cpu_unlimited {
            -1
        } else {
            cpu_max
        },
        memory_mb: if mem_unlimited {
            -1
        } else {
            mem_max
        },
        gpu_count: if gpu_unlimited {
            -1
        } else {
            gpu_max
        },
    };
    EffectiveContext {
        user_id: user.user_id,
        username: user.username.clone(),
        is_admin: tier == TIER_ADMIN,
        tier,
        can_create_template: create,
        can_manage_users: users,
        can_manage_group_instances: group_instances,
        can_manage_docker: docker,
        can_manage_registry: registry,
        can_view_monitoring: monitoring,
        can_view_audit_logs: audit_logs,
        effective_max_instances,
        allowed_template_ids: allowed,
        group_ids,
        direct_max_instances: user.direct_max_instances,
        group_billing: billing,
        resource_quotas,
    }
}


// ───────────────────────── launch pre-flight ─────────────────────────

/// Which resource failed a resource-cap check.
#[derive(Debug, Clone, Copy, PartialEq, Eq, Structural)]
pub enum ResourceKind {
    Cpu,
    Memory,
    Gpu,
}

impl ResourceKind {
    pub open spec fn spec_as_str(self) -> Seq<char> {
        match self {
            ResourceKind::Cpu => "cpu"@,
            ResourceKind::Memory => "memory"@,
            ResourceKind::Gpu => "gpu"@,
        }
    }

    /// The machine-readable value on a rejection body.
    pub fn as_str(&self) -> (s: &'static str)
        ensures
            s@ == self.spec_as_str(),
    {
        match self {
            ResourceKind::Cpu => "cpu",
            ResourceKind::Memory => "memory",
            ResourceKind::Gpu => "gpu",
        }
    }
}

/// Why a launch attempt was rejected, in check order.
#[derive(Debug, Clone, Copy, PartialEq, Eq, Structural)]
#[allow(inconsistent_fields)]
pub enum PreflightReject {
    /// Template is not in the effective whitelist (default-deny, 403).
    TemplateNotAllowed { requested_template_id: u128 },
    /// Template is hidden: an absolute off-switch checked first (403).
    TemplateHidden { requested_template_id: u128 },
    /// The user is at their exact effective ceiling (409).
    InstanceCeilingExceeded { current: i32, limit: i32 },
    /// The global active count is at the host ceiling (409).
    HostCeilingExceeded { current: i32, limit: i32 },
    /// The host-wide usage of a resource would exceed the host ceiling (409).
    HostResourceExceeded { resource: ResourceKind, current: i64, limit: i64, requested: i64 },
    /// The billing target's pool cannot fit the requested instance (409).
    PoolResourceExceeded {
        resource: ResourceKind,
        current: i64,
        limit: i64,
        requested: i64,
        group_id: Option<u128>,
    },
    /// The owner is at their personal cap inside the billing group (409).
    MemberResourceExceeded {
        resource: ResourceKind,
        current: i64,
        limit: i64,
        requested: i64,
        group_id: Option<u128>,
    },
}

/// The resource context of a launch pre-flight: caps and usage of the host,
/// of the billing target's pool, and of the owner's member cap.
#[derive(Debug, Clone, Copy, PartialEq, Eq, Structural)]
pub struct QuotaContext {
    pub pool: ResourceUse,
    pub billed: ResourceUse,
    pub member_quota: ResourceUse,
    pub member_used: ResourceUse,
    pub host_capacity: ResourceUse,
    pub host_used: ResourceUse,
    /// The group this launch bills against (`None` = self-billed).
    pub target_group_id: Option<u128>,
}

/// A template's launch visibility, above the group whitelist.
#[derive(Debug, Clone, Copy, PartialEq, Eq, Default, Structural)]
pub enum TemplateVisibility {
    /// Every authenticated user may launch it; the whitelist is skipped.
    Public,
    /// Only users whose groups whitelist it may launch it.
    #[default]
    Private,
    /// Nobody may launch it, admins included.
    Hidden,
}

impl TemplateVisibility {
    pub open spec fn spec_as_str(self) -> Seq<char> {
        match self {
            TemplateVisibility::Public => "public"@,
            TemplateVisibility::Private => "private"@,
            TemplateVisibility::Hidden => "hidden"@,
        }
    }

    pub fn as_str(&self) -> (s: &'static str)
        ensures
            s@ == self.spec_as_str(),
    {
        match self {
            TemplateVisibility::Public => "public",
            TemplateVisibility::Private => "private",
            TemplateVisibility::Hidden => "hidden",
        }
    }
}

pub open spec fn spec_parse_visibility(s: Seq<char>) -> Option<TemplateVisibility> {
    if s == "public"@ {
        Some(TemplateVisibility::Public)
    } else if s == "private"@ {
        Some(TemplateVisibility::Private)
    } else if s == "hidden"@ {
        Some(TemplateVisibility::Hidden)
    } else {
        None
    }
}

/// Parse a visibility literal; anything else is
/// `invalid template visibility: <s>`.
pub fn parse_visibility(s: &str) -> (r: Result<TemplateVisibility, String>)
    ensures
        match spec_parse_visibility(s@) {
            Some(v) => r == Ok::<TemplateVisibility, String>(v),
            None => r matches Err(e) && e@ == "invalid template visibility: "@ + s@,
        },
{
    if str_eq(s, "public") {
        Ok(TemplateVisibility::Public)
    } else if str_eq(s, "private") {
        Ok(TemplateVisibility::Private)
    } else if str_eq(s, "hidden") {
        Ok(TemplateVisibility::Hidden)
    } else {
        let mut e = String::new();
        push_str(&mut e, "invalid template visibility: ");
        push_str(&mut e, s);
        Err(e)
    }
}

impl std::str::FromStr for TemplateVisibility {
    type Err = String;

    fn from_str(s: &str) -> (r: Result<Self, Self::Err>)
        ensures
            match spec_parse_visibility(s@) {
                Some(v) => r == Ok::<TemplateVisibility, String>(v),
                None => r matches Err(e) && e@ == "invalid template visibility: "@ + s@,
            },
    {
        parse_visibility(s)
    }
}

/// Sum two `ResourceUse` values elementwise.
pub fn add_use(a: &ResourceUse, b: &ResourceUse) -> (r: ResourceUse)
    requires
        i64::MIN <= a.cpu_cores + b.cpu_cores <= i64::MAX,
        i64::MIN <= a.memory_mb + b.memory_mb <= i64::MAX,
        i64::MIN <= a.gpu_count + b.gpu_count <= i64::MAX,
    ensures
        r.cpu_cores == a.cpu_cores + b.cpu_cores,
        r.memory_mb == a.memory_mb + b.memory_mb,
        r.gpu_count == a.gpu_count + b.gpu_count,
{
    ResourceUse {
        cpu_cores: a.cpu_cores + b.cpu_cores,
        memory_mb: a.memory_mb + b.memory_mb,
        gpu_count: a.gpu_count + b.gpu_count,
    }
}

pub const MIB: i64 = 1048576;

/// Bytes to whole MB, rounded up; a negative value (unlimited) is kept.
pub open spec fn spec_memory_bytes_to_mb(bytes: int) -> int {
    if bytes < 0 {
        bytes
    } else {
        bytes / MIB as int + if bytes % MIB as int != 0 {
            1int
        } else {
            0int
        }
    }
}

pub fn memory_bytes_to_mb(bytes: i64) -> (mb: i64)
    ensures
        mb == spec_memory_bytes_to_mb(bytes as int),
{
    if bytes < 0 {
        return bytes;
    }
    bytes / MIB + if bytes % MIB != 0 {
        1
    } else {
        0
    }
}

/// The first binding layer (member cap, then pool, then host) refusing
/// `requested` units of one resource, if any.
pub open spec fn resource_reject(
    resource: ResourceKind,
    member_limit: i64,
    member_current: i64,
    pool_limit: i64,
    pool_current: i64,
    host_limit: i64,
    host_current: i64,
    requested: i64,
    group_id: Option<u128>,
) -> Option<PreflightReject> {
    let member = PreflightReject::MemberResourceExceeded {
        resource,
        current: member_current,
        limit: member_limit,
        requested,
        group_id,
    };
    let pool = PreflightReject::PoolResourceExceeded {
        resource,
        current: pool_current,
        limit: pool_limit,
        requested,
        group_id,
    };
    let host = PreflightReject::HostResourceExceeded {
        resource,
        current: host_current,
        limit: host_limit,
        requested,
    };
    if requested < 0 {
        if member_limit >= 0 {
            Some(member)
        } else if pool_limit >= 0 {
            Some(pool)
        } else if host_limit >= 0 {
            Some(host)
        } else {
            None
        }
    } else if requested > 0 {
        if member_limit >= 0 && member_current + requested > member_limit {
            Some(member)
        } else if pool_limit >= 0 && pool_current + requested > pool_limit {
            Some(pool)
        } else if host_limit >= 0 && host_current + requested > host_limit {
            Some(host)
        } else {
            None
        }
    } else {
        None
    }
}

pub open spec fn cpu_reject(req: ResourceUse, b: QuotaContext) -> Option<PreflightReject> {
    resource_reject(
        ResourceKind::Cpu,
        b.member_quota.cpu_cores,
        b.member_used.cpu_cores,
        b.pool.cpu_cores,
        b.billed.cpu_cores,
        b.host_capacity.cpu_cores,
        b.host_used.cpu_cores,
        req.cpu_cores,
        b.target_group_id,
    )
}

pub open spec fn memory_reject(req: ResourceUse, b: QuotaContext) -> Option<PreflightReject> {
    resource_reject(
        ResourceKind::Memory,
        b.member_quota.memory_mb,
        b.member_used.memory_mb,
        b.pool.memory_mb,
        b.billed.memory_mb,
        b.host_capacity.memory_mb,
        b.host_used.memory_mb,
        req.memory_mb,
        b.target_group_id,
    )
}

pub open spec fn gpu_reject(req: ResourceUse, b: QuotaContext) -> Option<PreflightReject> {
    resource_reject(
        ResourceKind::Gpu,
        b.member_quota.gpu_count,
        b.member_used.gpu_count,
        b.pool.gpu_count,
        b.billed.gpu_count,
        b.host_capacity.gpu_count,
        b.host_used.gpu_count,
        req.gpu_count,
        b.target_group_id,
    )
}

/// The pre-flight decision: visibility, whitelist, own ceiling, host
/// ceiling, then the resources cpu, memory, gpu — the first failure wins.
pub open spec fn spec_pre_flight(
    allowed: Seq<u128>,
    effective_max: i32,
    host_active_count: i32,
    host_instance_limit: i32,
    template_id: u128,
    active_own_count: i32,
    visibility: TemplateVisibility,
    req: ResourceUse,
    b: QuotaContext,
) -> Result<(), PreflightReject> {
    if visibility == TemplateVisibility::Hidden {
        Err(PreflightReject::TemplateHidden { requested_template_id: template_id })
    } else if visibility == TemplateVisibility::Private && !allowed.contains(template_id) {
        Err(PreflightReject::TemplateNotAllowed { requested_template_id: template_id })
    } else if effective_max >= 0 && active_own_count + 1 > effective_max {
        Err(
            PreflightReject::InstanceCeilingExceeded {
                current: active_own_count,
                limit: effective_max,
            },
        )
    } else if host_instance_limit >= 0 && host_active_count + 1 > host_instance_limit {
        Err(
            PreflightReject::HostCeilingExceeded {
                current: host_active_count,
                limit: host_instance_limit,
            },
        )
    } else if cpu_reject(req, b) is Some {
        Err(cpu_reject(req, b).unwrap())
    } else if memory_reject(req, b) is Some {
        Err(memory_reject(req, b).unwrap())
    } else if gpu_reject(req, b) is Some {
        Err(gpu_reject(req, b).unwrap())
    } else {
        Ok(())
    }
}

fn check_resource(
    resource: ResourceKind,
    member_limit: i64,
    member_current: i64,
    pool_limit: i64,
    pool_current: i64,
    host_limit: i64,
    host_current: i64,
    requested: i64,
    group_id: Option<u128>,
) -> (r: Option<PreflightReject>)
    ensures
        r == resource_reject(
            resource,
            member_limit,
            member_current,
            pool_limit,
            pool_current,
            host_limit,
            host_current,
            requested,
            group_id,
        ),
{
    let member = PreflightReject::MemberResourceExceeded {
        resource,
        current: member_current,
        limit: member_limit,
        requested,
        group_id,
    };
    let pool = PreflightReject::PoolResourceExceeded {
        resource,
        current: pool_current,
        limit: pool_limit,
        requested,
        group_id,
    };
    let host = PreflightReject::HostResourceExceeded {
        resource,
        current: host_current,
        limit: host_limit,
        requested,
    };
    if requested < 0 {
        if member_limit >= 0 {
            Some(member)
        } else if pool_limit >= 0 {
            Some(pool)
        } else if host_limit >= 0 {
            Some(host)
        } else {
            None
        }
    } else if requested > 0 {
        let req = requested as i128;
        if member_limit >= 0 && member_current as i128 + req > member_limit as i128 {
            Some(member)
        } else if pool_limit >= 0 && pool_current as i128 + req > pool_limit as i128 {
            Some(pool)
        } else if host_limit >= 0 && host_current as i128 + req > host_limit as i128 {
            Some(host)
        } else {
            None
        }
    } else {
        None
    }
}

/// Run the launch pre-flight checks as a pure decision, in fixed order:
/// hidden (always 403), whitelist for private templates (403), the user's
/// ceiling (`-1` = none), the host ceiling (`-1` = none), then per resource
/// cpu, memory, gpu the member cap, the billing pool and the host cap. A
/// negative request is accepted only where every layer is unlimited; a zero
/// request always fits.
pub fn pre_flight(
    context: &EffectiveContext,
    host_active_count: i32,
    host_instance_limit: i32,
    requested_template_id: u128,
    active_own_count: i32,
    template_visibility: TemplateVisibility,
    requested_resources: &ResourceUse,
    billing: &QuotaContext,
) -> (r: Result<(), PreflightReject>)
    ensures
        r == spec_pre_flight(
            context.allowed_template_ids@,
            context.effective_max_instances,
            host_active_count,
            host_instance_limit,
            requested_template_id,
            active_own_count,
            template_visibility,
            *requested_resources,
            *billing,
        ),
{
    match template_visibility {
        TemplateVisibility::Hidden => {
            return Err(PreflightReject::TemplateHidden { requested_template_id });
        },
        TemplateVisibility::Public => {},
        TemplateVisibility::Private => {
            if !contains_id(context.allowed_template_ids.as_slice(), requested_template_id) {
                return Err(PreflightReject::TemplateNotAllowed { requested_template_id });
            }
        },
    }
    let max = context.effective_max_instances;
    if max >= 0 && active_own_count as i64 + 1 > max as i64 {
        return Err(
            PreflightReject::InstanceCeilingExceeded { current: active_own_count, limit: max },
        );
    }
    if host_instance_limit >= 0 && host_active_count as i64 + 1 > host_instance_limit as i64 {
        return Err(
            PreflightReject::HostCeilingExceeded {
                current: host_active_count,
                limit: host_instance_limit,
            },
        );
    }
    let b = billing;
    let req = requested_resources;
    let cpu = check_resource(
        ResourceKind::Cpu,
        b.member_quota.cpu_cores,
        b.member_used.cpu_cores,
        b.pool.cpu_cores,
        b.billed.cpu_cores,
        b.host_capacity.cpu_cores,
        b.host_used.cpu_cores,
        req.cpu_cores,
        b.target_group_id,
    );
    if let Some(reject) = cpu {
        return Err(reject);
    }
    let memory = check_resource(
        ResourceKind::Memory,
        b.member_quota.memory_mb,
        b.member_used.memory_mb,
        b.pool.memory_mb,
        b.billed.memory_mb,
        b.host_capacity.memory_mb,
        b.host_used.memory_mb,
        req.memory_mb,
        b.target_group_id,
    );
    if let Some(reject) = memory {
        return Err(reject);
    }
    let gpu = check_resource(
        ResourceKind::Gpu,
        b.member_quota.gpu_count,
        b.member_used.gpu_count,
        b.pool.gpu_count,
        b.billed.gpu_count,
        b.host_capacity.gpu_count,
        b.host_used.gpu_count,
        req.gpu_count,
        b.target_group_id,
    );
    if let Some(reject) = gpu {
        return Err(reject);
    }
    Ok(())
}

pub open spec fn kinds_tiers_below(actor_tier: i32, kinds: Seq<Option<String>>) -> bool {
    forall|i: int| 0 <= i < kinds.len() ==> kind_tier(opt_chars(#[trigger] kinds[i])) < actor_tier
}

/// Whether an actor of `actor_tier` may assign a target to the given groups:
/// every group's kind tier must be strictly below the actor's tier.
pub fn can_assign_groups(actor_tier: i32, group_kinds: &[Option<String>]) -> (r: bool)
    ensures
        r == kinds_tiers_below(actor_tier, group_kinds@),
{
    let mut i: usize = 0;
    while i < group_kinds.len()
        invariant
            i <= group_kinds.len(),
            forall|j: int|
                0 <= j < i ==> kind_tier(opt_chars(#[trigger] group_kinds@[j])) < actor_tier,
        decreases group_kinds.len() - i,
    {
        if kind_tier_of(&group_kinds[i]) >= actor_tier {
            return false;
        }
        i = i + 1;
    }
    true
}


// ───────────────────────── laws ─────────────────────────

proof fn lemma_union_into(acc: Seq<u128>, ids: Seq<u128>, hidden: Seq<u128>)
    requires
        acc.no_duplicates(),
    ensures
        union_into(acc, ids, hidden).no_duplicates(),
        forall|t: u128|
            #![trigger union_into(acc, ids, hidden).contains(t)]
            union_into(acc, ids, hidden).contains(t) <==> (acc.contains(t) || (ids.contains(t)
                && !hidden.contains(t))),
    decreases ids.len(),
{
    if ids.len() > 0 {
        let pre = ids.drop_last();
        lemma_union_into(acc, pre, hidden);
        let a = union_into(acc, pre, hidden);
        let x = ids.last();
        assert forall|t: u128| ids.contains(t) <==> (pre.contains(t) || t == x) by {
            if ids.contains(t) {
                let k = choose|k: int| 0 <= k < ids.len() && ids[k] == t;
                if k < ids.len() - 1 {
                    assert(pre[k] == t);
                }
            }
            if pre.contains(t) {
                let k = choose|k: int| 0 <= k < pre.len() && pre[k] == t;
                assert(ids[k] == t);
            }
            if t == x {
                assert(ids[ids.len() - 1] == t);
            }
        }
        if !(hidden.contains(x) || a.contains(x)) {
            let r = a.push(x);
            assert forall|t: u128| r.contains(t) <==> (a.contains(t) || t == x) by {
                if r.contains(t) {
                    let k = choose|k: int| 0 <= k < r.len() && r[k] == t;
                    if k < a.len() {
                        assert(a[k] == t);
                    }
                }
                if a.contains(t) {
                    let k = choose|k: int| 0 <= k < a.len() && a[k] == t;
                    assert(r[k] == t);
                }
                if t == x {
                    assert(r[a.len() as int] == t);
                }
            }
            assert forall|p: int, q: int| 0 <= p < r.len() && 0 <= q < r.len() && p != q implies r[p]
                != r[q] by {
                if p < a.len() && q < a.len() {
                } else if p < a.len() {
                    assert(a.contains(r[p]));
                } else {
                    assert(a.contains(r[q]));
                }
            }
        }
    }
}

/// The effective whitelist holds each template at most once, and a template
/// is in it exactly when it is not hidden and some member group whitelists
/// it: the union of the groups' grants, nothing personal, nothing hidden.
pub proof fn law_whitelist_is_union_of_group_grants(
    gs: Seq<GroupPolicy>,
    m: Map<u128, Vec<u128>>,
    hidden: Seq<u128>,
)
    ensures
        whitelist(gs, m, hidden).no_duplicates(),
        forall|t: u128|
            #![trigger whitelist(gs, m, hidden).contains(t)]
            whitelist(gs, m, hidden).contains(t) <==> (!hidden.contains(t) && exists|i: int|
                0 <= i < gs.len() && listed(m, #[trigger] gs[i].id).contains(t)),
    decreases gs.len(),
{
    if gs.len() > 0 {
        let pre = gs.drop_last();
        law_whitelist_is_union_of_group_grants(pre, m, hidden);
        let w = whitelist(pre, m, hidden);
        let ids = listed(m, gs.last().id);
        lemma_union_into(w, ids, hidden);
        assert forall|t: u128|
            whitelist(gs, m, hidden).contains(t) <==> (!hidden.contains(t) && exists|i: int|
                0 <= i < gs.len() && listed(m, #[trigger] gs[i].id).contains(t)) by {
            if exists|i: int| 0 <= i < gs.len() && listed(m, #[trigger] gs[i].id).contains(t) {
                let i = choose|i: int| 0 <= i < gs.len() && listed(m, #[trigger] gs[i].id).contains(t);
                if i < gs.len() - 1 {
                    assert(pre[i] == gs[i]);
                }
            }
            if exists|i: int| 0 <= i < pre.len() && listed(m, #[trigger] pre[i].id).contains(t) {
                let i = choose|i: int| 0 <= i < pre.len() && listed(m, #[trigger] pre[i].id).contains(t);
                assert(gs[i] == pre[i]);
            }
        }
    } else {
        assert(whitelist(gs, m, hidden) =~= Seq::<u128>::empty());
    }
}

proof fn lemma_max_finite_ceiling(gs: Seq<GroupPolicy>)
    ensures
        max_finite_ceiling(gs) >= 0,
        forall|i: int|
            0 <= i < gs.len() && (#[trigger] gs[i]).max_instances is Some
                && gs[i].max_instances.unwrap() >= 0 ==> gs[i].max_instances.unwrap()
                <= max_finite_ceiling(gs),
    decreases gs.len(),
{
    if gs.len() > 0 {
        let pre = gs.drop_last();
        lemma_max_finite_ceiling(pre);
        assert forall|i: int|
            0 <= i < gs.len() && (#[trigger] gs[i]).max_instances is Some
                && gs[i].max_instances.unwrap() >= 0 implies gs[i].max_instances.unwrap()
                <= max_finite_ceiling(gs) by {
            if i < gs.len() - 1 {
                assert(pre[i] == gs[i]);
            }
        }
    }
}

/// The effective ceiling is `-1` (unlimited) or at least every finite group
/// ceiling and the personal ceiling: a low group ceiling never drags a user
/// down, and a personal ceiling can only raise what the groups grant.
pub proof fn law_ceiling_dominates_every_source(direct: Option<i32>, gs: Seq<GroupPolicy>)
    ensures
        effective_ceiling(direct, gs) == -1 || effective_ceiling(direct, gs) >= 0,
        forall|i: int|
            0 <= i < gs.len() && (#[trigger] gs[i]).max_instances is Some
                && gs[i].max_instances.unwrap() >= 0 ==> (effective_ceiling(direct, gs) == -1
                || gs[i].max_instances.unwrap() <= effective_ceiling(direct, gs)),
        forall|d: i32|
            direct == Some(d) && d >= 0 ==> (effective_ceiling(direct, gs) == -1 || d
                <= effective_ceiling(direct, gs)),
        gs.len() > 0 ==> (effective_ceiling(direct, gs) == -1 <==> (effective_ceiling(None, gs)
            == -1 || (direct matches Some(d) && d < 0))),
        gs.len() > 0 && effective_ceiling(direct, gs) != -1 ==> effective_ceiling(direct, gs)
            >= effective_ceiling(None, gs),
{
    lemma_max_finite_ceiling(gs);
}

/// The tier is one of 0, 1, 2, and only Admin-kind membership makes root.
pub proof fn law_tier_range(gs: Seq<GroupPolicy>)
    ensures
        TIER_USER <= max_tier(gs) <= TIER_ADMIN,
        max_tier(gs) == TIER_ADMIN <==> exists|i: int|
            0 <= i < gs.len() && kind_tier(opt_chars(#[trigger] gs[i].kind)) == TIER_ADMIN,
    decreases gs.len(),
{
    if gs.len() > 0 {
        let pre = gs.drop_last();
        law_tier_range(pre);
        if exists|i: int| 0 <= i < pre.len() && kind_tier(opt_chars(#[trigger] pre[i].kind)) == TIER_ADMIN {
            let i = choose|i: int| 0 <= i < pre.len() && kind_tier(opt_chars(#[trigger] pre[i].kind)) == TIER_ADMIN;
            assert(gs[i] == pre[i]);
        }
        if exists|i: int| 0 <= i < gs.len() && kind_tier(opt_chars(#[trigger] gs[i].kind)) == TIER_ADMIN {
            let i = choose|i: int| 0 <= i < gs.len() && kind_tier(opt_chars(#[trigger] gs[i].kind)) == TIER_ADMIN;
            if i < gs.len() - 1 {
                assert(pre[i] == gs[i]);
            }
        }
    }
}

/// Whether one resource request fits every enabled layer: a negative
/// (unlimited) request only where all three layers are unlimited, a positive
/// one within each finite layer, a zero one always.
pub open spec fn layer_fits(
    member_limit: i64,
    member_current: i64,
    pool_limit: i64,
    pool_current: i64,
    host_limit: i64,
    host_current: i64,
    requested: i64,
) -> bool {
    if requested < 0 {
        member_limit < 0 && pool_limit < 0 && host_limit < 0
    } else if requested > 0 {
        &&& (member_limit < 0 || member_current + requested <= member_limit)
        &&& (pool_limit < 0 || pool_current + requested <= pool_limit)
        &&& (host_limit < 0 || host_current + requested <= host_limit)
    } else {
        true
    }
}

pub open spec fn launch_fits(
    allowed: Seq<u128>,
    effective_max: i32,
    host_active_count: i32,
    host_instance_limit: i32,
    template_id: u128,
    active_own_count: i32,
    visibility: TemplateVisibility,
    req: ResourceUse,
    b: QuotaContext,
) -> bool {
    &&& visibility != TemplateVisibility::Hidden
    &&& (visibility == TemplateVisibility::Public || allowed.contains(template_id))
    &&& (effective_max < 0 || active_own_count + 1 <= effective_max)
    &&& (host_instance_limit < 0 || host_active_count + 1 <= host_instance_limit)
    &&& layer_fits(
        b.member_quota.cpu_cores,
        b.member_used.cpu_cores,
        b.pool.cpu_cores,
        b.billed.cpu_cores,
        b.host_capacity.cpu_cores,
        b.host_used.cpu_cores,
        req.cpu_cores,
    )
    &&& layer_fits(
        b.member_quota.memory_mb,
        b.member_used.memory_mb,
        b.pool.memory_mb,
        b.billed.memory_mb,
        b.host_capacity.memory_mb,
        b.host_used.memory_mb,
        req.memory_mb,
    )
    &&& layer_fits(
        b.member_quota.gpu_count,
        b.member_used.gpu_count,
        b.pool.gpu_count,
        b.billed.gpu_count,
        b.host_capacity.gpu_count,
        b.host_used.gpu_count,
        req.gpu_count,
    )
}

proof fn lemma_resource_reject_none_iff_fits(
    resource: ResourceKind,
    member_limit: i64,
    member_current: i64,
    pool_limit: i64,
    pool_current: i64,
    host_limit: i64,
    host_current: i64,
    requested: i64,
    group_id: Option<u128>,
)
    ensures
        resource_reject(
            resource,
            member_limit,
            member_current,
            pool_limit,
            pool_current,
            host_limit,
            host_current,
            requested,
            group_id,
        ) is None <==> layer_fits(
            member_limit,
            member_current,
            pool_limit,
            pool_current,
            host_limit,
            host_current,
            requested,
        ),
{
}

/// A launch passes the pre-flight exactly when it fits: not hidden, granted
/// (public or whitelisted), under the user's and the host's instance
/// ceilings, and within every enabled member, pool and host resource cap.
pub proof fn law_pre_flight_admits_exactly_fitting_launches(
    allowed: Seq<u128>,
    effective_max: i32,
    host_active_count: i32,
    host_instance_limit: i32,
    template_id: u128,
    active_own_count: i32,
    visibility: TemplateVisibility,
    req: ResourceUse,
    b: QuotaContext,
)
    ensures
        spec_pre_flight(
            allowed,
            effective_max,
            host_active_count,
            host_instance_limit,
            template_id,
            active_own_count,
            visibility,
            req,
            b,
        ) is Ok <==> launch_fits(
            allowed,
            effective_max,
            host_active_count,
            host_instance_limit,
            template_id,
            active_own_count,
            visibility,
            req,
            b,
        ),
{
    lemma_resource_reject_none_iff_fits(
        ResourceKind::Cpu,
        b.member_quota.cpu_cores,
        b.member_used.cpu_cores,
        b.pool.cpu_cores,
        b.billed.cpu_cores,
        b.host_capacity.cpu_cores,
        b.host_used.cpu_cores,
        req.cpu_cores,
        b.target_group_id,
    );
    lemma_resource_reject_none_iff_fits(
        ResourceKind::Memory,
        b.member_quota.memory_mb,
        b.member_used.memory_mb,
        b.pool.memory_mb,
        b.billed.memory_mb,
        b.host_capacity.memory_mb,
        b.host_used.memory_mb,
        req.memory_mb,
        b.target_group_id,
    );
    lemma_resource_reject_none_iff_fits(
        ResourceKind::Gpu,
        b.member_quota.gpu_count,
        b.member_used.gpu_count,
        b.pool.gpu_count,
        b.billed.gpu_count,
        b.host_capacity.gpu_count,
        b.host_used.gpu_count,
        req.gpu_count,
        b.target_group_id,
    );
}

/// A hidden template is refused for every user, whatever their grants,
/// ceilings or resources.
pub proof fn law_hidden_template_always_refused(
    allowed: Seq<u128>,
    effective_max: i32,
    host_active_count: i32,
    host_instance_limit: i32,
    template_id: u128,
    active_own_count: i32,
    req: ResourceUse,
    b: QuotaContext,
)
    ensures
        spec_pre_flight(
            allowed,
            effective_max,
            host_active_count,
            host_instance_limit,
            template_id,
            active_own_count,
            TemplateVisibility::Hidden,
            req,
            b,
        ) == Err::<(), PreflightReject>(
            PreflightReject::TemplateHidden { requested_template_id: template_id },
        ),
{
}

/// A tier-0 actor can place nobody in any group, and no actor (admins
/// included) can place anyone in an Admin-kind group.
pub proof fn law_assignment_needs_strictly_higher_tier(actor_tier: i32, kinds: Seq<Option<String>>)
    requires
        actor_tier <= TIER_ADMIN,
    ensures
        actor_tier <= TIER_USER && kinds.len() > 0 ==> !kinds_tiers_below(actor_tier, kinds),
        (exists|i: int| 0 <= i < kinds.len() && opt_chars(#[trigger] kinds[i]) == Some("admin"@))
            ==> !kinds_tiers_below(actor_tier, kinds),
{
    if actor_tier <= TIER_USER && kinds.len() > 0 {
        assert(kind_tier(opt_chars(kinds[0])) >= 0);
    }
    if exists|i: int| 0 <= i < kinds.len() && opt_chars(#[trigger] kinds[i]) == Some("admin"@) {
        let i = choose|i: int| 0 <= i < kinds.len() && opt_chars(#[trigger] kinds[i]) == Some("admin"@);
        assert(kind_tier(opt_chars(kinds[i])) == TIER_ADMIN);
    }
}

/// A memory request is never under-counted: a non-negative byte count maps
/// to the least whole number of MiB that covers it.
pub proof fn law_memory_rounds_up(bytes: int)
    requires
        bytes >= 0,
    ensures
        spec_memory_bytes_to_mb(bytes) * MIB >= bytes,
        spec_memory_bytes_to_mb(bytes) == 0 || (spec_memory_bytes_to_mb(bytes) - 1) * MIB < bytes,
{
    let q = bytes / MIB as int;
    let r = bytes % MIB as int;
    assert(bytes == q * MIB + r && 0 <= r < MIB) by (nonlinear_arith)
        requires
            q == bytes / MIB as int,
            r == bytes % MIB as int,
            bytes >= 0,
    ;
    if r != 0 {
        assert((q + 1) * MIB == q * MIB + MIB) by (nonlinear_arith);
    }
}

/// The effective ceiling is unlimited (`-1`) exactly when some source is
/// unlimited (a negative personal ceiling, a `NULL` or negative group
/// ceiling) or there is no source at all (no group and no personal
/// ceiling). In particular a user in no group with a personal ceiling
/// `d >= 0` gets exactly `d`.
pub proof fn law_ceiling_unlimited_only_from_an_unlimited_source(direct: Option<i32>, gs: Seq<GroupPolicy>)
    ensures
        effective_ceiling(direct, gs) == -1 <==> ((direct is None && gs.len() == 0) || (direct is Some
            && direct.unwrap() < 0) || exists|i: int|
            0 <= i < gs.len() && ((#[trigger] gs[i]).max_instances is None || gs[i].max_instances.unwrap()
                < 0)),
        forall|d: i32| direct == Some(d) && d >= 0 && gs.len() == 0 ==> effective_ceiling(direct, gs) == d,
{
    lemma_max_finite_ceiling(gs);
    assert(gs.len() == 0 ==> max_finite_ceiling(gs) == 0);
}

} // verus!
