//! Role-based pre-flight quota policy: the five-step accept-or-reject pipeline
//! over per-user and host-wide instance, CPU and RAM counters.
//!
//! 1. per-user instance count — skipped for an exempt (Admin) quota;
//! 2. host instance count — skipped when `host_instance_limit == 0`;
//! 3. per-user CPU then RAM — skipped for an exempt quota;
//! 4. host dedicated pool CPU then RAM — dedicated allocations only;
//! 5. host shared fuse CPU then RAM — shared allocations only, each half
//!    skipped when its cap is `0`.
//!
//! Sums saturate at the bounds of their integer type, as the counters do.

use vstd::prelude::*;

use crate::auth::Role;

verus! {

/// How a template's instances are accounted at the host level.
#[derive(Debug, Clone, Copy, PartialEq, Eq, Structural)]
pub enum AllocationMode {
    /// Hard reservation against the host's dedicated capacity.
    Dedicated,
    /// Overcommitted, guarded only by the optional shared fuse.
    Shared,
}

/// A per-user effective quota.
#[derive(Debug, Clone, Copy, PartialEq, Eq, Structural)]
pub struct Quota {
    /// Personal checks (steps 1 and 3) are skipped when set (Admin).
    pub exempt: bool,
    pub instance_limit: i32,
    pub max_cpu_cores: i32,
    pub max_ram_bytes: i64,
}

/// A user's optional per-field override on top of the role default.
#[derive(Debug, Clone, Copy, Default, PartialEq, Eq, Structural)]
pub struct QuotaOverride {
    pub instance_limit: Option<i32>,
    pub max_cpu_cores: Option<i32>,
    pub max_ram_bytes: Option<i64>,
}

/// Total allocatable CPU/RAM of the host (the dedicated pool's budget).
#[derive(Debug, Clone, Copy, PartialEq, Eq, Structural)]
pub struct HostCapacity {
    pub max_cpu_cores: i32,
    pub max_ram_bytes: i64,
}

/// The scope of a quota rejection.
#[derive(Debug, Clone, Copy, PartialEq, Eq, Structural)]
pub enum QuotaScope {
    UserInstance,
    UserCpu,
    UserRam,
    HostInstance,
    HostDedicatedCpu,
    HostDedicatedRam,
    HostSharedCpu,
    HostSharedRam,
}

/// The reason a request was rejected.
#[derive(Debug, Clone, Copy, PartialEq, Eq, Structural)]
pub struct QuotaViolation {
    pub scope: QuotaScope,
    /// Usage already held when the check ran.
    pub current: i64,
    /// The limit the request would exceed.
    pub limit: i64,
    /// The amount this request would add.
    pub requested: i64,
}

/// All plain values `check` needs.
#[derive(Debug, Clone, Copy, PartialEq, Eq, Structural)]
pub struct CheckInputs {
    pub mode: AllocationMode,
    pub requested_cores: i32,
    pub requested_ram_bytes: i64,
    pub effective_quota: Quota,
    pub host_capacity: HostCapacity,
    /// `0` disables step 2.
    pub host_instance_limit: i32,
    /// `0` disables the shared CPU check.
    pub shared_max_cpu: i32,
    /// `0` disables the shared RAM check.
    pub shared_max_ram: i64,
    pub user_active_instances: i32,
    pub user_active_cpu: i32,
    pub user_active_ram: i64,
    pub host_active_instances: i32,
    pub host_dedicated_active_cpu: i32,
    pub host_dedicated_active_ram: i64,
    pub host_shared_active_cpu: i32,
    pub host_shared_active_ram: i64,
}

/// One GiB, the unit role-default RAM quotas are expressed in.
pub const GIB: i64 = 1073741824;

/// Role-default RAM quota of a `user`: 8 GiB.
pub const USER_DEFAULT_RAM: i64 = 8589934592;

/// Role-default RAM quota of a `manager`: 32 GiB.
pub const MANAGER_DEFAULT_RAM: i64 = 34359738368;

/// The role defaults: `user` = 2 instances / 4 cores / 8 GiB, `manager` =
/// 5 / 12 / 32 GiB, `admin` = exempt with zero numbers.
pub open spec fn role_default(role: Role) -> Quota {
    match role {
        Role::Admin => Quota { exempt: true, instance_limit: 0, max_cpu_cores: 0, max_ram_bytes: 0 },
        Role::Manager => Quota {
            exempt: false,
            instance_limit: 5,
            max_cpu_cores: 12,
            max_ram_bytes: MANAGER_DEFAULT_RAM,
        },
        Role::User => Quota {
            exempt: false,
            instance_limit: 2,
            max_cpu_cores: 4,
            max_ram_bytes: USER_DEFAULT_RAM,
        },
    }
}

pub open spec fn or_default<T>(o: Option<T>, d: T) -> T {
    match o {
        Some(v) => v,
        None => d,
    }
}

/// Resolve a user's effective quota: each `Some` override field wins over the
/// role default, each `None` inherits it; exemption always comes from the
/// role.
pub fn resolve_effective_quota(override_: QuotaOverride, role: Role) -> (q: Quota)
    ensures
        q.exempt == role_default(role).exempt,
        q.instance_limit == or_default(override_.instance_limit, role_default(role).instance_limit),
        q.max_cpu_cores == or_default(override_.max_cpu_cores, role_default(role).max_cpu_cores),
        q.max_ram_bytes == or_default(override_.max_ram_bytes, role_default(role).max_ram_bytes),
{
    let base = match role {
        Role::Admin => Quota { exempt: true, instance_limit: 0, max_cpu_cores: 0, max_ram_bytes: 0 },
        Role::Manager => Quota {
            exempt: false,
            instance_limit: 5,
            max_cpu_cores: 12,
            max_ram_bytes: MANAGER_DEFAULT_RAM,
        },
        Role::User => Quota {
            exempt: false,
            instance_limit: 2,
            max_cpu_cores: 4,
            max_ram_bytes: USER_DEFAULT_RAM,
        },
    };
    Quota {
        exempt: base.exempt,
        instance_limit: match override_.instance_limit {
            Some(v) => v,
            None => base.instance_limit,
        },
        max_cpu_cores: match override_.max_cpu_cores {
            Some(v) => v,
            None => base.max_cpu_cores,
        },
        max_ram_bytes: match override_.max_ram_bytes {
            Some(v) => v,
            None => base.max_ram_bytes,
        },
    }
}

/// `i32::saturating_add` on mathematical integers.
pub open spec fn sat32(x: int) -> int {
    if x > i32::MAX {
        i32::MAX as int
    } else if x < i32::MIN {
        i32::MIN as int
    } else {
        x
    }
}

/// `i64::saturating_add` on mathematical integers.
pub open spec fn sat64(x: int) -> int {
    if x > i64::MAX {
        i64::MAX as int
    } else if x < i64::MIN {
        i64::MIN as int
    } else {
        x
    }
}

fn sat_add32(a: i32, b: i32) -> (r: i32)
    ensures
        r == sat32(a + b),
{
    let x = a as i64 + b as i64;
    if x > i32::MAX as i64 {
        i32::MAX
    } else if x < i32::MIN as i64 {
        i32::MIN
    } else {
        x as i32
    }
}

fn sat_add64(a: i64, b: i64) -> (r: i64)
    ensures
        r == sat64(a + b),
{
    let x = a as i128 + b as i128;
    if x > i64::MAX as i128 {
        i64::MAX
    } else if x < i64::MIN as i128 {
        i64::MIN
    } else {
        x as i64
    }
}

pub open spec fn violation(scope: QuotaScope, current: int, limit: int, requested: int) -> Result<
    (),
    QuotaViolation,
> {
    Err(
        QuotaViolation {
            scope,
            current: current as i64,
            limit: limit as i64,
            requested: requested as i64,
        },
    )
}

/// The five-step pipeline: the first failing check, in fixed order.
pub open spec fn spec_check(i: CheckInputs) -> Result<(), QuotaViolation> {
    let q = i.effective_quota;
    if !q.exempt && sat32(i.user_active_instances + 1) > q.instance_limit {
        violation(QuotaScope::UserInstance, i.user_active_instances as int, q.instance_limit as int, 1)
    } else if i.host_instance_limit > 0 && sat32(i.host_active_instances + 1) > i.host_instance_limit {
        violation(
            QuotaScope::HostInstance,
            i.host_active_instances as int,
            i.host_instance_limit as int,
            1,
        )
    } else if !q.exempt && sat32(i.user_active_cpu + i.requested_cores) > q.max_cpu_cores {
        violation(
            QuotaScope::UserCpu,
            i.user_active_cpu as int,
            q.max_cpu_cores as int,
            i.requested_cores as int,
        )
    } else if !q.exempt && sat64(i.user_active_ram + i.requested_ram_bytes) > q.max_ram_bytes {
        violation(
            QuotaScope::UserRam,
            i.user_active_ram as int,
            q.max_ram_bytes as int,
            i.requested_ram_bytes as int,
        )
    } else if i.mode == AllocationMode::Dedicated && sat32(
        i.host_dedicated_active_cpu + i.requested_cores,
    ) > i.host_capacity.max_cpu_cores {
        violation(
            QuotaScope::HostDedicatedCpu,
            i.host_dedicated_active_cpu as int,
            i.host_capacity.max_cpu_cores as int,
            i.requested_cores as int,
        )
    } else if i.mode == AllocationMode::Dedicated && sat64(
        i.host_dedicated_active_ram + i.requested_ram_bytes,
    ) > i.host_capacity.max_ram_bytes {
        violation(
            QuotaScope::HostDedicatedRam,
            i.host_dedicated_active_ram as int,
            i.host_capacity.max_ram_bytes as int,
            i.requested_ram_bytes as int,
        )
    } else if i.mode == AllocationMode::Shared && i.shared_max_cpu > 0 && sat32(
        i.host_shared_active_cpu + i.requested_cores,
    ) > i.shared_max_cpu {
        violation(
            QuotaScope::HostSharedCpu,
            i.host_shared_active_cpu as int,
            i.shared_max_cpu as int,
            i.requested_cores as int,
        )
    } else if i.mode == AllocationMode::Shared && i.shared_max_ram > 0 && sat64(
        i.host_shared_active_ram + i.requested_ram_bytes,
    ) > i.shared_max_ram {
        violation(
            QuotaScope::HostSharedRam,
            i.host_shared_active_ram as int,
            i.shared_max_ram as int,
            i.requested_ram_bytes as int,
        )
    } else {
        Ok(())
    }
}

/// Run the five-step pre-flight pipeline; `Ok` when the request fits, else
/// the first violation in step order.
pub fn check(inputs: &CheckInputs) -> (r: Result<(), QuotaViolation>)
    ensures
        r == spec_check(*inputs),
{
    let quota = &inputs.effective_quota;
    if !quota.exempt {
        let current = inputs.user_active_instances;
        let limit = quota.instance_limit;
        if sat_add32(current, 1) > limit {
            return Err(
                QuotaViolation {
                    scope: QuotaScope::UserInstance,
                    current: current as i64,
                    limit: limit as i64,
                    requested: 1,
                },
            );
        }
    }
    if inputs.host_instance_limit > 0 {
        let current = inputs.host_active_instances;
        let limit = inputs.host_instance_limit;
        if sat_add32(current, 1) > limit {
            return Err(
                QuotaViolation {
                    scope: QuotaScope::HostInstance,
                    current: current as i64,
                    limit: limit as i64,
                    requested: 1,
                },
            );
        }
    }
    if !quota.exempt {
        if sat_add32(inputs.user_active_cpu, inputs.requested_cores) > quota.max_cpu_cores {
            return Err(
                QuotaViolation {
                    scope: QuotaScope::UserCpu,
                    current: inputs.user_active_cpu as i64,
                    limit: quota.max_cpu_cores as i64,
                    requested: inputs.requested_cores as i64,
                },
            );
        }
        if sat_add64(inputs.user_active_ram, inputs.requested_ram_bytes) > quota.max_ram_bytes {
            return Err(
                QuotaViolation {
                    scope: QuotaScope::UserRam,
                    current: inputs.user_active_ram,
                    limit: quota.max_ram_bytes,
                    requested: inputs.requested_ram_bytes,
                },
            );
        }
    }
    if inputs.mode == AllocationMode::Dedicated {
        let capacity = &inputs.host_capacity;
        if sat_add32(inputs.host_dedicated_active_cpu, inputs.requested_cores)
            > capacity.max_cpu_cores {
            return Err(
                QuotaViolation {
                    scope: QuotaScope::HostDedicatedCpu,
                    current: inputs.host_dedicated_active_cpu as i64,
                    limit: capacity.max_cpu_cores as i64,
                    requested: inputs.requested_cores as i64,
                },
            );
        }
        if sat_add64(inputs.host_dedicated_active_ram, inputs.requested_ram_bytes)
            > capacity.max_ram_bytes {
            return Err(
                QuotaViolation {
                    scope: QuotaScope::HostDedicatedRam,
                    current: inputs.host_dedicated_active_ram,
                    limit: capacity.max_ram_bytes,
                    requested: inputs.requested_ram_bytes,
                },
            );
        }
    }
    if inputs.mode == AllocationMode::Shared {
        if inputs.shared_max_cpu > 0 && sat_add32(
            inputs.host_shared_active_cpu,
            inputs.requested_cores,
        ) > inputs.shared_max_cpu {
            return Err(
                QuotaViolation {
                    scope: QuotaScope::HostSharedCpu,
                    current: inputs.host_shared_active_cpu as i64,
                    limit: inputs.shared_max_cpu as i64,
                    requested: inputs.requested_cores as i64,
                },
            );
        }
        if inputs.shared_max_ram > 0 && sat_add64(
            inputs.host_shared_active_ram,
            inputs.requested_ram_bytes,
        ) > inputs.shared_max_ram {
            return Err(
                QuotaViolation {
                    scope: QuotaScope::HostSharedRam,
                    current: inputs.host_shared_active_ram,
                    limit: inputs.shared_max_ram,
                    requested: inputs.requested_ram_bytes,
                },
            );
        }
    }
    Ok(())
}

/// An exempt (Admin) quota is never refused on a personal scope: only the
/// global instance count, the dedicated pool and the shared fuse can stop
/// an Admin.
pub proof fn law_exempt_quota_skips_personal_checks(i: CheckInputs)
    requires
        i.effective_quota.exempt,
    ensures
        spec_check(i) matches Err(v) ==> v.scope != QuotaScope::UserInstance && v.scope
            != QuotaScope::UserCpu && v.scope != QuotaScope::UserRam,
{
}

/// A refusal always reports a current usage and a request whose (saturated)
/// sum exceeds the reported limit.
pub proof fn law_violation_reports_exceeded_limit(i: CheckInputs)
    ensures
        spec_check(i) matches Err(v) ==> sat64(v.current + v.requested) > v.limit,
{
}

/// A dedicated request never trips the shared fuse and a shared request never
/// draws on the dedicated pool.
pub proof fn law_modes_use_separate_host_budgets(i: CheckInputs)
    ensures
        i.mode == AllocationMode::Dedicated ==> !(spec_check(i) matches Err(v) && (v.scope
            == QuotaScope::HostSharedCpu || v.scope == QuotaScope::HostSharedRam)),
        i.mode == AllocationMode::Shared ==> !(spec_check(i) matches Err(v) && (v.scope
            == QuotaScope::HostDedicatedCpu || v.scope == QuotaScope::HostDedicatedRam)),
{
}

/// An admitted request fits every limit that applies to it: the personal
/// instance, CPU and RAM ceilings (unless exempt), the host instance ceiling
/// (when set), and the budget of its own pool: the dedicated capacity, or
/// each enabled shared fuse.
pub proof fn law_admitted_request_fits_every_limit(i: CheckInputs)
    requires
        spec_check(i) is Ok,
    ensures
        !i.effective_quota.exempt ==> {
            &&& sat32(i.user_active_instances + 1) <= i.effective_quota.instance_limit
            &&& sat32(i.user_active_cpu + i.requested_cores) <= i.effective_quota.max_cpu_cores
            &&& sat64(i.user_active_ram + i.requested_ram_bytes) <= i.effective_quota.max_ram_bytes
        },
        i.host_instance_limit > 0 ==> sat32(i.host_active_instances + 1) <= i.host_instance_limit,
        i.mode == AllocationMode::Dedicated ==> {
            &&& sat32(i.host_dedicated_active_cpu + i.requested_cores) <= i.host_capacity.max_cpu_cores
            &&& sat64(i.host_dedicated_active_ram + i.requested_ram_bytes) <= i.host_capacity.max_ram_bytes
        },
        i.mode == AllocationMode::Shared ==> {
            &&& i.shared_max_cpu > 0 ==> sat32(i.host_shared_active_cpu + i.requested_cores) <= i.shared_max_cpu
            &&& i.shared_max_ram > 0 ==> sat64(i.host_shared_active_ram + i.requested_ram_bytes) <= i.shared_max_ram
        },
{
}

} // verus!
