//! The decisions of the check-and-reserve activation of an instance: the
//! billing context of the launch (the charged group's pool, or an unlimited
//! self-bill) and the pre-flight run on it under the row locks, the
//! one-persistent-instance-per-template-and-owner rule, the auto-name and
//! number of a new instance, and the sanity checks of a restart. The
//! role-quota gate of the allocation-mode pipeline stands here too. The
//! transaction itself (locks, queries, insert or status flip) is performed
//! by the caller.

use vstd::prelude::*;

use crate::auth::Role;
use crate::effective_context::{
    pre_flight, spec_pre_flight, EffectiveContext, PreflightReject, QuotaContext, ResourceUse,
    TemplateVisibility,
};
use crate::quota::{
    check, resolve_effective_quota, spec_check, role_default, or_default, AllocationMode, CheckInputs,
    HostCapacity, Quota, QuotaOverride, QuotaViolation,
};
use crate::text::{decimal, owned, push_decimal, push_str, str_eq};

verus! {

/// CPU cores / RAM bytes summed over a set of active instances.
#[derive(Debug, Clone, Copy, PartialEq, Eq, Default, Structural)]
pub struct ActiveResources {
    pub cpu_cores: i32,
    pub ram_bytes: i64,
}

/// The stored name of an allocation mode.
pub open spec fn allocation_mode_name(mode: AllocationMode) -> Seq<char> {
    match mode {
        AllocationMode::Dedicated => "dedicated"@,
        AllocationMode::Shared => "shared"@,
    }
}

/// The stored name of an allocation mode.
pub fn allocation_mode_str(mode: AllocationMode) -> (r: &'static str)
    ensures
        r@ == allocation_mode_name(mode),
{
    match mode {
        AllocationMode::Dedicated => "dedicated",
        AllocationMode::Shared => "shared",
    }
}

/// The allocation mode a template stores; any other name is refused with
/// `unknown allocation_mode: <name>`.
pub fn parse_allocation_mode(s: &str) -> (r: Result<AllocationMode, String>)
    ensures
        match r {
            Ok(m) => allocation_mode_name(m) == s@,
            Err(e) => e@ == "unknown allocation_mode: "@ + s@ && s@ != "dedicated"@ && s@
                != "shared"@,
        },
{
    if str_eq(s, "dedicated") {
        Ok(AllocationMode::Dedicated)
    } else if str_eq(s, "shared") {
        Ok(AllocationMode::Shared)
    } else {
        let mut e = String::new();
        push_str(&mut e, "unknown allocation_mode: ");
        push_str(&mut e, s);
        Err(e)
    }
}

/// What the reservation should do.
#[derive(Debug, Clone)]
pub enum ActivationKind {
    /// Insert a fresh instance row with status `starting` (a new launch).
    Launch(LaunchPayload),
    /// Flip an existing row back to status `starting` (a restart).
    Restart { instance_id: u128 },
}

/// The instance-row columns supplied by the caller of a launch.
#[derive(Debug, Clone)]
pub struct LaunchPayload {
    pub mount_persistent: bool,
    pub resolved_volume_host_path: Option<String>,
}

/// Why an activation did not commit.
#[derive(Debug, Clone)]
pub enum ActivationError {
    /// The pre-flight policy rejected the request.
    Rejected(PreflightReject),
    /// The quota policy rejected the request.
    Quota(QuotaViolation),
    /// A domain conflict inside the transaction (the persistent-instance
    /// uniqueness rule).
    Conflict(String),
    /// A database error, with its message.
    Db(String),
}

/// The host limits read from the settings row under its lock.
#[derive(Debug, Clone, Copy, PartialEq, Eq, Structural)]
pub struct HostLimits {
    pub capacity: HostCapacity,
    pub host_instance_limit: i32,
    pub shared_max_cpu: i32,
    pub shared_max_ram: i64,
}

/// The active-set counters gathered under the locks.
#[derive(Debug, Clone, Copy, PartialEq, Eq, Structural)]
pub struct ActiveCounters {
    pub user_active_instances: i32,
    pub host_active_instances: i32,
    pub user: ActiveResources,
    pub dedicated: ActiveResources,
    pub shared: ActiveResources,
}

/// The quota inputs of an activation.
pub open spec fn activation_inputs(
    mode: AllocationMode,
    cores: i32,
    memory: i64,
    quota: Quota,
    host: HostLimits,
    counters: ActiveCounters,
) -> CheckInputs {
    CheckInputs {
        mode,
        requested_cores: cores,
        requested_ram_bytes: memory,
        effective_quota: quota,
        host_capacity: host.capacity,
        host_instance_limit: host.host_instance_limit,
        shared_max_cpu: host.shared_max_cpu,
        shared_max_ram: host.shared_max_ram,
        user_active_instances: counters.user_active_instances,
        user_active_cpu: counters.user.cpu_cores,
        user_active_ram: counters.user.ram_bytes,
        host_active_instances: counters.host_active_instances,
        host_dedicated_active_cpu: counters.dedicated.cpu_cores,
        host_dedicated_active_ram: counters.dedicated.ram_bytes,
        host_shared_active_cpu: counters.shared.cpu_cores,
        host_shared_active_ram: counters.shared.ram_bytes,
    }
}

/// The role-quota gate of the allocation-mode activation pipeline: the
/// template's allocation mode must be known, then the user's effective
/// quota (overrides over the role default) is checked against the gathered
/// counters and host limits.
pub fn quota_gate(
    allocation_mode: &str,
    cores: i32,
    memory: i64,
    overrides: QuotaOverride,
    role: Role,
    host: HostLimits,
    counters: ActiveCounters,
) -> (r: Result<(), ActivationError>)
    ensures
        match r {
            Ok(()) => exists|m: AllocationMode|
                allocation_mode_name(m) == allocation_mode@ && #[trigger] spec_check(
                    activation_inputs(
                        m,
                        cores,
                        memory,
                        Quota {
                            exempt: role_default(role).exempt,
                            instance_limit: or_default(
                                overrides.instance_limit,
                                role_default(role).instance_limit,
                            ),
                            max_cpu_cores: or_default(
                                overrides.max_cpu_cores,
                                role_default(role).max_cpu_cores,
                            ),
                            max_ram_bytes: or_default(
                                overrides.max_ram_bytes,
                                role_default(role).max_ram_bytes,
                            ),
                        },
                        host,
                        counters,
                    ),
                ) is Ok,
            Err(ActivationError::Db(e)) => e@ == "unknown allocation_mode: "@ + allocation_mode@
                && allocation_mode@ != "dedicated"@ && allocation_mode@ != "shared"@,
            Err(ActivationError::Quota(v)) => exists|m: AllocationMode|
                allocation_mode_name(m) == allocation_mode@ && #[trigger] spec_check(
                    activation_inputs(
                        m,
                        cores,
                        memory,
                        Quota {
                            exempt: role_default(role).exempt,
                            instance_limit: or_default(
                                overrides.instance_limit,
                                role_default(role).instance_limit,
                            ),
                            max_cpu_cores: or_default(
                                overrides.max_cpu_cores,
                                role_default(role).max_cpu_cores,
                            ),
                            max_ram_bytes: or_default(
                                overrides.max_ram_bytes,
                                role_default(role).max_ram_bytes,
                            ),
                        },
                        host,
                        counters,
                    ),
                ) == Err::<(), QuotaViolation>(v),
            Err(_) => false,
        },
{
    let mode = match parse_allocation_mode(allocation_mode) {
        Ok(m) => m,
        Err(e) => return Err(ActivationError::Db(e)),
    };
    let quota = resolve_effective_quota(overrides, role);
    let inputs = CheckInputs {
        mode,
        requested_cores: cores,
        requested_ram_bytes: memory,
        effective_quota: quota,
        host_capacity: host.capacity,
        host_instance_limit: host.host_instance_limit,
        shared_max_cpu: host.shared_max_cpu,
        shared_max_ram: host.shared_max_ram,
        user_active_instances: counters.user_active_instances,
        user_active_cpu: counters.user.cpu_cores,
        user_active_ram: counters.user.ram_bytes,
        host_active_instances: counters.host_active_instances,
        host_dedicated_active_cpu: counters.dedicated.cpu_cores,
        host_dedicated_active_ram: counters.dedicated.ram_bytes,
        host_shared_active_cpu: counters.shared.cpu_cores,
        host_shared_active_ram: counters.shared.ram_bytes,
    };
    assert(inputs == activation_inputs(mode, cores, memory, quota, host, counters));
    match check(&inputs) {
        Ok(()) => Ok(()),
        Err(v) => Err(ActivationError::Quota(v)),
    }
}

/// The persistent-instance uniqueness rule of a launch, given the status of
/// the owner's existing persistent instance of the template (if any): none
/// frees the slot, a stale `error` one is replaced (`Ok(true)`), any other
/// is a conflict.
pub fn persistent_slot(existing_status: Option<&str>) -> (r: Result<bool, ActivationError>)
    ensures
        match existing_status {
            None => r matches Ok(false),
            Some(st) => if st@ == "error"@ {
                r matches Ok(true)
            } else {
                r is Err && r->Err_0 is Conflict && r->Err_0->Conflict_0@
                    == "An instance with persistent storage already exists for this template and user"@
            },
        },
{
    match existing_status {
        None => Ok(false),
        Some(st) => {
            if str_eq(st, "error") {
                Ok(true)
            } else {
                Err(
                    ActivationError::Conflict(
                        owned(
                            "An instance with persistent storage already exists for this template and user",
                        ),
                    ),
                )
            }
        },
    }
}

/// The next instance number of a template: the current maximum plus one,
/// `1` for the first.
pub fn next_instance_number(current_max: Option<i32>) -> (r: i32)
    requires
        current_max != Some(i32::MAX),
    ensures
        r == match current_max {
            Some(m) => m + 1,
            None => 1,
        },
{
    match current_max {
        Some(m) => m + 1,
        None => 1,
    }
}

/// `n` in decimal with a leading `-` when negative.
pub open spec fn signed_text(n: int) -> Seq<char> {
    if n < 0 {
        seq!['-'] + decimal((-n) as nat)
    } else {
        decimal(n as nat)
    }
}

/// The auto-name of an instance: `<template>-<number>`.
pub fn instance_name(template_name: &str, instance_number: i32) -> (r: String)
    ensures
        r@ == template_name@ + seq!['-'] + signed_text(instance_number as int),
{
    let mut r = String::new();
    push_str(&mut r, template_name);
    crate::text::push_char(&mut r, '-');
    if instance_number < 0 {
        crate::text::push_char(&mut r, '-');
        push_decimal(&mut r, (0 - (instance_number as i64)) as u64);
    } else {
        push_decimal(&mut r, instance_number as u64);
    }
    assert(r@ =~= template_name@ + seq!['-'] + signed_text(instance_number as int));
    r
}

/// The sanity checks of a restart: the instance must be the user's own and
/// run the given template, or the accounting would be wrong.
pub fn restart_target_check(
    instance_owner: u128,
    instance_template: u128,
    user_id: u128,
    template_id: u128,
) -> (r: Result<(), ActivationError>)
    ensures
        instance_owner != user_id ==> r is Err && r->Err_0 is Db && r->Err_0->Db_0@
            == "instance does not belong to the user"@,
        instance_owner == user_id && instance_template != template_id ==> r is Err && r->Err_0 is Db
            && r->Err_0->Db_0@ == "instance template mismatch"@,
        instance_owner == user_id && instance_template == template_id ==> r is Ok,
{
    if instance_owner != user_id {
        return Err(ActivationError::Db(owned("instance does not belong to the user")));
    }
    if instance_template != template_id {
        return Err(ActivationError::Db(owned("instance template mismatch")));
    }
    Ok(())
}

/// Every resource unlimited (`-1`).
pub open spec fn unlimited() -> ResourceUse {
    ResourceUse { cpu_cores: -1i64, memory_mb: -1i64, gpu_count: -1i64 }
}

/// The message of an activation whose charged group's row is gone.
pub open spec fn missing_group_message() -> Seq<char> {
    "record not found: group"@
}

/// The billing context of an activation, from what was gathered under the
/// locks. A group-billed launch (`target_group_id` set) is checked against
/// the locked group row's pool (`locked_pool`; `None` when the row is gone,
/// which fails the activation) and the owner's member cap inside that group.
/// A self-billed launch has an unlimited pool and no member cap. Either way
/// `billed` is what the billing target already carries, and the host caps
/// and usage are passed through.
pub fn billing_context(
    target_group_id: Option<u128>,
    locked_pool: Option<ResourceUse>,
    billed: ResourceUse,
    member_quota: ResourceUse,
    member_used: ResourceUse,
    host_capacity: ResourceUse,
    host_used: ResourceUse,
) -> (r: Result<QuotaContext, ActivationError>)
    ensures
        match (target_group_id, locked_pool) {
            (Some(_), None) => r is Err && r->Err_0 is Db && r->Err_0->Db_0@ == missing_group_message(),
            (Some(g), Some(pool)) => r == Ok::<QuotaContext, ActivationError>(
                QuotaContext {
                    pool,
                    billed,
                    member_quota,
                    member_used,
                    host_capacity,
                    host_used,
                    target_group_id: Some(g),
                },
            ),
            (None, _) => r == Ok::<QuotaContext, ActivationError>(
                QuotaContext {
                    pool: unlimited(),
                    billed,
                    member_quota: unlimited(),
                    member_used: ResourceUse { cpu_cores: 0i64, memory_mb: 0i64, gpu_count: 0i64 },
                    host_capacity,
                    host_used,
                    target_group_id: None,
                },
            ),
        },
{
    match target_group_id {
        Some(g) => match locked_pool {
            None => Err(ActivationError::Db(owned("record not found: group"))),
            Some(pool) => Ok(
                QuotaContext {
                    pool,
                    billed,
                    member_quota,
                    member_used,
                    host_capacity,
                    host_used,
                    target_group_id: Some(g),
                },
            ),
        },
        None => Ok(
            QuotaContext {
                pool: ResourceUse { cpu_cores: -1, memory_mb: -1, gpu_count: -1 },
                billed,
                member_quota: ResourceUse { cpu_cores: -1, memory_mb: -1, gpu_count: -1 },
                member_used: ResourceUse { cpu_cores: 0i64, memory_mb: 0i64, gpu_count: 0i64 },
                host_capacity,
                host_used,
                target_group_id: None,
            },
        ),
    }
}

/// The pre-flight of an activation, run under the locks: `Ok` when the
/// launch fits, else the pre-flight's rejection as
/// `ActivationError::Rejected` (the transaction then rolls back).
pub fn activation_preflight(
    context: &EffectiveContext,
    host_active_count: i32,
    host_instance_limit: i32,
    template_id: u128,
    active_own_count: i32,
    template_visibility: TemplateVisibility,
    requested: &ResourceUse,
    billing: &QuotaContext,
) -> (r: Result<(), ActivationError>)
    ensures
        match spec_pre_flight(
            context.allowed_template_ids@,
            context.effective_max_instances,
            host_active_count,
            host_instance_limit,
            template_id,
            active_own_count,
            template_visibility,
            *requested,
            *billing,
        ) {
            Ok(()) => r is Ok,
            Err(reject) => r is Err && r->Err_0 is Rejected && r->Err_0->Rejected_0 == reject,
        },
{
    match pre_flight(
        context,
        host_active_count,
        host_instance_limit,
        template_id,
        active_own_count,
        template_visibility,
        requested,
        billing,
    ) {
        Ok(()) => Ok(()),
        Err(reject) => Err(ActivationError::Rejected(reject)),
    }
}

} // verus!
