use openworkspace_api::auth::Role;
use openworkspace_api::quota::{
    check, resolve_effective_quota, AllocationMode, CheckInputs, HostCapacity, Quota, QuotaOverride,
    QuotaScope, QuotaViolation, GIB, MANAGER_DEFAULT_RAM, USER_DEFAULT_RAM,
};

fn quota(instance_limit: i32, max_cpu_cores: i32, max_ram_bytes: i64) -> Quota {
    Quota {
        exempt: false,
        instance_limit,
        max_cpu_cores,
        max_ram_bytes,
    }
}

fn exempt() -> Quota {
    Quota {
        exempt: true,
        instance_limit: 0,
        max_cpu_cores: 0,
        max_ram_bytes: 0,
    }
}

/// A request that fits comfortably under every limit; individual tests
/// nudge one field at a time.
fn base() -> CheckInputs {
    CheckInputs {
        mode: AllocationMode::Shared,
        requested_cores: 1,
        requested_ram_bytes: GIB,
        effective_quota: quota(10, 16, 64 * GIB),
        host_capacity: HostCapacity {
            max_cpu_cores: 32,
            max_ram_bytes: 128 * GIB,
        },
        host_instance_limit: 20,
        shared_max_cpu: 16,
        shared_max_ram: 64 * GIB,
        user_active_instances: 0,
        user_active_cpu: 0,
        user_active_ram: 0,
        host_active_instances: 0,
        host_dedicated_active_cpu: 0,
        host_dedicated_active_ram: 0,
        host_shared_active_cpu: 0,
        host_shared_active_ram: 0,
    }
}

#[test]
fn everything_under_limits_passes() {
    assert_eq!(check(&base()), Ok(()));
}

#[test]
fn user_instance_at_limit_passes() {
    let mut i = base();
    i.user_active_instances = i.effective_quota.instance_limit - 1;
    assert_eq!(check(&i), Ok(()));
}

#[test]
fn user_instance_over_limit_rejects_with_scope_and_numbers() {
    let mut i = base();
    i.user_active_instances = i.effective_quota.instance_limit;
    assert_eq!(
        check(&i),
        Err(QuotaViolation {
            scope: QuotaScope::UserInstance,
            current: 10,
            limit: 10,
            requested: 1,
        })
    );
}

#[test]
fn host_instance_at_limit_passes() {
    let mut i = base();
    i.host_active_instances = i.host_instance_limit - 1;
    assert_eq!(check(&i), Ok(()));
}

#[test]
fn host_instance_over_limit_rejects() {
    let mut i = base();
    i.host_active_instances = i.host_instance_limit;
    assert_eq!(
        check(&i),
        Err(QuotaViolation {
            scope: QuotaScope::HostInstance,
            current: 20,
            limit: 20,
            requested: 1,
        })
    );
}

#[test]
fn user_cpu_at_limit_passes() {
    let mut i = base();
    i.user_active_cpu = i.effective_quota.max_cpu_cores - i.requested_cores;
    assert_eq!(check(&i), Ok(()));
}

#[test]
fn user_cpu_over_limit_rejects() {
    let mut i = base();
    i.user_active_cpu = i.effective_quota.max_cpu_cores;
    assert_eq!(
        check(&i),
        Err(QuotaViolation {
            scope: QuotaScope::UserCpu,
            current: 16,
            limit: 16,
            requested: 1,
        })
    );
}

#[test]
fn user_ram_at_limit_passes() {
    let mut i = base();
    i.user_active_ram = i.effective_quota.max_ram_bytes - i.requested_ram_bytes;
    assert_eq!(check(&i), Ok(()));
}

#[test]
fn user_ram_over_limit_rejects() {
    let mut i = base();
    i.user_active_ram = i.effective_quota.max_ram_bytes;
    assert_eq!(
        check(&i),
        Err(QuotaViolation {
            scope: QuotaScope::UserRam,
            current: 64 * GIB,
            limit: 64 * GIB,
            requested: GIB,
        })
    );
}

#[test]
fn dedicated_cpu_at_limit_passes() {
    let mut i = base();
    i.mode = AllocationMode::Dedicated;
    i.host_dedicated_active_cpu = i.host_capacity.max_cpu_cores - i.requested_cores;
    assert_eq!(check(&i), Ok(()));
}

#[test]
fn dedicated_cpu_over_limit_rejects() {
    let mut i = base();
    i.mode = AllocationMode::Dedicated;
    i.host_dedicated_active_cpu = i.host_capacity.max_cpu_cores;
    assert_eq!(
        check(&i),
        Err(QuotaViolation {
            scope: QuotaScope::HostDedicatedCpu,
            current: 32,
            limit: 32,
            requested: 1,
        })
    );
}

#[test]
fn dedicated_ram_at_limit_passes() {
    let mut i = base();
    i.mode = AllocationMode::Dedicated;
    i.host_dedicated_active_ram = i.host_capacity.max_ram_bytes - i.requested_ram_bytes;
    assert_eq!(check(&i), Ok(()));
}

#[test]
fn dedicated_ram_over_limit_rejects() {
    let mut i = base();
    i.mode = AllocationMode::Dedicated;
    i.host_dedicated_active_ram = i.host_capacity.max_ram_bytes;
    assert_eq!(
        check(&i),
        Err(QuotaViolation {
            scope: QuotaScope::HostDedicatedRam,
            current: 128 * GIB,
            limit: 128 * GIB,
            requested: GIB,
        })
    );
}

#[test]
fn shared_cpu_at_limit_passes() {
    let mut i = base();
    i.host_shared_active_cpu = i.shared_max_cpu - i.requested_cores;
    assert_eq!(check(&i), Ok(()));
}

#[test]
fn shared_cpu_over_limit_rejects() {
    let mut i = base();
    i.host_shared_active_cpu = i.shared_max_cpu;
    assert_eq!(
        check(&i),
        Err(QuotaViolation {
            scope: QuotaScope::HostSharedCpu,
            current: 16,
            limit: 16,
            requested: 1,
        })
    );
}

#[test]
fn shared_ram_at_limit_passes() {
    let mut i = base();
    i.host_shared_active_ram = i.shared_max_ram - i.requested_ram_bytes;
    assert_eq!(check(&i), Ok(()));
}

#[test]
fn shared_ram_over_limit_rejects() {
    let mut i = base();
    i.host_shared_active_ram = i.shared_max_ram;
    assert_eq!(
        check(&i),
        Err(QuotaViolation {
            scope: QuotaScope::HostSharedRam,
            current: 64 * GIB,
            limit: 64 * GIB,
            requested: GIB,
        })
    );
}

#[test]
fn exempt_admin_skips_all_personal_checks() {
    let mut i = base();
    i.effective_quota = exempt();
    i.user_active_instances = 1000;
    i.user_active_cpu = 1000;
    i.user_active_ram = 1000 * GIB;
    assert_eq!(check(&i), Ok(()));
}

#[test]
fn exempt_admin_global_instance_limit_still_enforced() {
    let mut i = base();
    i.effective_quota = exempt();
    i.user_active_instances = 1000;
    i.host_active_instances = i.host_instance_limit;
    assert_eq!(check(&i).unwrap_err().scope, QuotaScope::HostInstance);
}

#[test]
fn exempt_admin_dedicated_pool_still_enforced() {
    let mut i = base();
    i.effective_quota = exempt();
    i.mode = AllocationMode::Dedicated;
    i.user_active_cpu = 1000;
    i.host_dedicated_active_cpu = i.host_capacity.max_cpu_cores;
    assert_eq!(
        check(&i).unwrap_err().scope,
        QuotaScope::HostDedicatedCpu
    );
}

#[test]
fn exempt_admin_shared_fuse_still_enforced() {
    let mut i = base();
    i.effective_quota = exempt();
    i.user_active_ram = 1000 * GIB;
    i.host_shared_active_ram = i.shared_max_ram;
    assert_eq!(check(&i).unwrap_err().scope, QuotaScope::HostSharedRam);
}

#[test]
fn zero_host_instance_limit_skips_global_count() {
    let mut i = base();
    i.host_instance_limit = 0;
    i.host_active_instances = 1000;
    assert_eq!(check(&i), Ok(()));
}

#[test]
fn zero_host_instance_limit_keeps_per_user_check() {
    let mut i = base();
    i.host_instance_limit = 0;
    i.user_active_instances = i.effective_quota.instance_limit;
    assert_eq!(check(&i).unwrap_err().scope, QuotaScope::UserInstance);
}

#[test]
fn disabled_shared_fuse_skips_both_checks() {
    let mut i = base();
    i.shared_max_cpu = 0;
    i.shared_max_ram = 0;
    i.host_shared_active_cpu = 1000;
    i.host_shared_active_ram = 1000 * GIB;
    assert_eq!(check(&i), Ok(()));
}

#[test]
fn shared_fuse_field_off_skips_only_that_field() {
    let mut i = base();
    i.shared_max_cpu = 0;
    i.shared_max_ram = 16 * GIB;
    i.host_shared_active_cpu = 1000;
    i.host_shared_active_ram = 15 * GIB;
    assert_eq!(check(&i), Ok(()));
    i.host_shared_active_ram = 16 * GIB;
    assert_eq!(check(&i).unwrap_err().scope, QuotaScope::HostSharedRam);
}

#[test]
fn shared_mode_skips_dedicated_pool() {
    let mut i = base();
    i.mode = AllocationMode::Shared;
    i.host_dedicated_active_cpu = i.host_capacity.max_cpu_cores;
    i.host_dedicated_active_ram = i.host_capacity.max_ram_bytes;
    assert_eq!(check(&i), Ok(()));
}

#[test]
fn dedicated_mode_skips_shared_fuse() {
    let mut i = base();
    i.mode = AllocationMode::Dedicated;
    i.host_shared_active_cpu = 1000;
    i.host_shared_active_ram = 1000 * GIB;
    assert_eq!(check(&i), Ok(()));
}

#[test]
fn earlier_step_wins_over_later_step() {
    let mut i = base();
    i.user_active_instances = i.effective_quota.instance_limit;
    i.host_active_instances = i.host_instance_limit;
    assert_eq!(check(&i).unwrap_err().scope, QuotaScope::UserInstance);

    let mut i = base();
    i.host_active_instances = i.host_instance_limit;
    i.user_active_cpu = i.effective_quota.max_cpu_cores;
    assert_eq!(check(&i).unwrap_err().scope, QuotaScope::HostInstance);
}

#[test]
fn user_cpu_checked_before_user_ram() {
    let mut i = base();
    i.user_active_cpu = i.effective_quota.max_cpu_cores;
    i.user_active_ram = i.effective_quota.max_ram_bytes;
    assert_eq!(check(&i).unwrap_err().scope, QuotaScope::UserCpu);
}

#[test]
fn user_ram_fires_when_cpu_fits() {
    let mut i = base();
    i.user_active_ram = i.effective_quota.max_ram_bytes;
    assert_eq!(check(&i).unwrap_err().scope, QuotaScope::UserRam);
}

#[test]
fn dedicated_cpu_checked_before_dedicated_ram() {
    let mut i = base();
    i.mode = AllocationMode::Dedicated;
    i.host_dedicated_active_cpu = i.host_capacity.max_cpu_cores;
    i.host_dedicated_active_ram = i.host_capacity.max_ram_bytes;
    assert_eq!(check(&i).unwrap_err().scope, QuotaScope::HostDedicatedCpu);
}

#[test]
fn shared_cpu_checked_before_shared_ram() {
    let mut i = base();
    i.host_shared_active_cpu = i.shared_max_cpu;
    i.host_shared_active_ram = i.shared_max_ram;
    assert_eq!(check(&i).unwrap_err().scope, QuotaScope::HostSharedCpu);
}

#[test]
fn user_ram_wins_over_dedicated_pool() {
    let mut i = base();
    i.mode = AllocationMode::Dedicated;
    i.user_active_ram = i.effective_quota.max_ram_bytes;
    i.host_dedicated_active_ram = i.host_capacity.max_ram_bytes;
    assert_eq!(check(&i).unwrap_err().scope, QuotaScope::UserRam);
}

#[test]
fn user_defaults_match_spec() {
    let q = resolve_effective_quota(QuotaOverride::default(), Role::User);
    assert_eq!(
        q,
        Quota {
            exempt: false,
            instance_limit: 2,
            max_cpu_cores: 4,
            max_ram_bytes: USER_DEFAULT_RAM,
        }
    );
}

#[test]
fn manager_defaults_match_spec() {
    let q = resolve_effective_quota(QuotaOverride::default(), Role::Manager);
    assert_eq!(
        q,
        Quota {
            exempt: false,
            instance_limit: 5,
            max_cpu_cores: 12,
            max_ram_bytes: MANAGER_DEFAULT_RAM,
        }
    );
}

#[test]
fn admin_is_personally_exempt() {
    let q = resolve_effective_quota(QuotaOverride::default(), Role::Admin);
    assert!(q.exempt);
}

#[test]
fn override_wins_per_field_and_none_inherits() {
    let q = resolve_effective_quota(
        QuotaOverride {
            instance_limit: Some(7),
            max_cpu_cores: None,
            max_ram_bytes: Some(16 * GIB),
        },
        Role::User,
    );
    assert_eq!(
        q,
        Quota {
            exempt: false,
            instance_limit: 7,
            max_cpu_cores: 4,
            max_ram_bytes: 16 * GIB,
        }
    );
}

#[test]
fn admin_override_does_not_lift_exemption() {
    let q = resolve_effective_quota(
        QuotaOverride {
            instance_limit: Some(99),
            max_cpu_cores: Some(99),
            max_ram_bytes: Some(999 * GIB),
        },
        Role::Admin,
    );
    assert!(q.exempt);
    assert_eq!(q.instance_limit, 99);
}
