use openworkspace_api::activation::{
    activation_preflight, billing_context, allocation_mode_str, instance_name, next_instance_number, parse_allocation_mode,
    persistent_slot, quota_gate, restart_target_check, ActivationError, ActiveCounters,
    ActiveResources, HostLimits,
};
use openworkspace_api::auth::Role;
use openworkspace_api::effective_context::{
    EffectiveContext, PreflightReject, QuotaContext, ResourceKind, ResourceUse, TemplateVisibility,
};
use openworkspace_api::quota::{AllocationMode, HostCapacity, QuotaOverride, QuotaScope};

const GIB: i64 = 1 << 30;

fn host() -> HostLimits {
    HostLimits {
        capacity: HostCapacity { max_cpu_cores: 16, max_ram_bytes: 64 * GIB },
        host_instance_limit: 10,
        shared_max_cpu: 0,
        shared_max_ram: 0,
    }
}

fn idle() -> ActiveCounters {
    ActiveCounters {
        user_active_instances: 0,
        host_active_instances: 0,
        user: ActiveResources::default(),
        dedicated: ActiveResources::default(),
        shared: ActiveResources::default(),
    }
}

#[test]
fn allocation_modes_round_trip() {
    assert_eq!(allocation_mode_str(AllocationMode::Dedicated), "dedicated");
    assert_eq!(allocation_mode_str(AllocationMode::Shared), "shared");
    assert_eq!(parse_allocation_mode("dedicated"), Ok(AllocationMode::Dedicated));
    assert_eq!(parse_allocation_mode("shared"), Ok(AllocationMode::Shared));
    assert_eq!(parse_allocation_mode("Shared"), Err("unknown allocation_mode: Shared".to_string()));
}

#[test]
fn quota_gate_admits_a_fitting_request() {
    let r = quota_gate("dedicated", 2, 4 * GIB, QuotaOverride::default(), Role::User, host(), idle());
    assert!(r.is_ok());
}

#[test]
fn quota_gate_refuses_unknown_mode_as_db_error() {
    match quota_gate("burst", 1, GIB, QuotaOverride::default(), Role::User, host(), idle()) {
        Err(ActivationError::Db(e)) => assert_eq!(e, "unknown allocation_mode: burst"),
        other => panic!("unexpected {:?}", other),
    }
}

#[test]
fn quota_gate_reports_the_user_instance_ceiling() {
    let mut c = idle();
    c.user_active_instances = 2;
    c.host_active_instances = 2;
    match quota_gate("shared", 1, GIB, QuotaOverride::default(), Role::User, host(), c) {
        Err(ActivationError::Quota(v)) => {
            assert_eq!(v.scope, QuotaScope::UserInstance);
            assert_eq!(v.current, 2);
            assert_eq!(v.limit, 2);
            assert_eq!(v.requested, 1);
        }
        other => panic!("unexpected {:?}", other),
    }
}

#[test]
fn quota_gate_applies_overrides_over_the_role_default() {
    let mut c = idle();
    c.user_active_instances = 2;
    c.host_active_instances = 2;
    let o = QuotaOverride { instance_limit: Some(3), max_cpu_cores: None, max_ram_bytes: None };
    assert!(quota_gate("shared", 1, GIB, o, Role::User, host(), c).is_ok());
}

#[test]
fn quota_gate_checks_dedicated_host_cpu() {
    let mut c = idle();
    c.dedicated.cpu_cores = 15;
    match quota_gate("dedicated", 2, GIB, QuotaOverride::default(), Role::Admin, host(), c) {
        Err(ActivationError::Quota(v)) => {
            assert_eq!(v.scope, QuotaScope::HostDedicatedCpu);
            assert_eq!((v.current, v.limit, v.requested), (15, 16, 2));
        }
        other => panic!("unexpected {:?}", other),
    }
    assert!(quota_gate("shared", 2, GIB, QuotaOverride::default(), Role::Admin, host(), c).is_ok());
}

#[test]
fn persistent_slot_rules() {
    assert!(matches!(persistent_slot(None), Ok(false)));
    assert!(matches!(persistent_slot(Some("error")), Ok(true)));
    match persistent_slot(Some("running")) {
        Err(ActivationError::Conflict(m)) => assert_eq!(
            m,
            "An instance with persistent storage already exists for this template and user"
        ),
        other => panic!("unexpected {:?}", other),
    }
}

#[test]
fn instance_numbers_and_names() {
    assert_eq!(next_instance_number(None), 1);
    assert_eq!(next_instance_number(Some(7)), 8);
    assert_eq!(instance_name("ubuntu-desktop", 3), "ubuntu-desktop-3");
    assert_eq!(instance_name("x", -4), "x--4");
    assert_eq!(instance_name("", 0), "-0");
}

#[test]
fn restart_target_checks() {
    assert!(restart_target_check(1, 2, 1, 2).is_ok());
    match restart_target_check(1, 2, 9, 2) {
        Err(ActivationError::Db(m)) => assert_eq!(m, "instance does not belong to the user"),
        other => panic!("unexpected {:?}", other),
    }
    match restart_target_check(1, 2, 1, 3) {
        Err(ActivationError::Db(m)) => assert_eq!(m, "instance template mismatch"),
        other => panic!("unexpected {:?}", other),
    }
}

fn r3(cpu: i64, mem: i64, gpu: i64) -> ResourceUse {
    ResourceUse { cpu_cores: cpu, memory_mb: mem, gpu_count: gpu }
}

fn member_context(allowed: Vec<u128>, ceiling: i32) -> EffectiveContext {
    EffectiveContext {
        user_id: 1,
        username: "u".to_string(),
        is_admin: false,
        tier: 0,
        can_create_template: false,
        can_manage_users: false,
        can_manage_group_instances: false,
        can_manage_docker: false,
        can_manage_registry: false,
        can_view_monitoring: false,
        can_view_audit_logs: false,
        effective_max_instances: ceiling,
        allowed_template_ids: allowed,
        group_ids: vec![],
        direct_max_instances: None,
        group_billing: vec![],
        resource_quotas: r3(-1, -1, -1),
    }
}

#[test]
fn self_billed_launch_has_an_unlimited_pool() {
    let b = billing_context(None, None, r3(2, 2048, 0), r3(1, 1, 1), r3(9, 9, 9), r3(16, 65536, 1), r3(4, 8192, 0))
        .unwrap();
    assert_eq!(
        b,
        QuotaContext {
            pool: r3(-1, -1, -1),
            billed: r3(2, 2048, 0),
            member_quota: r3(-1, -1, -1),
            member_used: r3(0, 0, 0),
            host_capacity: r3(16, 65536, 1),
            host_used: r3(4, 8192, 0),
            target_group_id: None,
        }
    );
}

#[test]
fn group_billed_launch_uses_the_locked_pool() {
    let b = billing_context(Some(7), Some(r3(8, 16384, 1)), r3(6, 4096, 0), r3(4, 4096, -1), r3(3, 1024, 0), r3(-1, -1, -1), r3(0, 0, 0))
        .unwrap();
    assert_eq!(b.pool, r3(8, 16384, 1));
    assert_eq!(b.member_quota, r3(4, 4096, -1));
    assert_eq!(b.member_used, r3(3, 1024, 0));
    assert_eq!(b.target_group_id, Some(7));
    match billing_context(Some(7), None, r3(0, 0, 0), r3(0, 0, 0), r3(0, 0, 0), r3(0, 0, 0), r3(0, 0, 0)) {
        Err(ActivationError::Db(m)) => assert_eq!(m, "record not found: group"),
        other => panic!("unexpected {:?}", other),
    }
}

#[test]
fn activation_preflight_rejects_an_overdrawn_pool() {
    let ctx = member_context(vec![42], 5);
    let b = billing_context(Some(7), Some(r3(8, -1, -1)), r3(6, 0, 0), r3(-1, -1, -1), r3(0, 0, 0), r3(-1, -1, -1), r3(0, 0, 0))
        .unwrap();
    match activation_preflight(&ctx, 0, -1, 42, 0, TemplateVisibility::Private, &r3(4, 1024, 0), &b) {
        Err(ActivationError::Rejected(PreflightReject::PoolResourceExceeded { resource, current, limit, requested, group_id })) => {
            assert_eq!(resource, ResourceKind::Cpu);
            assert_eq!((current, limit, requested, group_id), (6, 8, 4, Some(7)));
        }
        other => panic!("unexpected {:?}", other),
    }
    assert!(activation_preflight(&ctx, 0, -1, 42, 0, TemplateVisibility::Private, &r3(2, 1024, 0), &b).is_ok());
    match activation_preflight(&ctx, 0, -1, 43, 0, TemplateVisibility::Private, &r3(1, 1, 0), &b) {
        Err(ActivationError::Rejected(PreflightReject::TemplateNotAllowed { requested_template_id })) => {
            assert_eq!(requested_template_id, 43)
        }
        other => panic!("unexpected {:?}", other),
    }
}
