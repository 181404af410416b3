use std::collections::HashMap;

use openworkspace_api::effective_context::{
    add_use, calculate_effective_context, can_assign_groups, memory_bytes_to_mb, pre_flight, EffectiveContext,
    GroupPolicy, PreflightReject, QuotaContext, ResourceKind, ResourceUse, TemplateVisibility,
    UserPolicy, TIER_ADMIN, TIER_MANAGER, TIER_USER,
};

fn uuid(n: u128) -> u128 {
    n
}

fn user(id: u128, direct_max_instances: Option<i32>) -> UserPolicy {
    UserPolicy {
        user_id: id,
        username: format!("user-{}", id),
        direct_max_instances,
    }
}

fn group(
    id: u128,
    kind: Option<&str>,
    max_instances: Option<i32>,
    create: bool,
    manage_users: bool,
    group_instances: bool,
    docker: bool,
    registry: bool,
    monitoring: bool,
    audit_logs: bool,
) -> GroupPolicy {
    GroupPolicy {
        id,
        name: format!("group-{}", id),
        kind: kind.map(|k| k.to_string()),
        max_instances,
        billing_model: "shared".to_string(),
        pool_cpu_cores: 0,
        pool_memory_mb: 0,
        pool_gpu_count: 0,
        member_cpu_cores: -1,
        member_memory_mb: -1,
        member_gpu_count: -1,
        can_create_template: create,
        can_manage_users: manage_users,
        can_manage_group_instances: group_instances,
        can_manage_docker: docker,
        can_manage_registry: registry,
        can_view_monitoring: monitoring,
        can_view_audit_logs: audit_logs,
    }
}

fn map(pairs: &[(u128, &[u128])]) -> HashMap<u128, Vec<u128>> {
    pairs
        .iter()
        .map(|(g, ids)| (*g, ids.to_vec()))
        .collect()
}

#[test]
fn flags_or_across_groups() {
    let alice = user(uuid(1), None);
    let g1 = group(uuid(10), None, Some(2), true, false, false, false, false, false, false);
    let g2 = group(uuid(11), None, Some(4), false, true, false, true, false, false, false);
    let g3 = group(uuid(12), None, Some(6), false, false, false, false, true, false, false);

    let ctx = calculate_effective_context(&alice, &[g1, g2, g3], &map(&[]), &[]);

    assert!(!ctx.is_admin);
    assert_eq!(ctx.tier, TIER_USER);
    assert!(ctx.can_create_template);
    assert!(ctx.can_manage_users);
    assert!(!ctx.can_manage_group_instances);
    assert!(ctx.can_manage_docker);
    assert!(ctx.can_manage_registry);
    assert!(!ctx.can_view_monitoring);
    assert!(!ctx.can_view_audit_logs);
}

#[test]
fn monitoring_flag_or_across_groups() {
    let alice = user(uuid(1), None);
    let g1 = group(uuid(10), None, Some(2), false, false, false, false, false, true, false);
    let g2 = group(uuid(11), None, Some(2), false, false, false, false, false, false, false);

    let ctx = calculate_effective_context(&alice, &[g1, g2], &map(&[]), &[]);
    assert!(ctx.can_view_monitoring);
    assert!(!ctx.can_view_audit_logs);
}

#[test]
fn audit_logs_flag_or_across_groups() {
    let alice = user(uuid(1), None);
    let g1 = group(uuid(10), None, Some(2), false, false, false, false, false, false, true);
    let g2 = group(uuid(11), None, Some(2), false, false, false, false, false, false, false);

    let ctx = calculate_effective_context(&alice, &[g1, g2], &map(&[]), &[]);
    assert!(ctx.can_view_audit_logs);
    assert!(!ctx.can_view_monitoring);
}

#[test]
fn whitelist_union_is_group_only() {
    let t1 = uuid(100);
    let t2 = uuid(101);
    let t3 = uuid(102);
    let alice = user(uuid(1), None);
    let g1 = group(uuid(10), None, Some(2), false, false, false, false, false, false, false);
    let g2 = group(uuid(11), None, Some(2), false, false, false, false, false, false, false);

    // `user` no longer carries owned/personal template ids — only the
    // groups' whitelists feed the union.
    let ctx = calculate_effective_context(
        &alice,
        &[g1, g2],
        &map(&[(uuid(10), &[t2, t3]), (uuid(11), &[t1])]),
        &[],
    );

    assert_eq!(ctx.allowed_template_ids, vec![t2, t3, t1]);
}

#[test]
fn effective_ceiling_is_max_of_direct_and_groups() {
    // A personal ceiling can raise above the groups but never below them.
    let alice = user(uuid(1), Some(8));
    let g1 = group(uuid(10), None, Some(2), false, false, false, false, false, false, false);
    let g2 = group(uuid(11), None, Some(4), false, false, false, false, false, false, false);

    let ctx = calculate_effective_context(&alice, &[g1, g2], &map(&[]), &[]);
    assert_eq!(ctx.effective_max_instances, 8);
    assert_eq!(ctx.direct_max_instances, Some(8));
}

#[test]
fn group_ceiling_raises_personal_ceiling() {
    let alice = user(uuid(1), Some(2));
    let g1 = group(uuid(10), None, Some(8), false, false, false, false, false, false, false);

    let ctx = calculate_effective_context(&alice, &[g1], &map(&[]), &[]);
    assert_eq!(ctx.effective_max_instances, 8);
}

#[test]
fn group_max_fallback_when_no_direct() {
    let alice = user(uuid(1), None);
    let g1 = group(uuid(10), None, Some(2), false, false, false, false, false, false, false);
    let g2 = group(uuid(11), None, Some(6), false, false, false, false, false, false, false);

    let ctx = calculate_effective_context(&alice, &[g1, g2], &map(&[]), &[]);
    assert_eq!(ctx.effective_max_instances, 6);
    assert_eq!(ctx.direct_max_instances, None);
}

#[test]
fn direct_minus_one_means_no_ceiling() {
    let alice = user(uuid(1), Some(-1));
    let g1 = group(uuid(10), None, Some(2), false, false, false, false, false, false, false);

    let ctx = calculate_effective_context(&alice, &[g1], &map(&[]), &[]);
    assert_eq!(ctx.effective_max_instances, -1);
}

#[test]
fn direct_zero_contributes_nothing_to_the_max() {
    // `0` is a real zero: a blocked personal ceiling adds nothing to the
    // maximum — the group ceiling still applies.
    let alice = user(uuid(1), Some(0));
    let g1 = group(uuid(10), None, Some(2), false, false, false, false, false, false, false);

    let ctx = calculate_effective_context(&alice, &[g1], &map(&[]), &[]);
    assert_eq!(ctx.effective_max_instances, 2);
}

#[test]
fn null_group_ceiling_means_no_ceiling() {
    // Admin group: NULL max_instances → unlimited (-1), even next to a
    // finite personal ceiling.
    let admin = user(uuid(1), Some(3));
    let g1 = group(uuid(10), Some("admin"), None, true, true, true, true, true, true, false);

    let ctx = calculate_effective_context(&admin, &[g1], &map(&[]), &[]);
    assert_eq!(ctx.effective_max_instances, -1);
    assert!(ctx.is_admin);
    assert_eq!(ctx.tier, TIER_ADMIN);
}

#[test]
fn no_groups_no_direct_is_unlimited_but_default_deny() {
    let alice = user(uuid(1), None);

    let ctx = calculate_effective_context(&alice, &[], &map(&[]), &[]);

    assert!(!ctx.is_admin);
    assert_eq!(ctx.tier, TIER_USER);
    assert_eq!(ctx.effective_max_instances, -1);
    assert!(ctx.allowed_template_ids.is_empty());
    assert!(!ctx.can_create_template);
    assert!(!ctx.can_manage_users);
    assert!(!ctx.can_manage_group_instances);
    assert!(!ctx.can_manage_docker);
    assert!(!ctx.can_manage_registry);
    assert!(!ctx.can_view_monitoring);
    assert!(!ctx.can_view_audit_logs);
    assert!(ctx.group_ids.is_empty());
}

#[test]
fn admin_membership_is_root_but_not_bypass() {
    // Admin group grants root and every flag, but the whitelist still comes
    // only from group grants — no bypass.
    let admin = user(uuid(1), None);
    let g1 = group(uuid(10), Some("admin"), Some(2), true, true, true, true, true, true, true);

    let ctx = calculate_effective_context(&admin, &[g1], &map(&[]), &[]);

    assert!(ctx.is_admin);
    assert_eq!(ctx.tier, TIER_ADMIN);
    assert!(ctx.can_create_template);
    assert!(ctx.can_manage_users);
    assert!(ctx.can_manage_group_instances);
    assert!(ctx.can_manage_docker);
    assert!(ctx.can_manage_registry);
    assert!(ctx.can_view_monitoring);
    assert!(ctx.can_view_audit_logs);
    assert!(ctx.allowed_template_ids.is_empty(), "admins are not exempt");
    assert_eq!(ctx.effective_max_instances, 2);
    assert_eq!(ctx.group_ids, vec![uuid(10)]);
}

#[test]
fn manager_membership_tier() {
    let alice = user(uuid(1), None);
    let g1 = group(uuid(10), Some("manager"), Some(4), false, false, false, false, false, false, false);
    let g2 = group(uuid(11), Some("user"), Some(1), false, false, false, false, false, false, false);

    let ctx = calculate_effective_context(&alice, &[g1, g2], &map(&[]), &[]);
    assert_eq!(ctx.tier, TIER_MANAGER);
    assert!(!ctx.is_admin);
    // The User group's cap of 1 must not drag a Manager down.
    assert_eq!(ctx.effective_max_instances, 4);
}

#[test]
fn custom_group_named_admin_is_not_root() {
    // Identity is by kind: a custom group named "Admin" is tier 0.
    let alice = user(uuid(1), None);
    let g1 = group(uuid(10), None, Some(2), false, false, false, false, false, false, false);

    let ctx = calculate_effective_context(&alice, &[g1], &map(&[]), &[]);
    assert!(!ctx.is_admin);
    assert_eq!(ctx.tier, TIER_USER);
}

#[test]
fn group_ids_collected() {
    let alice = user(uuid(1), None);
    let g1 = group(uuid(10), None, Some(2), false, false, false, false, false, false, false);
    let g2 = group(uuid(11), None, Some(2), false, false, false, false, false, false, false);

    let ctx = calculate_effective_context(&alice, &[g1, g2], &map(&[]), &[]);
    assert_eq!(ctx.group_ids, vec![uuid(10), uuid(11)]);
}

#[test]
fn duplicate_whitelist_ids_deduplicated() {
    let t1 = uuid(100);
    let alice = user(uuid(1), None);
    let g1 = group(uuid(10), None, Some(2), false, false, false, false, false, false, false);

    let ctx = calculate_effective_context(
        &alice,
        &[g1],
        &map(&[(uuid(10), &[t1, t1])]),
        &[],
    );

    assert_eq!(ctx.allowed_template_ids, vec![t1]);
}

#[test]
fn hidden_templates_excluded_from_whitelist() {
    // A group whitelist that names a hidden template must not surface it in
    // `allowed_template_ids` — hidden is an absolute off-switch (spec
    // Decision 3), so the launch list never advertises it.
    let t1 = uuid(100);
    let t2 = uuid(101);
    let t3 = uuid(102);
    let alice = user(uuid(1), None);
    let g1 = group(uuid(10), None, Some(2), false, false, false, false, false, false, false);
    let g2 = group(uuid(11), None, Some(2), false, false, false, false, false, false, false);

    let ctx = calculate_effective_context(
        &alice,
        &[g1, g2],
        &map(&[(uuid(10), &[t2, t3]), (uuid(11), &[t1])]),
        &[t2],
    );

    assert_eq!(ctx.allowed_template_ids, vec![t3, t1]);
}

#[test]
fn hidden_exclusion_is_an_absolute_off_switch() {
    // Even a whitelist naming *only* a hidden template yields an empty
    // launch list, admins included.
    let t1 = uuid(100);
    let alice = user(uuid(1), None);
    let g1 = group(uuid(10), Some("admin"), None, true, true, true, true, true, true, false);

    let ctx = calculate_effective_context(
        &alice,
        &[g1],
        &map(&[(uuid(10), &[t1])]),
        &[t1],
    );

    assert!(ctx.is_admin);
    assert!(
        ctx.allowed_template_ids.is_empty(),
        "hidden template must not appear even for an admin"
    );
}

#[test]
fn can_assign_groups_requires_strictly_lower_tier() {
    // A Manager (1) can assign to user/custom (0) but never manager/admin.
    assert!(can_assign_groups(TIER_MANAGER, &[None, Some("user".into())]));
    assert!(!can_assign_groups(TIER_MANAGER, &[Some("manager".into())]));
    assert!(!can_assign_groups(TIER_MANAGER, &[Some("admin".into())]));
    // A tier-0 actor can assign nobody anywhere.
    assert!(!can_assign_groups(TIER_USER, &[Some("user".into())]));
    assert!(!can_assign_groups(TIER_USER, &[None]));
    // An admin (2) can assign to manager/user/custom, but never into the
    // Admin group itself (tier >= actor is off-limits even for admins).
    assert!(can_assign_groups(TIER_ADMIN, &[Some("manager".into()), Some("user".into()), None]));
    assert!(!can_assign_groups(TIER_ADMIN, &[Some("admin".into())]));
}

// ── pre_flight ─────────────────────────────────────────────

fn allow_all() -> EffectiveContext {
    calculate_effective_context(
        &user(uuid(1), Some(4)),
        &[group(uuid(10), None, Some(4), false, false, false, false, false, false, false)],
        &map(&[(uuid(10), &[uuid(200)])]),
        &[],
    )
}

fn res(cpu: i64, mem: i64, gpu: i64) -> ResourceUse {
    ResourceUse {
        cpu_cores: cpu,
        memory_mb: mem,
        gpu_count: gpu,
    }
}

/// An unlimited quota context: host caps disabled and a self-billed target
/// with an unlimited pool — never rejects on resources. `-1` = unlimited.
fn quota() -> QuotaContext {
    QuotaContext {
        pool: res(-1, -1, -1),
        billed: res(0, 0, 0),
        member_quota: res(-1, -1, -1),
        member_used: res(0, 0, 0),
        host_capacity: res(-1, -1, -1),
        host_used: res(0, 0, 0),
        target_group_id: None,
    }
}

#[test]
fn memory_bytes_to_mb_rounds_up_and_preserves_unlimited() {
    // 4 GiB exactly → 4096 MB.
    assert_eq!(memory_bytes_to_mb(4_294_967_296), 4096);
    // 1 byte over a GiB boundary rounds up so a request is never
    // under-counted.
    assert_eq!(memory_bytes_to_mb(4_294_967_297), 4097);
    // Zero stays zero.
    assert_eq!(memory_bytes_to_mb(0), 0);
    // `-1` (unlimited) is preserved verbatim.
    assert_eq!(memory_bytes_to_mb(-1), -1);
}

#[test]
fn pre_flight_allows_whitelisted_template_under_limits() {
    let ctx = allow_all();
    assert!(pre_flight(&ctx, 0, -1, uuid(200), 2, TemplateVisibility::Private, &res(0, 0, 0), &quota()).is_ok());
}

#[test]
fn pre_flight_rejects_unlisted_template_for_everyone() {
    let ctx = allow_all();
    assert_eq!(
        pre_flight(&ctx, 0, -1, uuid(999), 0, TemplateVisibility::Private, &res(0, 0, 0), &quota()),
        Err(PreflightReject::TemplateNotAllowed {
            requested_template_id: uuid(999)
        })
    );
}

#[test]
fn pre_flight_rejects_admin_on_unlisted_template() {
    // Admins are not exempt from the whitelist: an admin with no whitelist
    // is denied every private template.
    let admin = calculate_effective_context(
        &user(uuid(1), None),
        &[group(uuid(10), Some("admin"), None, true, true, true, true, true, true, false)],
        &map(&[]),
        &[],
    );
    assert_eq!(
        pre_flight(&admin, 0, -1, uuid(500), 0, TemplateVisibility::Private, &res(0, 0, 0), &quota()),
        Err(PreflightReject::TemplateNotAllowed {
            requested_template_id: uuid(500)
        })
    );
    assert!(admin.is_admin);
}

#[test]
fn pre_flight_rejects_over_ceiling() {
    let ctx = allow_all();
    assert_eq!(
        pre_flight(&ctx, 0, -1, uuid(200), 4, TemplateVisibility::Private, &res(0, 0, 0), &quota()),
        Err(PreflightReject::InstanceCeilingExceeded { current: 4, limit: 4 })
    );
}

#[test]
fn pre_flight_minus_one_ceiling_means_unlimited() {
    let ctx = calculate_effective_context(
        &user(uuid(1), Some(-1)),
        &[group(uuid(10), None, Some(-1), false, false, false, false, false, false, false)],
        &map(&[(uuid(10), &[uuid(200)])]),
        &[],
    );
    assert!(pre_flight(&ctx, 0, -1, uuid(200), 999, TemplateVisibility::Private, &res(0, 0, 0), &quota()).is_ok());
}

#[test]
fn pre_flight_zero_ceiling_blocks() {
    // `0` is a real zero under the new convention: a blocked ceiling.
    let ctx = calculate_effective_context(
        &user(uuid(1), Some(0)),
        &[group(uuid(10), None, Some(0), false, false, false, false, false, false, false)],
        &map(&[(uuid(10), &[uuid(200)])]),
        &[],
    );
    assert_eq!(
        pre_flight(&ctx, 0, -1, uuid(200), 0, TemplateVisibility::Private, &res(0, 0, 0), &quota()),
        Err(PreflightReject::InstanceCeilingExceeded { current: 0, limit: 0 })
    );
}

#[test]
fn pre_flight_rejects_host_ceiling_for_every_tier() {
    let ctx = allow_all();
    assert_eq!(
        pre_flight(&ctx, 9, 9, uuid(200), 0, TemplateVisibility::Private, &res(0, 0, 0), &quota()),
        Err(PreflightReject::HostCeilingExceeded { current: 9, limit: 9 })
    );
}

#[test]
fn pre_flight_host_ceiling_minus_one_is_disabled() {
    let ctx = allow_all();
    assert!(pre_flight(&ctx, 500, -1, uuid(200), 0, TemplateVisibility::Private, &res(0, 0, 0), &quota()).is_ok());
}

#[test]
fn pre_flight_host_ceiling_zero_blocks() {
    let ctx = allow_all();
    assert_eq!(
        pre_flight(&ctx, 0, 0, uuid(200), 0, TemplateVisibility::Private, &res(0, 0, 0), &quota()),
        Err(PreflightReject::HostCeilingExceeded { current: 0, limit: 0 })
    );
}

#[test]
fn pre_flight_public_launches_without_whitelist() {
    // Public overrides the group whitelist: an empty whitelist still
    // launches (spec Decision 3).
    let ctx = calculate_effective_context(
        &user(uuid(1), Some(4)),
        &[group(uuid(10), None, Some(4), false, false, false, false, false, false, false)],
        &map(&[]),
        &[],
    );
    assert!(ctx.allowed_template_ids.is_empty());
    assert!(pre_flight(&ctx, 0, -1, uuid(200), 0, TemplateVisibility::Public, &res(0, 0, 0), &quota()).is_ok());
}

#[test]
fn pre_flight_public_still_respects_ceiling() {
    // Public grants permission, not quota: ceilings still apply.
    let ctx = allow_all();
    assert_eq!(
        pre_flight(&ctx, 0, -1, uuid(200), 4, TemplateVisibility::Public, &res(0, 0, 0), &quota()),
        Err(PreflightReject::InstanceCeilingExceeded { current: 4, limit: 4 })
    );
    assert_eq!(
        pre_flight(&ctx, 9, 9, uuid(200), 0, TemplateVisibility::Public, &res(0, 0, 0), &quota()),
        Err(PreflightReject::HostCeilingExceeded { current: 9, limit: 9 })
    );
}

#[test]
fn pre_flight_hidden_rejects_even_whitelisted() {
    // Hidden is an absolute off-switch: the whitelist is never consulted.
    let ctx = allow_all();
    assert_eq!(
        pre_flight(&ctx, 0, -1, uuid(200), 0, TemplateVisibility::Hidden, &res(0, 0, 0), &quota()),
        Err(PreflightReject::TemplateHidden {
            requested_template_id: uuid(200)
        })
    );
}

#[test]
fn pre_flight_hidden_rejects_admin() {
    // No bypass: an admin launching a hidden template is rejected too.
    let admin = calculate_effective_context(
        &user(uuid(1), None),
        &[group(uuid(10), Some("admin"), None, true, true, true, true, true, true, false)],
        &map(&[(uuid(10), &[uuid(500)])]),
        &[],
    );
    assert!(admin.is_admin);
    assert_eq!(
        pre_flight(&admin, 0, -1, uuid(500), 0, TemplateVisibility::Hidden, &res(0, 0, 0), &quota()),
        Err(PreflightReject::TemplateHidden {
            requested_template_id: uuid(500)
        })
    );
}

// ── resource quota pre-flight ─────────────────────────────

#[test]
fn pre_flight_rejects_host_resource_cap() {
    let ctx = allow_all();
    let billing = QuotaContext {
        host_capacity: res(8, 0, 0),
        host_used: res(7, 0, 0),
        ..quota()
    };
    assert_eq!(
        pre_flight(&ctx, 0, -1, uuid(200), 0, TemplateVisibility::Private, &res(2, 0, 0), &billing),
        Err(PreflightReject::HostResourceExceeded {
            resource: ResourceKind::Cpu,
            current: 7,
            limit: 8,
            requested: 2,
        })
    );
}

#[test]
fn pre_flight_host_resource_cap_disabled_at_minus_one() {
    let ctx = allow_all();
    let billing = QuotaContext {
        host_capacity: res(-1, -1, -1),
        host_used: res(900, 0, 0),
        ..quota()
    };
    assert!(pre_flight(&ctx, 0, -1, uuid(200), 0, TemplateVisibility::Private, &res(2, 0, 0), &billing).is_ok());
}

#[test]
fn pre_flight_host_resource_cap_zero_blocks() {
    // `0` is a real zero: a blocked host cap rejects every finite request.
    let ctx = allow_all();
    let billing = QuotaContext {
        host_capacity: res(0, 0, 0),
        host_used: res(0, 0, 0),
        ..quota()
    };
    assert_eq!(
        pre_flight(&ctx, 0, -1, uuid(200), 0, TemplateVisibility::Private, &res(2, 0, 0), &billing),
        Err(PreflightReject::HostResourceExceeded {
            resource: ResourceKind::Cpu,
            current: 0,
            limit: 0,
            requested: 2,
        })
    );
}

#[test]
fn pre_flight_rejects_pool_resource_cap() {
    let ctx = allow_all();
    let billing = QuotaContext {
        pool: res(4, 4096, 2),
        billed: res(3, 2048, 1),
        target_group_id: Some(uuid(10)),
        ..quota()
    };
    assert_eq!(
        pre_flight(&ctx, 0, -1, uuid(200), 0, TemplateVisibility::Private, &res(2, 2048, 1), &billing),
        Err(PreflightReject::PoolResourceExceeded {
            resource: ResourceKind::Cpu,
            current: 3,
            limit: 4,
            requested: 2,
            group_id: Some(uuid(10)),
        })
    );
    // Memory is the binding resource here: 2048 billed + 2049 requested > 4096 cap.
    assert_eq!(
        pre_flight(&ctx, 0, -1, uuid(200), 0, TemplateVisibility::Private, &res(0, 2049, 0), &billing),
        Err(PreflightReject::PoolResourceExceeded {
            resource: ResourceKind::Memory,
            current: 2048,
            limit: 4096,
            requested: 2049,
            group_id: Some(uuid(10)),
        })
    );
}

#[test]
fn pre_flight_pool_resource_exact_fit_allowed() {
    let ctx = allow_all();
    let billing = QuotaContext {
        pool: res(4, 4096, 2),
        billed: res(3, 2048, 1),
        target_group_id: Some(uuid(10)),
        ..quota()
    };
    assert!(pre_flight(&ctx, 0, -1, uuid(200), 0, TemplateVisibility::Private, &res(1, 2048, 1), &billing).is_ok());
}

// ── per-member resource cap (spec Decision 5: the personal layer) ────────

#[test]
fn pre_flight_member_cap_rejects_when_over() {
    let ctx = allow_all();
    let billing = QuotaContext {
        member_quota: res(4, 4096, 2),
        member_used: res(3, 2048, 1),
        target_group_id: Some(uuid(10)),
        ..quota()
    };
    assert_eq!(
        pre_flight(&ctx, 0, -1, uuid(200), 0, TemplateVisibility::Private, &res(2, 0, 0), &billing),
        Err(PreflightReject::MemberResourceExceeded {
            resource: ResourceKind::Cpu,
            current: 3,
            limit: 4,
            requested: 2,
            group_id: Some(uuid(10)),
        })
    );
    // Memory is the binding resource here: 2048 used + 2049 requested > 4096 cap.
    assert_eq!(
        pre_flight(&ctx, 0, -1, uuid(200), 0, TemplateVisibility::Private, &res(0, 2049, 0), &billing),
        Err(PreflightReject::MemberResourceExceeded {
            resource: ResourceKind::Memory,
            current: 2048,
            limit: 4096,
            requested: 2049,
            group_id: Some(uuid(10)),
        })
    );
}

#[test]
fn pre_flight_member_cap_binds_before_pool() {
    // The member cap is checked before the pool (spec Decision 5): a small
    // personal cap rejects even when the group pool would fit the request.
    let ctx = allow_all();
    let billing = QuotaContext {
        member_quota: res(2, 1024, 1),
        member_used: res(1, 512, 0),
        pool: res(16, 16384, 8),
        billed: res(0, 0, 0),
        target_group_id: Some(uuid(10)),
        ..quota()
    };
    assert_eq!(
        pre_flight(&ctx, 0, -1, uuid(200), 0, TemplateVisibility::Private, &res(2, 512, 1), &billing),
        Err(PreflightReject::MemberResourceExceeded {
            resource: ResourceKind::Cpu,
            current: 1,
            limit: 2,
            requested: 2,
            group_id: Some(uuid(10)),
        })
    );
}

#[test]
fn pre_flight_member_cap_exact_fit_allowed() {
    let ctx = allow_all();
    let billing = QuotaContext {
        member_quota: res(4, 4096, 2),
        member_used: res(3, 2048, 1),
        target_group_id: Some(uuid(10)),
        ..quota()
    };
    assert!(pre_flight(&ctx, 0, -1, uuid(200), 0, TemplateVisibility::Private, &res(1, 2048, 1), &billing).is_ok());
}

#[test]
fn pre_flight_member_cap_unlimited_allows() {
    let ctx = allow_all();
    let billing = QuotaContext {
        member_quota: res(-1, -1, -1),
        member_used: res(999, 999, 999),
        target_group_id: Some(uuid(10)),
        ..quota()
    };
    assert!(pre_flight(&ctx, 0, -1, uuid(200), 0, TemplateVisibility::Private, &res(500, 500, 500), &billing).is_ok());
}

#[test]
fn pre_flight_member_cap_zero_blocks() {
    // `0` is a real zero: a blocked personal cap rejects every finite request.
    let ctx = allow_all();
    let billing = QuotaContext {
        member_quota: res(0, 0, 0),
        member_used: res(0, 0, 0),
        target_group_id: Some(uuid(10)),
        ..quota()
    };
    assert_eq!(
        pre_flight(&ctx, 0, -1, uuid(200), 0, TemplateVisibility::Private, &res(1, 0, 0), &billing),
        Err(PreflightReject::MemberResourceExceeded {
            resource: ResourceKind::Cpu,
            current: 0,
            limit: 0,
            requested: 1,
            group_id: Some(uuid(10)),
        })
    );
}

#[test]
fn pre_flight_unlimited_request_rejected_by_finite_member() {
    // An unlimited (-1) request is refused at the member layer before the
    // pool is consulted.
    let ctx = allow_all();
    let billing = QuotaContext {
        member_quota: res(4, 0, 0),
        member_used: res(0, 0, 0),
        pool: res(-1, -1, -1),
        target_group_id: Some(uuid(10)),
        ..quota()
    };
    assert_eq!(
        pre_flight(&ctx, 0, -1, uuid(200), 0, TemplateVisibility::Private, &res(-1, 0, 0), &billing),
        Err(PreflightReject::MemberResourceExceeded {
            resource: ResourceKind::Cpu,
            current: 0,
            limit: 4,
            requested: -1,
            group_id: Some(uuid(10)),
        })
    );
}

#[test]
fn pre_flight_unlimited_pool_never_rejects() {
    let ctx = allow_all();
    let billing = QuotaContext {
        pool: res(-1, -1, -1),
        billed: res(999, 999, 999),
        target_group_id: Some(uuid(10)),
        ..quota()
    };
    assert!(pre_flight(&ctx, 0, -1, uuid(200), 0, TemplateVisibility::Private, &res(500, 500, 500), &billing).is_ok());
}

// ── `-1` request rule (spec Decision: an unlimited instance request) ──────

#[test]
fn pre_flight_unlimited_request_allowed_when_every_layer_unlimited() {
    let ctx = allow_all();
    let billing = QuotaContext {
        pool: res(-1, -1, -1),
        target_group_id: Some(uuid(10)),
        ..quota()
    };
    assert!(pre_flight(&ctx, 0, -1, uuid(200), 0, TemplateVisibility::Private, &res(-1, -1, -1), &billing).is_ok());
}

#[test]
fn pre_flight_unlimited_request_rejected_by_finite_pool() {
    let ctx = allow_all();
    let billing = QuotaContext {
        pool: res(4, 0, 0),
        billed: res(0, 0, 0),
        target_group_id: Some(uuid(10)),
        ..quota()
    };
    assert_eq!(
        pre_flight(&ctx, 0, -1, uuid(200), 0, TemplateVisibility::Private, &res(-1, 0, 0), &billing),
        Err(PreflightReject::PoolResourceExceeded {
            resource: ResourceKind::Cpu,
            current: 0,
            limit: 4,
            requested: -1,
            group_id: Some(uuid(10)),
        })
    );
}

#[test]
fn pre_flight_unlimited_request_rejected_by_finite_host() {
    let ctx = allow_all();
    let billing = QuotaContext {
        host_capacity: res(8, 0, 0),
        host_used: res(0, 0, 0),
        ..quota()
    };
    assert_eq!(
        pre_flight(&ctx, 0, -1, uuid(200), 0, TemplateVisibility::Private, &res(-1, 0, 0), &billing),
        Err(PreflightReject::HostResourceExceeded {
            resource: ResourceKind::Cpu,
            current: 0,
            limit: 8,
            requested: -1,
        })
    );
}

#[test]
fn pre_flight_zero_request_is_zero_cost() {
    // `0` is a real zero under the new convention: a finite zero-cost
    // request. It consumes nothing and is always fine — even under finite
    // limits and into a blocked (`0`) pool.
    let ctx = allow_all();
    let billing = QuotaContext {
        pool: res(0, 0, 0),
        billed: res(0, 0, 0),
        target_group_id: Some(uuid(10)),
        ..quota()
    };
    assert!(pre_flight(&ctx, 0, -1, uuid(200), 0, TemplateVisibility::Private, &res(0, 0, 0), &billing).is_ok());
    let finite = QuotaContext {
        pool: res(2, 2048, 1),
        billed: res(2, 2048, 1),
        target_group_id: Some(uuid(10)),
        ..quota()
    };
    assert!(pre_flight(&ctx, 0, -1, uuid(200), 0, TemplateVisibility::Private, &res(0, 0, 0), &finite).is_ok());
}

#[test]
fn pre_flight_public_still_respects_resource_caps() {
    let ctx = allow_all();
    let billing = QuotaContext {
        host_capacity: res(4, 0, 0),
        host_used: res(4, 0, 0),
        ..quota()
    };
    assert_eq!(
        pre_flight(&ctx, 0, -1, uuid(200), 0, TemplateVisibility::Public, &res(1, 0, 0), &billing),
        Err(PreflightReject::HostResourceExceeded {
            resource: ResourceKind::Cpu,
            current: 4,
            limit: 4,
            requested: 1,
        })
    );
}

// ── aggregate resource quotas on the context ──────────────

#[test]
fn resource_quotas_is_max_finite_pool_across_groups() {
    let alice = user(uuid(1), None);
    let g1 = group(uuid(10), None, Some(2), false, false, false, false, false, false, false);
    let g2 = group(uuid(11), None, Some(2), false, false, false, false, false, false, false);
    let mut g1p = g1.clone();
    g1p.pool_cpu_cores = 4;
    g1p.pool_memory_mb = 2048;
    let mut g2p = g2.clone();
    g2p.pool_cpu_cores = 8;
    g2p.pool_memory_mb = 4096;

    let ctx = calculate_effective_context(&alice, &[g1p, g2p], &map(&[]), &[]);
    assert_eq!(ctx.resource_quotas.cpu_cores, 8);
    assert_eq!(ctx.resource_quotas.memory_mb, 4096);
    assert_eq!(ctx.resource_quotas.gpu_count, 0, "no group sets a gpu pool");
}

#[test]
fn resource_quotas_unlimited_group_wins() {
    let alice = user(uuid(1), None);
    let mut g1 = group(uuid(10), None, Some(2), false, false, false, false, false, false, false);
    g1.pool_cpu_cores = 4;
    let mut g2 = group(uuid(11), None, Some(2), false, false, false, false, false, false, false);
    g2.pool_cpu_cores = -1; // unlimited

    let ctx = calculate_effective_context(&alice, &[g1, g2], &map(&[]), &[]);
    assert_eq!(ctx.resource_quotas.cpu_cores, -1, "unlimited pool dominates");
}

#[test]
fn group_billing_surfaces_each_group_pool() {
    let alice = user(uuid(1), None);
    let mut g1 = group(uuid(10), Some("manager"), Some(2), false, false, false, false, false, false, false);
    g1.name = "ML Team".to_string();
    g1.billing_model = "dedicated".to_string();
    g1.pool_gpu_count = 1;
    g1.member_cpu_cores = 4;
    g1.member_memory_mb = 8192;
    g1.member_gpu_count = 1;

    let ctx = calculate_effective_context(&alice, &[g1], &map(&[]), &[]);
    assert_eq!(ctx.group_billing.len(), 1);
    assert_eq!(ctx.group_billing[0].group_id, uuid(10));
    assert_eq!(ctx.group_billing[0].group_name, "ML Team");
    assert_eq!(ctx.group_billing[0].tier, TIER_MANAGER);
    assert_eq!(ctx.group_billing[0].billing_model, "dedicated");
    assert_eq!(ctx.group_billing[0].pool_gpu_count, 1);
    assert_eq!(ctx.group_billing[0].member_cpu_cores, 4);
    assert_eq!(ctx.group_billing[0].member_memory_mb, 8192);
    assert_eq!(ctx.group_billing[0].member_gpu_count, 1);
}

#[test]
fn resource_uses_add_field_by_field() {
    let a = ResourceUse { cpu_cores: 2, memory_mb: 4096, gpu_count: 0 };
    let b = ResourceUse { cpu_cores: -1, memory_mb: 512, gpu_count: 1 };
    assert_eq!(add_use(&a, &b), ResourceUse { cpu_cores: 1, memory_mb: 4608, gpu_count: 1 });
}

#[test]
fn template_visibility_from_str() {
    assert_eq!("hidden".parse::<TemplateVisibility>(), Ok(TemplateVisibility::Hidden));
    assert_eq!("public".parse::<TemplateVisibility>(), Ok(TemplateVisibility::Public));
    assert_eq!(
        "Public".parse::<TemplateVisibility>(),
        Err("invalid template visibility: Public".to_string())
    );
}
