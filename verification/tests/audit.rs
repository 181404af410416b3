use serde_json::Value;

use openworkspace_api::audit::{
    action, client_ip, diff_detail, due_for_prune, flush_retry_delay_ms, has_sensitive_keyword, is_sensitive_field, outcome, redact_detail,
    redact_url_userinfo, retention_cutoff, stamp_monotonic, target, AuditEvent, Detail, DAY_MICROS,
    SYSTEM_ACTOR,
};
use openworkspace_api::auth::AuthUser;
use openworkspace_api::effective_context::{EffectiveContext, ResourceUse};

const HOUR: i64 = 3_600_000_000;
const MINUTE: i64 = 60_000_000;
const SECOND: i64 = 1_000_000;
/// A fixed "now", in microseconds since the epoch.
const NOW: i64 = 1_700_000_000_123_456;

fn redacted() -> Value {
    Value::from("[REDACTED]")
}

fn object(pairs: Vec<(&str, Value)>) -> Detail<Value> {
    Detail::Object(pairs.into_iter().map(|(k, v)| (k.to_string(), v)).collect())
}

fn field<'a>(detail: &'a Detail<Value>, key: &str) -> &'a Value {
    match detail {
        Detail::Object(entries) => &entries.iter().find(|(k, _)| k == key).expect("field").1,
        Detail::Other(_) => panic!("not an object"),
    }
}

fn before_after(before: &Value, after: &Value) -> Value {
    let mut m = serde_json::Map::new();
    m.insert("before".to_string(), before.clone());
    m.insert("after".to_string(), after.clone());
    Value::Object(m)
}

/// The two client-address headers of a request, by name.
fn headers<'a>(pairs: &[(&'static str, &'a str)]) -> (Option<&'a str>, Option<&'a str>) {
    let mut forwarded = None;
    let mut real = None;
    for (k, v) in pairs {
        if *k == "x-forwarded-for" {
            forwarded = Some(*v);
        } else if *k == "x-real-ip" {
            real = Some(*v);
        }
    }
    (forwarded, real)
}

#[test]
fn redacts_password_secret_token_key_credential_fields() {
    let detail = object(vec![
        ("name", Value::from("my template")),
        ("password", Value::from("hunter2")),
        ("docker_registry_password", Value::from("secret1")),
        ("access_token", Value::from("abc123")),
        ("secret_key", Value::from("xyz")),
        ("credential", Value::from("kubeconfig")),
    ]);
    let redacted = redact_detail(detail, &redacted);
    assert_eq!(field(&redacted, "name"), "my template");
    assert_eq!(field(&redacted, "password"), "[REDACTED]");
    assert_eq!(field(&redacted, "docker_registry_password"), "[REDACTED]");
    assert_eq!(field(&redacted, "access_token"), "[REDACTED]");
    assert_eq!(field(&redacted, "secret_key"), "[REDACTED]");
    assert_eq!(field(&redacted, "credential"), "[REDACTED]");
}

#[test]
fn redaction_is_case_insensitive() {
    let detail = object(vec![
        ("Password", Value::from("x")),
        ("SECRET", Value::from("y")),
        ("ToKeN", Value::from("z")),
    ]);
    let redacted = redact_detail(detail, &redacted);
    assert_eq!(field(&redacted, "Password"), "[REDACTED]");
    assert_eq!(field(&redacted, "SECRET"), "[REDACTED]");
    assert_eq!(field(&redacted, "ToKeN"), "[REDACTED]");
}

#[test]
fn plain_fields_survive_and_nested_shapes_untouched() {
    let mut nested = serde_json::Map::new();
    nested.insert("password".to_string(), Value::from("inner-secret"));
    let detail = object(vec![
        ("cores", Value::from(4)),
        ("memory", Value::from(8192)),
        ("description", Value::from("plain text")),
        ("nested", Value::Object(nested)),
    ]);
    let redacted = redact_detail(detail, &redacted);
    assert_eq!(field(&redacted, "cores"), 4);
    assert_eq!(field(&redacted, "memory"), 8192);
    assert_eq!(field(&redacted, "description"), "plain text");
    // The rule applies at the top level of the diff object only; nested
    // objects pass through as values.
    assert_eq!(field(&redacted, "nested")["password"], "inner-secret");
}

#[test]
fn redact_passes_non_object_through() {
    match redact_detail(Detail::Other(Value::from(42)), &redacted) {
        Detail::Other(v) => assert_eq!(v, Value::from(42)),
        Detail::Object(_) => panic!("a non-object must pass through"),
    }
    match redact_detail(Detail::Other(Value::from("plain")), &redacted) {
        Detail::Other(v) => assert_eq!(v, Value::from("plain")),
        Detail::Object(_) => panic!("a non-object must pass through"),
    }
}

#[test]
fn diff_detail_redacts_sensitive_changes() {
    let changes = vec![
        ("name".to_string(), Value::from("old"), Value::from("new")),
        ("password".to_string(), Value::from("hunter2"), Value::from("hunter3")),
        ("max_run_seconds".to_string(), Value::from(3600), Value::from(7200)),
    ];
    let diff = diff_detail(&changes, &before_after, &redacted);
    assert_eq!(field(&diff, "name")["before"], "old");
    assert_eq!(field(&diff, "name")["after"], "new");
    assert_eq!(field(&diff, "password"), "[REDACTED]");
    assert_eq!(field(&diff, "max_run_seconds")["after"], 7200);
}

#[test]
fn empty_diff_is_empty_object() {
    let changes: Vec<(String, Value, Value)> = vec![];
    match diff_detail(&changes, &before_after, &redacted) {
        Detail::Object(entries) => assert!(entries.is_empty()),
        Detail::Other(_) => panic!("a diff is an object"),
    }
}

#[test]
fn client_ip_takes_rightmost_x_forwarded_for() {
    let h = headers(&[("x-forwarded-for", "10.0.0.2, 10.0.0.3")]);
    assert_eq!(client_ip(h.0, h.1).as_deref(), Some("10.0.0.3"));
}

#[test]
fn client_ip_single_x_forwarded_for_entry() {
    let h = headers(&[("x-forwarded-for", "203.0.113.7")]);
    assert_eq!(client_ip(h.0, h.1).as_deref(), Some("203.0.113.7"));
}

#[test]
fn client_ip_ignores_empty_trailing_entries() {
    let h = headers(&[("x-forwarded-for", "10.0.0.2, , ")]);
    assert_eq!(client_ip(h.0, h.1).as_deref(), Some("10.0.0.2"));
}

#[test]
fn client_ip_falls_back_to_x_real_ip() {
    let h = headers(&[("x-real-ip", "198.51.100.9")]);
    assert_eq!(client_ip(h.0, h.1).as_deref(), Some("198.51.100.9"));
}

#[test]
fn client_ip_prefers_x_forwarded_for_over_x_real_ip() {
    let h = headers(&[("x-forwarded-for", "10.0.0.9"), ("x-real-ip", "198.51.100.9")]);
    assert_eq!(client_ip(h.0, h.1).as_deref(), Some("10.0.0.9"));
}

#[test]
fn client_ip_none_when_headers_absent() {
    let h = headers(&[]);
    assert_eq!(client_ip(h.0, h.1), None);
}

#[test]
fn prune_due_when_never_run() {
    assert!(due_for_prune(None, NOW));
}

#[test]
fn prune_due_after_24h() {
    let now = NOW;
    let last = now - 24 * HOUR;
    assert!(due_for_prune(Some(last), now));
    let last = now - 24 * HOUR - MINUTE;
    assert!(due_for_prune(Some(last), now));
}

#[test]
fn prune_not_due_within_24h() {
    let now = NOW;
    let last = now - 23 * HOUR;
    assert!(!due_for_prune(Some(last), now));
    let last = now - 59 * SECOND;
    assert!(!due_for_prune(Some(last), now));
}

#[test]
fn retention_cutoff_is_now_minus_days() {
    let now = NOW;
    let cutoff = retention_cutoff(now, 90);
    assert_eq!((now - cutoff) / DAY_MICROS, 90);
}

#[test]
fn retention_cutoff_zero_or_negative_keeps_past() {
    let now = NOW;
    let cutoff = retention_cutoff(now, 0);
    assert_eq!(cutoff, now);
    let cutoff_neg = retention_cutoff(now, -5);
    assert_eq!(cutoff_neg, now);
}

fn event_with_created_at(ts: i64) -> AuditEvent<Value> {
    AuditEvent {
        created_at: ts,
        actor_user_id: None,
        actor_name: SYSTEM_ACTOR.to_string(),
        action: action::INSTANCE_AUTO_SLEEP.to_string(),
        target_type: target::INSTANCE.to_string(),
        target_id: None,
        target_name: None,
        outcome: outcome::SUCCESS.to_string(),
        client_ip: None,
        detail: None,
    }
}

#[test]
fn stamp_monotonic_preserves_distinct_timestamps() {
    let base = NOW;
    let mut last = None;
    for i in 0..3 {
        let mut e = event_with_created_at(base + i);
        stamp_monotonic(&mut e, &mut last);
        assert_eq!(e.created_at, base + i);
    }
}

#[test]
fn stamp_monotonic_bumps_microsecond_ties_forward_in_order() {
    let base = NOW;
    let mut last = None;
    let mut prev = None;
    for i in 0..6 {
        let mut e = event_with_created_at(base);
        stamp_monotonic(&mut e, &mut last);
        let expected = base + i;
        assert_eq!(e.created_at, expected, "tie {i} must be bumped in order");
        if let Some(p) = prev {
            assert!(e.created_at > p, "stamps must be strictly increasing");
        }
        prev = Some(e.created_at);
    }
}

#[test]
fn stamp_monotonic_bumps_out_of_order_events_after_previous() {
    let base = NOW;
    let mut last = None;
    let mut e = event_with_created_at(base);
    stamp_monotonic(&mut e, &mut last);
    assert_eq!(e.created_at, base);
    // A later event with an earlier wall-clock time must not regress.
    let mut e2 = event_with_created_at(base - SECOND);
    stamp_monotonic(&mut e2, &mut last);
    assert_eq!(e2.created_at, base + 1);
}

fn tester() -> AuthUser {
    AuthUser {
        user_id: 42,
        username: "alice".to_string(),
        context: EffectiveContext {
            user_id: 42,
            username: "alice".to_string(),
            is_admin: false,
            tier: 0,
            can_create_template: false,
            can_manage_users: false,
            can_manage_group_instances: false,
            can_manage_docker: false,
            can_manage_registry: false,
            can_view_monitoring: false,
            can_view_audit_logs: false,
            effective_max_instances: 2,
            allowed_template_ids: vec![],
            group_ids: vec![],
            direct_max_instances: None,
            group_billing: vec![],
            resource_quotas: ResourceUse { cpu_cores: -1, memory_mb: -1, gpu_count: -1 },
        },
    }
}

#[test]
fn from_auth_records_the_actor_and_defaults() {
    let e: AuditEvent<Value> =
        AuditEvent::from_auth(&tester(), action::INSTANCE_CREATE, target::INSTANCE, Some("10.0.0.9".to_string()), NOW);
    assert_eq!(e.created_at, NOW);
    assert_eq!(e.actor_user_id, Some(42));
    assert_eq!(e.actor_name, "alice");
    assert_eq!(e.action, "instance.create");
    assert_eq!(e.target_type, target::INSTANCE);
    assert_eq!(e.outcome, outcome::SUCCESS);
    assert_eq!(e.client_ip.as_deref(), Some("10.0.0.9"));
    assert!(e.target_id.is_none() && e.target_name.is_none() && e.detail.is_none());

    let e = e
        .with_target(Some("id-1".to_string()), Some("desk".to_string()))
        .with_outcome(outcome::FAILURE)
        .with_detail(Value::from(7));
    assert_eq!(e.target_id.as_deref(), Some("id-1"));
    assert_eq!(e.target_name.as_deref(), Some("desk"));
    assert_eq!(e.outcome, outcome::FAILURE);
    assert_eq!(e.detail, Some(Value::from(7)));
    assert_eq!(e.actor_name, "alice");
}

#[test]
fn url_userinfo_is_stripped() {
    assert_eq!(redact_url_userinfo("https://user:pw@registry.example.com/v2"), "https://registry.example.com/v2");
    assert_eq!(redact_url_userinfo("https://user@registry.example.com"), "https://user@registry.example.com");
    assert_eq!(redact_url_userinfo("registry.example.com"), "registry.example.com");
    assert_eq!(redact_url_userinfo("https://host/path@x"), "https://host/path@x");
    assert_eq!(redact_url_userinfo("ftp://a:b@c:d@host"), "ftp://c:d@host");
}

#[test]
fn flush_retries_back_off_then_give_up() {
    assert_eq!(flush_retry_delay_ms(1), Some(100));
    assert_eq!(flush_retry_delay_ms(2), Some(200));
    assert_eq!(flush_retry_delay_ms(3), Some(400));
    assert_eq!(flush_retry_delay_ms(4), None);
    assert_eq!(flush_retry_delay_ms(9), None);
}

#[test]
fn userinfo_is_stripped_only_inside_the_authority() {
    let url = "https://registry.example.com:5000/v2/app@sha256";
    assert_eq!(redact_url_userinfo(url), url);
    assert_eq!(redact_url_userinfo("https://host:443?q=a:b@c"), "https://host:443?q=a:b@c");
    assert_eq!(redact_url_userinfo("https://host#x:y@z"), "https://host#x:y@z");
    assert_eq!(
        redact_url_userinfo("https://bob:pw@registry.example.com:5000/v2/app@sha256"),
        "https://registry.example.com:5000/v2/app@sha256"
    );
}

#[test]
fn sensitive_keywords_match_in_any_ascii_case() {
    assert!(is_sensitive_field("Password"));
    assert!(is_sensitive_field("DOCKER_REGISTRY_PASSWORD"));
    assert!(is_sensitive_field("apiKey"));
    assert!(!is_sensitive_field("Name"));
    assert!(has_sensitive_keyword("access_token"));
    assert!(!has_sensitive_keyword("Access_Token"));
}
