//! Decisions of the background health worker, one instance at a time: when
//! a starting instance's probe has timed out, when a running instance has
//! outlived its template's maximum run time (auto-sleep), and when an idle
//! session is reclaimed (keep-time). The worker performs the I/O; these
//! functions decide. Timestamps are microseconds since the Unix epoch.

use vstd::prelude::*;

use crate::audit::{due_for_prune, retention_cutoff, DAY_MICROS};
use crate::docker::RemoteType;
use crate::text::{decimal, push_decimal, push_str, str_eq};

verus! {

/// Seconds a starting instance may fail its probe before it is marked
/// `error`.
pub const PROBE_TIMEOUT_SECS: i64 = 120;

/// Whole seconds from `then` to `now`, truncated toward zero.
pub open spec fn elapsed_seconds(now: i64, then: i64) -> int {
    let d = now - then;
    if d >= 0 {
        d / 1_000_000
    } else {
        -((-d) / 1_000_000)
    }
}

/// Whole seconds from `then` to `now`, truncated toward zero.
pub fn elapsed_secs(now: i64, then: i64) -> (r: i64)
    ensures
        r == elapsed_seconds(now, then),
{
    let d: i128 = (now as i128) - (then as i128);
    if d >= 0 {
        (d / 1_000_000) as i64
    } else {
        -(((-d) / 1_000_000) as i64)
    }
}

/// What a template's timeout or keep-time action does to an instance.
#[derive(Debug, Clone, Copy, PartialEq, Eq, Structural)]
pub enum TimeoutAction {
    Remove,
    Stop,
    Pause,
}

/// The action a template names: `remove`, `stop` or `pause`.
pub open spec fn timeout_action_of(s: Seq<char>) -> Option<TimeoutAction> {
    if s == "remove"@ {
        Some(TimeoutAction::Remove)
    } else if s == "stop"@ {
        Some(TimeoutAction::Stop)
    } else if s == "pause"@ {
        Some(TimeoutAction::Pause)
    } else {
        None
    }
}

/// The action a template names; `None` for any other name.
pub fn parse_timeout_action(s: &str) -> (r: Option<TimeoutAction>)
    ensures
        r == timeout_action_of(s@),
{
    if str_eq(s, "remove") {
        Some(TimeoutAction::Remove)
    } else if str_eq(s, "stop") {
        Some(TimeoutAction::Stop)
    } else if str_eq(s, "pause") {
        Some(TimeoutAction::Pause)
    } else {
        None
    }
}

/// What the worker does with one instance.
#[derive(Debug, Clone, Copy, PartialEq, Eq, Structural)]
pub enum Reclaim {
    /// Leave the instance alone.
    Skip,
    /// Apply the template's action (and audit it when it succeeds).
    Act(TimeoutAction),
    /// The template names an unknown action: warn and leave it alone.
    InvalidAction,
}

/// The reclaim of an instance whose time is up: the named action, or the
/// warning for an unknown one.
pub open spec fn reclaim_with(action: Seq<char>) -> Reclaim {
    match timeout_action_of(action) {
        Some(a) => Reclaim::Act(a),
        None => Reclaim::InvalidAction,
    }
}

fn reclaim_action(action: &str) -> (r: Reclaim)
    ensures
        r == reclaim_with(action@),
{
    match parse_timeout_action(action) {
        Some(a) => Reclaim::Act(a),
        None => Reclaim::InvalidAction,
    }
}

/// Auto-sleep: an instance whose template has a maximum run time, and that
/// has a start time, is reclaimed once it has run at least that many
/// seconds.
pub open spec fn auto_sleep_spec(
    max_run_seconds: Option<i64>,
    started_at: Option<i64>,
    now: i64,
    action: Seq<char>,
) -> Reclaim {
    match (max_run_seconds, started_at) {
        (Some(max), Some(start)) => if elapsed_seconds(now, start) < max {
            Reclaim::Skip
        } else {
            reclaim_with(action)
        },
        _ => Reclaim::Skip,
    }
}

/// The auto-sleep decision for one running instance.
pub fn auto_sleep_decision(
    max_run_seconds: Option<i64>,
    started_at: Option<i64>,
    now: i64,
    timeout_action: &str,
) -> (r: Reclaim)
    ensures
        r == auto_sleep_spec(max_run_seconds, started_at, now, timeout_action@),
{
    let max = match max_run_seconds {
        Some(m) => m,
        None => return Reclaim::Skip,
    };
    let start = match started_at {
        Some(s) => s,
        None => return Reclaim::Skip,
    };
    if elapsed_secs(now, start) < max {
        return Reclaim::Skip;
    }
    reclaim_action(timeout_action)
}

/// Before the keep-time clock is consulted: whether the session connection
/// must be checked first, and on which service port.
#[derive(Debug, Clone, PartialEq, Eq)]
pub enum KeepTimeCheck {
    /// No keep-time on the template, or no last-seen time: nothing to do.
    Skip,
    /// The instance has no container: warn and leave it alone.
    NoContainer,
    /// The template's remote type is unknown: warn (with this message) and
    /// leave it alone.
    InvalidRemoteType(String),
    /// Check for a live connection on this port.
    CheckSession(u16),
}

/// The keep-time pre-check of one running instance.
pub fn keep_time_check(
    keep_time_seconds: Option<i64>,
    last_seen_at: Option<i64>,
    has_container: bool,
    remote_type: &str,
) -> (r: KeepTimeCheck)
    ensures
        keep_time_seconds is None || last_seen_at is None ==> r == KeepTimeCheck::Skip,
        keep_time_seconds is Some && last_seen_at is Some && !has_container ==> r
            == KeepTimeCheck::NoContainer,
        keep_time_seconds is Some && last_seen_at is Some && has_container ==> match r {
            KeepTimeCheck::CheckSession(port) => exists|t: RemoteType|
                t.spec_name() == remote_type@ && port == t.spec_port(),
            KeepTimeCheck::InvalidRemoteType(e) => e@ == "unknown remote_type: "@ + remote_type@
                && remote_type@ != "kasmvnc"@ && remote_type@ != "ttyd"@ && remote_type@
                != "jupyter"@,
            _ => false,
        },
{
    if keep_time_seconds.is_none() || last_seen_at.is_none() {
        return KeepTimeCheck::Skip;
    }
    if !has_container {
        return KeepTimeCheck::NoContainer;
    }
    match RemoteType::parse(remote_type) {
        Ok(t) => KeepTimeCheck::CheckSession(t.port()),
        Err(e) => KeepTimeCheck::InvalidRemoteType(e),
    }
}

/// What follows the session check of keep-time.
#[derive(Debug, Clone, Copy, PartialEq, Eq, Structural)]
pub enum KeepTimeStep {
    /// A client is connected: refresh the last-seen time and keep the
    /// instance.
    RefreshLastSeen,
    /// Continue with the reclaim decision.
    Reclaim(Reclaim),
}

/// Keep-time: a live session resets the clock; a failed connection check
/// skips enforcement (fail-open); otherwise the instance is reclaimed once
/// it has been unseen for at least the keep time.
pub open spec fn keep_time_spec(
    session: Option<bool>,
    keep_time_seconds: i64,
    last_seen_at: i64,
    now: i64,
    action: Seq<char>,
) -> KeepTimeStep {
    match session {
        Some(true) => KeepTimeStep::RefreshLastSeen,
        None => KeepTimeStep::Reclaim(Reclaim::Skip),
        Some(false) => if elapsed_seconds(now, last_seen_at) < keep_time_seconds {
            KeepTimeStep::Reclaim(Reclaim::Skip)
        } else {
            KeepTimeStep::Reclaim(reclaim_with(action))
        },
    }
}

/// The keep-time decision once the session check answered: `Some(live)`,
/// or `None` when the check itself failed.
pub fn keep_time_decision(
    session: Option<bool>,
    keep_time_seconds: i64,
    last_seen_at: i64,
    now: i64,
    keep_time_action: &str,
) -> (r: KeepTimeStep)
    ensures
        r == keep_time_spec(session, keep_time_seconds, last_seen_at, now, keep_time_action@),
{
    match session {
        Some(true) => KeepTimeStep::RefreshLastSeen,
        None => KeepTimeStep::Reclaim(Reclaim::Skip),
        Some(false) => {
            if elapsed_secs(now, last_seen_at) < keep_time_seconds {
                KeepTimeStep::Reclaim(Reclaim::Skip)
            } else {
                KeepTimeStep::Reclaim(reclaim_action(keep_time_action))
            }
        },
    }
}

/// A connected session is never reclaimed, whatever the clock says.
pub proof fn law_live_session_is_never_reclaimed(
    keep_time_seconds: i64,
    last_seen_at: i64,
    now: i64,
    action: Seq<char>,
)
    ensures
        keep_time_spec(Some(true), keep_time_seconds, last_seen_at, now, action)
            == KeepTimeStep::RefreshLastSeen,
{
}

/// A failed connection check never reclaims (enforcement fails open).
pub proof fn law_failed_check_fails_open(
    keep_time_seconds: i64,
    last_seen_at: i64,
    now: i64,
    action: Seq<char>,
)
    ensures
        keep_time_spec(None, keep_time_seconds, last_seen_at, now, action) == KeepTimeStep::Reclaim(
            Reclaim::Skip,
        ),
{
}

/// The URL a starting instance is probed at: the host gateway and its
/// published host port, over HTTPS.
pub fn probe_url(host_gateway_ip: &str, host_port: u16) -> (r: String)
    ensures
        r@ == "https://"@ + host_gateway_ip@ + seq![':'] + decimal(host_port as nat) + seq!['/'],
{
    let mut r = String::new();
    push_str(&mut r, "https://");
    push_str(&mut r, host_gateway_ip);
    crate::text::push_char(&mut r, ':');
    push_decimal(&mut r, host_port as u64);
    crate::text::push_char(&mut r, '/');
    assert(r@ =~= "https://"@ + host_gateway_ip@ + seq![':'] + decimal(host_port as nat) + seq![
        '/',
    ]);
    r
}

/// What a failed probe leads to.
#[derive(Debug, Clone, PartialEq, Eq)]
pub enum ProbeTimeout {
    /// The instance has been starting for too long: mark it `error`.
    MarkError { elapsed: i64 },
    /// Keep waiting; the message says why and for how long.
    Wait(String),
}

/// `n` in decimal with a leading `-` when negative.
pub open spec fn signed_decimal(n: int) -> Seq<char> {
    if n < 0 {
        seq!['-'] + decimal((-n) as nat)
    } else {
        decimal(n as nat)
    }
}

/// A failed probe of an instance last updated at `updated_at`: mark it
/// `error` once at least `PROBE_TIMEOUT_SECS` have passed, otherwise wait
/// with `"<reason> (<elapsed>s elapsed)"`.
pub fn probe_timeout(updated_at: i64, now: i64, reason: &str) -> (r: ProbeTimeout)
    ensures
        elapsed_seconds(now, updated_at) >= PROBE_TIMEOUT_SECS ==> r == (ProbeTimeout::MarkError {
            elapsed: elapsed_seconds(now, updated_at) as i64,
        }),
        elapsed_seconds(now, updated_at) < PROBE_TIMEOUT_SECS ==> r is Wait && r->Wait_0@
            == reason@ + " ("@ + signed_decimal(elapsed_seconds(now, updated_at)) + "s elapsed)"@,
{
    let elapsed = elapsed_secs(now, updated_at);
    if elapsed >= PROBE_TIMEOUT_SECS {
        return ProbeTimeout::MarkError { elapsed };
    }
    let mut m = String::new();
    push_str(&mut m, reason);
    push_str(&mut m, " (");
    if elapsed < 0 {
        crate::text::push_char(&mut m, '-');
        push_decimal(&mut m, (0 - (elapsed as i128)) as u64);
    } else {
        push_decimal(&mut m, elapsed as u64);
    }
    push_str(&mut m, "s elapsed)");
    assert(m@ =~= reason@ + " ("@ + signed_decimal(elapsed as int) + "s elapsed)"@);
    ProbeTimeout::Wait(m)
}

/// The microseconds of `retention_days` whole days, none when the retention
/// is not positive.
pub open spec fn retention_span(retention_days: i64) -> int {
    (if retention_days > 0 {
        retention_days
    } else {
        0
    }) * DAY_MICROS
}

/// A prune is due when none ever ran or a day has passed since the last.
pub open spec fn prune_due(last_prune_at: Option<i64>, now: i64) -> bool {
    match last_prune_at {
        None => true,
        Some(last) => now - last >= DAY_MICROS,
    }
}

/// The audit prune of a worker tick: the cutoff to prune before when a prune
/// is due (never run, or a day since the last one), `None` otherwise.
pub fn audit_prune_plan(last_prune_at: Option<i64>, now: i64, retention_days: i64) -> (r: Option<i64>)
    requires
        retention_days <= i64::MAX / DAY_MICROS,
        now - retention_span(retention_days) >= i64::MIN,
    ensures
        r == if prune_due(last_prune_at, now) {
            Some((now - retention_span(retention_days)) as i64)
        } else {
            None
        },
{
    if due_for_prune(last_prune_at, now) {
        Some(retention_cutoff(now, retention_days))
    } else {
        None
    }
}

/// The last-prune time after a tick: `now` once a prune succeeded,
/// unchanged when none was due or it failed.
pub fn last_prune_after(last_prune_at: Option<i64>, now: i64, pruned: bool) -> (r: Option<i64>)
    ensures
        r == if pruned {
            Some(now)
        } else {
            last_prune_at
        },
{
    if pruned {
        Some(now)
    } else {
        last_prune_at
    }
}

/// The audit log is pruned at most once a day: once a prune has run at
/// `last`, none is due at any time less than a day later.
pub proof fn law_prune_at_most_daily(last: i64, later: i64)
    requires
        later - last < DAY_MICROS,
    ensures
        !prune_due(Some(last), later),
{
}

/// Keep-time measures idleness from the last-seen time: with no live session
/// and a check that answered, an instance seen fewer than
/// `keep_time_seconds` whole seconds ago is kept, one unseen for at least
/// that long is reclaimed with the template's action, and a last-seen time
/// ahead of the clock never reclaims under a positive keep time.
pub proof fn law_keep_time_counts_idle_seconds_since_last_seen(
    keep_time_seconds: i64,
    last_seen_at: i64,
    now: i64,
    action: Seq<char>,
)
    ensures
        0 <= now - last_seen_at < keep_time_seconds * 1_000_000 ==> keep_time_spec(
            Some(false),
            keep_time_seconds,
            last_seen_at,
            now,
            action,
        ) == KeepTimeStep::Reclaim(Reclaim::Skip),
        now - last_seen_at >= 0 && now - last_seen_at >= keep_time_seconds * 1_000_000
            ==> keep_time_spec(Some(false), keep_time_seconds, last_seen_at, now, action)
            == KeepTimeStep::Reclaim(reclaim_with(action)),
        now < last_seen_at && keep_time_seconds > 0 ==> keep_time_spec(
            Some(false),
            keep_time_seconds,
            last_seen_at,
            now,
            action,
        ) == KeepTimeStep::Reclaim(Reclaim::Skip),
{
    let d = now - last_seen_at;
    if d >= 0 {
        assert(d < keep_time_seconds * 1_000_000 ==> d / 1_000_000 < keep_time_seconds) by (nonlinear_arith);
        assert(d >= keep_time_seconds * 1_000_000 ==> d / 1_000_000 >= keep_time_seconds) by (nonlinear_arith);
    } else {
        assert((-d) / 1_000_000 >= 0) by (nonlinear_arith)
            requires
                -d > 0,
        ;
    }
}

/// Keep-time depends on the clock only through the time since the instance
/// was last seen: moving both the last-seen time and the clock by the same
/// amount never changes the decision.
pub proof fn law_keep_time_ignores_the_absolute_clock(
    session: Option<bool>,
    keep_time_seconds: i64,
    last_seen_at: i64,
    now: i64,
    shift: i64,
    action: Seq<char>,
)
    requires
        i64::MIN <= last_seen_at + shift <= i64::MAX,
        i64::MIN <= now + shift <= i64::MAX,
    ensures
        keep_time_spec(session, keep_time_seconds, last_seen_at, now, action) == keep_time_spec(
            session,
            keep_time_seconds,
            (last_seen_at + shift) as i64,
            (now + shift) as i64,
            action,
        ),
{
}

/// Auto-sleep measures the run time from the start time: an instance that
/// has run fewer than `max_run_seconds` whole seconds is kept, one that has
/// run at least that long is reclaimed with the template's action, and an
/// instance with no maximum or no start time is never reclaimed.
pub proof fn law_auto_sleep_counts_run_seconds_since_start(
    max_run_seconds: i64,
    started_at: i64,
    now: i64,
    action: Seq<char>,
)
    ensures
        0 <= now - started_at < max_run_seconds * 1_000_000 ==> auto_sleep_spec(
            Some(max_run_seconds),
            Some(started_at),
            now,
            action,
        ) == Reclaim::Skip,
        now - started_at >= 0 && now - started_at >= max_run_seconds * 1_000_000 ==> auto_sleep_spec(
            Some(max_run_seconds),
            Some(started_at),
            now,
            action,
        ) == reclaim_with(action),
        auto_sleep_spec(None, Some(started_at), now, action) == Reclaim::Skip,
        auto_sleep_spec(Some(max_run_seconds), None, now, action) == Reclaim::Skip,
{
    let d = now - started_at;
    if d >= 0 {
        assert(d < max_run_seconds * 1_000_000 ==> d / 1_000_000 < max_run_seconds) by (nonlinear_arith);
        assert(d >= max_run_seconds * 1_000_000 ==> d / 1_000_000 >= max_run_seconds) by (nonlinear_arith);
    }
}

} // verus!
