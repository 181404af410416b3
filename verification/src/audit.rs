//! The audit trail's event model and its pure rules: which fields are
//! redacted, how credentials are scrubbed from URLs, which client address is
//! recorded, when the log is pruned, how event timestamps are made strictly
//! increasing, and how a failed batch insert is retried. Timestamps are
//! microseconds since the Unix epoch.

pub mod action;
pub mod outcome;
pub mod target;

use vstd::prelude::*;

use crate::auth::AuthUser;
use crate::text::{
    chars_of, contains, find, find_chars, owned, push_chars, slice_chars, split, split_chars,
    string_of, trim, trim_chars,
};

verus! {

pub const AUDIT_CHANNEL_CAPACITY: usize = 1024;

pub const AUDIT_BATCH_SIZE: usize = 50;

/// Flush interval of the writer, in milliseconds.
pub const AUDIT_FLUSH_INTERVAL_MS: u64 = 500;

/// Bounded retries per flush (then the batch is dropped).
pub const AUDIT_WRITER_MAX_RETRIES: u32 = 4;

/// `actor_name` of system-triggered events.
pub const SYSTEM_ACTOR: &'static str = "system";

/// The value that replaces a sensitive field.
pub const REDACTED: &'static str = "[REDACTED]";

/// Microseconds in a day.
pub const DAY_MICROS: i64 = 86400000000;

/// A single audit event; `D` is the type of its structured detail.
#[derive(Debug, Clone)]
pub struct AuditEvent<D> {
    /// Microseconds since the Unix epoch.
    pub created_at: i64,
    /// `None` when no authenticated user exists (failed logins).
    pub actor_user_id: Option<u128>,
    pub actor_name: String,
    pub action: String,
    pub target_type: String,
    pub target_id: Option<String>,
    pub target_name: Option<String>,
    pub outcome: String,
    pub client_ip: Option<String>,
    /// Changed-field before/after diff for edit events (already redacted).
    pub detail: Option<D>,
}

impl<D> AuditEvent<D> {
    /// A successful event of an authenticated actor at time `now`.
    pub fn from_auth(
        auth: &AuthUser,
        action: &str,
        target_type: &str,
        client_ip: Option<String>,
        now: i64,
    ) -> (e: AuditEvent<D>)
        ensures
            e.created_at == now,
            e.actor_user_id == Some(auth.user_id),
            e.actor_name@ == auth.username@,
            e.action@ == action@,
            e.target_type@ == target_type@,
            e.target_id is None,
            e.target_name is None,
            e.outcome@ == outcome::SUCCESS@,
            e.client_ip == client_ip,
            e.detail is None,
    {
        AuditEvent {
            created_at: now,
            actor_user_id: Some(auth.user_id),
            actor_name: auth.username.clone(),
            action: owned(action),
            target_type: owned(target_type),
            target_id: None,
            target_name: None,
            outcome: owned(outcome::SUCCESS),
            client_ip,
            detail: None,
        }
    }

    /// A successful event of the system actor (auto-sleep, ...) at `now`.
    pub fn system(action: &str, target_type: &str, now: i64) -> (e: AuditEvent<D>)
        ensures
            e.created_at == now,
            e.actor_user_id is None,
            e.actor_name@ == SYSTEM_ACTOR@,
            e.action@ == action@,
            e.target_type@ == target_type@,
            e.target_id is None,
            e.target_name is None,
            e.outcome@ == outcome::SUCCESS@,
            e.client_ip is None,
            e.detail is None,
    {
        AuditEvent {
            created_at: now,
            actor_user_id: None,
            actor_name: owned(SYSTEM_ACTOR),
            action: owned(action),
            target_type: owned(target_type),
            target_id: None,
            target_name: None,
            outcome: owned(outcome::SUCCESS),
            client_ip: None,
            detail: None,
        }
    }

    /// A failed event with no authenticated user (a failed login): the actor
    /// is the submitted name, or `anonymous` when it is missing or blank.
    pub fn anonymous(
        submitted_name: Option<&str>,
        action: &str,
        target_type: &str,
        client_ip: Option<String>,
        now: i64,
    ) -> (e: AuditEvent<D>)
        ensures
            e.created_at == now,
            e.actor_user_id is None,
            e.actor_name@ == match submitted_name {
                Some(n) => if trim(n@).len() > 0 {
                    n@
                } else {
                    "anonymous"@
                },
                None => "anonymous"@,
            },
            e.action@ == action@,
            e.target_type@ == target_type@,
            e.target_id is None,
            e.target_name is None,
            e.outcome@ == outcome::FAILURE@,
            e.client_ip == client_ip,
            e.detail is None,
    {
        let name = match submitted_name {
            Some(n) => {
                let v = chars_of(n);
                let t = trim_chars(&v);
                if t.len() > 0 {
                    owned(n)
                } else {
                    owned("anonymous")
                }
            },
            None => owned("anonymous"),
        };
        AuditEvent {
            created_at: now,
            actor_user_id: None,
            actor_name: name,
            action: owned(action),
            target_type: owned(target_type),
            target_id: None,
            target_name: None,
            outcome: owned(outcome::FAILURE),
            client_ip,
            detail: None,
        }
    }

    /// An `auth.forbidden` event of an authenticated actor whose request was
    /// refused.
    pub fn forbidden(user_id: u128, username: String, client_ip: Option<String>, now: i64) -> (e:
        AuditEvent<D>)
        ensures
            e.created_at == now,
            e.actor_user_id == Some(user_id),
            e.actor_name == username,
            e.action@ == action::FORBIDDEN@,
            e.target_type@ == target::NONE@,
            e.target_id is None,
            e.target_name is None,
            e.outcome@ == outcome::FAILURE@,
            e.client_ip == client_ip,
            e.detail is None,
    {
        AuditEvent {
            created_at: now,
            actor_user_id: Some(user_id),
            actor_name: username,
            action: owned(action::FORBIDDEN),
            target_type: owned(target::NONE),
            target_id: None,
            target_name: None,
            outcome: owned(outcome::FAILURE),
            client_ip,
            detail: None,
        }
    }

    pub fn with_target(self, id: Option<String>, name: Option<String>) -> (e: AuditEvent<D>)
        ensures
            e == (AuditEvent { target_id: id, target_name: name, ..self }),
    {
        AuditEvent { target_id: id, target_name: name, ..self }
    }

    pub fn with_detail(self, detail: D) -> (e: AuditEvent<D>)
        ensures
            e == (AuditEvent { detail: Some(detail), ..self }),
    {
        AuditEvent { detail: Some(detail), ..self }
    }

    pub fn with_outcome(self, outcome: &str) -> (e: AuditEvent<D>)
        ensures
            e.outcome@ == outcome@,
            e == (AuditEvent { outcome: e.outcome, ..self }),
    {
        AuditEvent { outcome: owned(outcome), ..self }
    }
}

// ───────────────────────── redaction ─────────────────────────

/// The Unicode lowercase mapping of a string, as `str::to_lowercase`
/// computes it (locale-independent, so a function of the string alone).
pub uninterp spec fn lowercase(s: Seq<char>) -> Seq<char>;

/// The ASCII lowercase of one character: `A`..`Z` become `a`..`z`, every
/// other character stays.
pub open spec fn ascii_lower(c: char) -> char {
    if 'A' <= c && c <= 'Z' {
        ((c as u32) + 32) as char
    } else {
        c
    }
}

/// Every character of `s` is ASCII.
pub open spec fn is_ascii_text(s: Seq<char>) -> bool {
    forall|i: int| 0 <= i < s.len() ==> (s[i] as u32) < 128
}

/// The ASCII lowercase of a text, character by character.
pub open spec fn ascii_lowercase(s: Seq<char>) -> Seq<char> {
    s.map_values(|c: char| ascii_lower(c))
}

/// Trusted: `str::to_lowercase` returns the lowercase mapping of its
/// argument. Of that mapping the contract states only the ASCII case, as
/// std documents it: an all-ASCII text is lowered letter by letter (`A`..`Z`
/// to `a`..`z`, everything else kept). Nothing is claimed of other
/// characters.
#[verifier::external_body]
fn to_lowercase(s: &str) -> (r: String)
    ensures
        r@ == lowercase(s@),
        is_ascii_text(s@) ==> r@ == ascii_lowercase(s@),
{
    s.to_lowercase()
}

/// An already-lowercased field name containing `password`, `secret`,
/// `token`, `key` or `credential`.
pub open spec fn sensitive_keyword(l: Seq<char>) -> bool {
    ||| contains(l, "password"@)
    ||| contains(l, "secret"@)
    ||| contains(l, "token"@)
    ||| contains(l, "key"@)
    ||| contains(l, "credential"@)
}

/// A field whose lowercased name contains a sensitive keyword.
pub open spec fn sensitive(field: Seq<char>) -> bool {
    sensitive_keyword(lowercase(field))
}

fn contains_str(hay: &Vec<char>, needle: &str) -> (r: bool)
    ensures
        r == contains(hay@, needle@),
{
    let n = chars_of(needle);
    crate::text::contains_chars(hay, &n)
}

/// Whether an already-lowercased field name contains one of the sensitive
/// keywords.
pub fn has_sensitive_keyword(lowered: &str) -> (r: bool)
    ensures
        r == sensitive_keyword(lowered@),
{
    let l = chars_of(lowered);
    contains_str(&l, "password") || contains_str(&l, "secret") || contains_str(&l, "token")
        || contains_str(&l, "key") || contains_str(&l, "credential")
}

/// Whether a field's value must be redacted (case-insensitive substring
/// match of the sensitive keywords); for an ASCII name, the keywords are
/// matched against its ASCII lowercase.
pub fn is_sensitive_field(field: &str) -> (r: bool)
    ensures
        r == sensitive(field@),
        is_ascii_text(field@) ==> r == sensitive_keyword(ascii_lowercase(field@)),
{
    let lower = to_lowercase(field);
    has_sensitive_keyword(lower.as_str())
}

/// A structured audit detail: an object's `(field, value)` entries in order,
/// or any other value.
#[derive(Debug, Clone)]
pub enum Detail<V> {
    Object(Vec<(String, V)>),
    Other(V),
}

/// Replace the value of every sensitive top-level field with the value that
/// `redacted` makes; every other field keeps its value, nested values are
/// not walked, and a non-object detail passes through unchanged.
pub fn redact_detail<V, F: Fn() -> V>(detail: Detail<V>, redacted: &F) -> (r: Detail<V>)
    requires
        call_requires(*redacted, ()),
    ensures
        match detail {
            Detail::Other(v) => r == Detail::<V>::Other(v),
            Detail::Object(entries) => r is Object && r->Object_0@.len() == entries@.len() && forall|i: int|
                0 <= i < entries@.len() ==> (#[trigger] r->Object_0@[i]).0 == entries@[i].0 && if sensitive(
                    entries@[i].0@,
                ) {
                    call_ensures(*redacted, (), r->Object_0@[i].1)
                } else {
                    r->Object_0@[i].1 == entries@[i].1
                },
        },
{
    match detail {
        Detail::Other(v) => Detail::Other(v),
        Detail::Object(entries) => {
            let ghost orig = entries@;
            let mut rest = entries;
            let mut out: Vec<(String, V)> = Vec::new();
            let ghost mut taken: int = 0;
            while rest.len() > 0
                invariant
                    call_requires(*redacted, ()),
                    0 <= taken <= orig.len(),
                    out@.len() == taken,
                    rest@.len() == orig.len() - taken,
                    rest@ == orig.subrange(taken, orig.len() as int),
                    forall|i: int|
                        0 <= i < taken ==> (#[trigger] out@[i]).0 == orig[i].0 && if sensitive(orig[i].0@) {
                            call_ensures(*redacted, (), out@[i].1)
                        } else {
                            out@[i].1 == orig[i].1
                        },
                decreases rest@.len(),
            {
                let (key, value) = rest.remove(0);
                assert(key == orig[taken].0 && value == orig[taken].1);
                if is_sensitive_field(key.as_str()) {
                    let v = redacted();
                    out.push((key, v));
                } else {
                    out.push((key, value));
                }
                proof {
                    taken = taken + 1;
                }
            }
            Detail::Object(out)
        },
    }
}

/// The redacted `field: {before, after}` diff of the changed fields: `pair`
/// builds the `{before, after}` value of a field, `redacted` the value of a
/// sensitive one. Redaction is part of building the diff, so no caller can
/// skip it.
pub fn diff_detail<V, P: Fn(&V, &V) -> V, F: Fn() -> V>(
    changes: &[(String, V, V)],
    pair: &P,
    redacted: &F,
) -> (r: Detail<V>)
    requires
        forall|b: &V, a: &V| call_requires(*pair, (b, a)),
        call_requires(*redacted, ()),
    ensures
        r is Object,
        r->Object_0@.len() == changes@.len(),
        forall|i: int|
            0 <= i < changes@.len() ==> (#[trigger] r->Object_0@[i]).0@ == changes@[i].0@ && if sensitive(
                changes@[i].0@,
            ) {
                call_ensures(*redacted, (), r->Object_0@[i].1)
            } else {
                call_ensures(*pair, (&changes@[i].1, &changes@[i].2), r->Object_0@[i].1)
            },
{
    let mut entries: Vec<(String, V)> = Vec::new();
    let mut i: usize = 0;
    while i < changes.len()
        invariant
            forall|b: &V, a: &V| call_requires(*pair, (b, a)),
            i <= changes@.len(),
            entries@.len() == i,
            forall|j: int|
                0 <= j < i ==> (#[trigger] entries@[j]).0@ == changes@[j].0@ && call_ensures(
                    *pair,
                    (&changes@[j].1, &changes@[j].2),
                    entries@[j].1,
                ),
        decreases changes@.len() - i,
    {
        let (field, before, after) = &changes[i];
        let v = pair(before, after);
        entries.push((field.clone(), v));
        i = i + 1;
    }
    redact_detail(Detail::Object(entries), redacted)
}

/// Redaction depends on a field name only through its lowercase form, so
/// names that differ only in case are redacted alike.
pub proof fn law_redaction_is_case_insensitive(a: Seq<char>, b: Seq<char>)
    requires
        lowercase(a) == lowercase(b),
    ensures
        sensitive(a) == sensitive(b),
{
}

// ───────────────────────── URL userinfo ─────────────────────────

/// A URL with any `user:pass@` userinfo of its authority removed: the text
/// after `://` up to the first `/`, `?` or `#` is the authority, and when it
/// holds an `@` with a `:` before it, everything up to that `@` goes.
/// Anything else (no scheme, no `@` in the authority, no `:` before it)
/// leaves the URL unchanged.
pub open spec fn url_without_userinfo(url: Seq<char>) -> Seq<char> {
    match find(url, "://"@) {
        None => url,
        Some(s) => strip_userinfo(url, url.subrange(0, s + 3), url.subrange(s + 3, url.len() as int)),
    }
}

/// Where a text ends at the first `c`, or its length when it has none.
pub open spec fn end_at(s: Seq<char>, c: char) -> int {
    match find(s, seq![c]) {
        Some(i) => i,
        None => s.len() as int,
    }
}

/// The length of the authority at the front of the text after `://`: up to
/// the first `/`, `?` or `#`.
pub open spec fn authority_len(after: Seq<char>) -> int {
    let a = end_at(after, '/');
    let b = end_at(after, '?');
    let c = end_at(after, '#');
    let ab = if a <= b { a } else { b };
    if ab <= c { ab } else { c }
}

/// `url` with the userinfo of the authority at the front of `after` (the
/// text after its scheme separator, `head` being the text up to and
/// including it) removed.
pub open spec fn strip_userinfo(url: Seq<char>, head: Seq<char>, after: Seq<char>) -> Seq<char> {
    let auth = after.subrange(0, authority_len(after));
    match find(auth, seq!['@']) {
        Some(at) => if auth.subrange(0, at).contains(':') {
            head + after.subrange(at + 1, after.len() as int)
        } else {
            url
        },
        None => url,
    }
}

/// Strip any `user:pass@` userinfo from a URL so embedded credentials never
/// reach the audit diff.
pub fn redact_url_userinfo(url: &str) -> (r: String)
    ensures
        r@ == url_without_userinfo(url@),
{
    let v = chars_of(url);
    let sep = chars_of("://");
    match find_chars(&v, &sep) {
        None => owned(url),
        Some(s) => {
            let r = strip_after_scheme(url, &v, s);
            assert(find(url@, "://"@) == Some(s as int));
            r
        },
    }
}

fn strip_after_scheme(url: &str, v: &Vec<char>, s: usize) -> (r: String)
    requires
        v@ == url@,
        crate::text::matches_at(url@, "://"@, s as int),
    ensures
        r@ == strip_userinfo(url@, url@.subrange(0, s + 3), url@.subrange(s + 3, url@.len() as int)),
{
    proof {
        reveal_strlit("://");
    }
    let n = v.len();
    assert(s + 3 <= n);
    let head = slice_chars(v, 0, s + 3);
    let after = slice_chars(v, s + 3, n);
    strip_userinfo_chars(url, &head, &after)
}

fn end_at_chars(v: &Vec<char>, c: char) -> (r: usize)
    ensures
        r == end_at(v@, c),
        r <= v@.len(),
{
    let needle = vec![c];
    assert(needle@ =~= seq![c]);
    match find_chars(v, &needle) {
        Some(i) => i,
        None => v.len(),
    }
}

#[verifier::rlimit(50)]
fn strip_userinfo_chars(url: &str, head: &Vec<char>, after: &Vec<char>) -> (r: String)
    ensures
        r@ == strip_userinfo(url@, head@, after@),
{
    let a = end_at_chars(after, '/');
    let b = end_at_chars(after, '?');
    let c = end_at_chars(after, '#');
    let ab = if a <= b { a } else { b };
    let e = if ab <= c { ab } else { c };
    assert(e == authority_len(after@));
    let auth = slice_chars(after, 0, e);
    let at_v = vec!['@'];
    assert(at_v@ =~= seq!['@']);
    match find_chars(&auth, &at_v) {
        None => owned(url),
        Some(at) => {
            assert(seq!['@'].len() == 1);
            let user = slice_chars(&auth, 0, at);
            if crate::text::has_char(&user, ':') {
                let n = after.len();
                assert(at < e);
                let tail = slice_chars(after, at + 1, n);
                let mut out = string_of(head);
                push_chars(&mut out, &tail);
                assert(out@ =~= head@ + after@.subrange(at + 1, after@.len() as int));
                out
            } else {
                owned(url)
            }
        },
    }
}

// ───────────────────────── client address ─────────────────────────

/// The rightmost entry of `pieces` that is not blank, trimmed.
pub open spec fn rightmost_entry(pieces: Seq<Seq<char>>) -> Option<Seq<char>>
    decreases pieces.len(),
{
    if pieces.len() == 0 {
        None
    } else if trim(pieces.last()).len() > 0 {
        Some(trim(pieces.last()))
    } else {
        rightmost_entry(pieces.drop_last())
    }
}

/// The recorded client address: the rightmost non-blank `X-Forwarded-For`
/// entry (the last hop the proxy appended), else the trimmed `X-Real-IP`
/// when it is not blank, else none.
pub open spec fn client_ip_spec(forwarded_for: Option<Seq<char>>, real_ip: Option<Seq<char>>) -> Option<
    Seq<char>,
> {
    let from_forwarded = match forwarded_for {
        Some(v) => rightmost_entry(split(v, ',')),
        None => None,
    };
    if from_forwarded is Some {
        from_forwarded
    } else {
        match real_ip {
            Some(v) => if trim(v).len() > 0 {
                Some(trim(v))
            } else {
                None
            },
            None => None,
        }
    }
}

/// The text of an optional string slice.
pub open spec fn opt_str(o: Option<&str>) -> Option<Seq<char>> {
    match o {
        Some(v) => Some(v@),
        None => None,
    }
}

/// The client address of a request from its `X-Forwarded-For` and
/// `X-Real-IP` header values (each `None` when absent or not text).
pub fn client_ip(forwarded_for: Option<&str>, real_ip: Option<&str>) -> (r: Option<String>)
    ensures
        match r {
            Some(ip) => client_ip_spec(opt_str(forwarded_for), opt_str(real_ip)) == Some(ip@),
            None => client_ip_spec(opt_str(forwarded_for), opt_str(real_ip)) is None,
        },
{
    match forwarded_for {
        Some(value) => {
            let v = chars_of(value);
            let pieces = split_chars(&v, ',');
            let ghost all = split(value@, ',');
            let mut k: usize = pieces.len();
            assert(all.subrange(0, k as int) =~= all);
            while k > 0
                invariant
                    forwarded_for == Some(value),
                    k <= pieces.len(),
                    pieces.len() == all.len(),
                    all == split(value@, ','),
                    forall|j: int| 0 <= j < pieces.len() ==> (#[trigger] pieces[j])@ == all[j],
                    rightmost_entry(all) == rightmost_entry(all.subrange(0, k as int)),
                decreases k,
            {
                let ghost pre = all.subrange(0, k as int);
                assert(pre.drop_last() =~= all.subrange(0, k - 1));
                assert(pre.last() == pieces[k - 1]@);
                let t = trim_chars(&pieces[k - 1]);
                if t.len() > 0 {
                    assert(rightmost_entry(pre) == Some(t@));
                    assert(rightmost_entry(split(value@, ',')) == Some(t@));
                    let ip = string_of(&t);
                    assert(opt_str(forwarded_for) == Some(value@));
                    assert(client_ip_spec(opt_str(forwarded_for), opt_str(real_ip)) == Some(ip@));
                    return Some(ip);
                }
                k = k - 1;
            }
        },
        None => {},
    }
    match real_ip {
        Some(value) => {
            let v = chars_of(value);
            let t = trim_chars(&v);
            if t.len() > 0 {
                Some(string_of(&t))
            } else {
                None
            }
        },
        None => None,
    }
}

// ───────────────────────── pruning ─────────────────────────

/// Prune once per day: never pruned is always due, otherwise due once 24
/// hours have passed since the last run.
pub fn due_for_prune(last_prune_at: Option<i64>, now: i64) -> (r: bool)
    ensures
        r == match last_prune_at {
            None => true,
            Some(last) => now - last >= DAY_MICROS,
        },
{
    match last_prune_at {
        None => true,
        Some(last) => (now as i128) - (last as i128) >= DAY_MICROS as i128,
    }
}

/// The retention cutoff: rows created before it are pruned. A zero or
/// negative retention puts it at `now`, so nothing recent is deleted.
pub fn retention_cutoff(now: i64, retention_days: i64) -> (r: i64)
    requires
        retention_days <= i64::MAX / DAY_MICROS,
        now - (if retention_days > 0 {
            retention_days
        } else {
            0
        }) * DAY_MICROS >= i64::MIN,
    ensures
        r == now - (if retention_days > 0 {
            retention_days
        } else {
            0
        }) * DAY_MICROS,
{
    let days: i64 = if retention_days > 0 {
        retention_days
    } else {
        0
    };
    assert(days * DAY_MICROS <= i64::MAX) by (nonlinear_arith)
        requires
            0 <= days <= i64::MAX / DAY_MICROS,
            DAY_MICROS == 86400000000i64,
    ;
    now - days * DAY_MICROS
}

// ───────────────────────── monotonic stamps ─────────────────────────

/// The stamp an event gets: its own time, or one microsecond after the
/// previous stamp when it is not later than that.
pub open spec fn next_stamp(created_at: i64, last: Option<i64>) -> i64 {
    match last {
        None => created_at,
        Some(l) => if created_at <= l {
            (l + 1) as i64
        } else {
            created_at
        },
    }
}

/// Give the event a strictly increasing `created_at`: events in the same
/// microsecond, or arriving with an earlier time, are placed one
/// microsecond after the previous stamp, which `last_stamp` carries across
/// calls.
pub fn stamp_monotonic<D>(event: &mut AuditEvent<D>, last_stamp: &mut Option<i64>)
    requires
        match *old(last_stamp) {
            Some(l) => l < i64::MAX,
            None => true,
        },
    ensures
        final(event).created_at == next_stamp(old(event).created_at, *old(last_stamp)),
        *final(last_stamp) == Some(final(event).created_at),
        *final(event) == (AuditEvent { created_at: final(event).created_at, ..*old(event) }),
{
    let ts = event.created_at;
    let stamped = match *last_stamp {
        None => ts,
        Some(last) => if ts <= last {
            last + 1
        } else {
            ts
        },
    };
    event.created_at = stamped;
    *last_stamp = Some(stamped);
}

/// Stamps strictly increase along any run of events: each one is later than
/// the previous stamp and never earlier than the event's own time.
pub proof fn law_stamps_strictly_increase(created_at: i64, last: i64)
    requires
        last < i64::MAX,
    ensures
        next_stamp(created_at, Some(last)) > last,
        next_stamp(created_at, Some(last)) >= created_at,
        created_at > last ==> next_stamp(created_at, Some(last)) == created_at,
{
}

// ───────────────────────── batch retries ─────────────────────────

/// What a failed batch insert leads to after `attempts` failures: another
/// try after `100 * 2^(attempts - 1)` milliseconds, or giving the batch up
/// once the bounded retries are spent.
pub fn flush_retry_delay_ms(attempts: u32) -> (r: Option<u64>)
    requires
        attempts >= 1,
    ensures
        attempts >= AUDIT_WRITER_MAX_RETRIES ==> r is None,
        attempts == 1 ==> r == Some(100u64),
        attempts == 2 ==> r == Some(200u64),
        attempts == 3 ==> r == Some(400u64),
{
    if attempts >= AUDIT_WRITER_MAX_RETRIES {
        return None;
    }
    let mut delay: u64 = 100;
    let mut k: u32 = 1;
    while k < attempts
        invariant
            1 <= k <= attempts < AUDIT_WRITER_MAX_RETRIES,
            delay == if k == 1 {
                100u64
            } else if k == 2 {
                200u64
            } else {
                400u64
            },
        decreases attempts - k,
    {
        delay = delay * 2;
        k = k + 1;
    }
    Some(delay)
}

/// A field is sensitive exactly when its lowercase name contains one of the
/// keywords `password`, `secret`, `token`, `key` or `credential` anywhere in
/// it, as a substring: at the start, in the middle or at the end.
pub proof fn law_sensitive_iff_a_keyword_occurs_in_the_name(field: Seq<char>, kw: Seq<char>)
    ensures
        (kw == "password"@ || kw == "secret"@ || kw == "token"@ || kw == "key"@ || kw == "credential"@)
            && contains(lowercase(field), kw) ==> sensitive(field),
        sensitive(field) ==> (contains(lowercase(field), "password"@) || contains(
            lowercase(field),
            "secret"@,
        ) || contains(lowercase(field), "token"@) || contains(lowercase(field), "key"@) || contains(
            lowercase(field),
            "credential"@,
        )),
{
}

} // verus!
