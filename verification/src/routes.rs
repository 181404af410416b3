//! The decisions of the workspace routes: the defaults of a creation
//! request, which lifecycle transitions a workspace's status allows (and the
//! conflict answered otherwise), how an existing container is brought up on
//! start, who a proxied desktop request is from and which workspace it is
//! for, and the credential checks of registration and login.

use vstd::prelude::*;

use crate::auth::{
    authenticate, authenticated_as, claims_json_spec, create_token, jwt_hs256, jwt_signed_subject, session_token_spec, uuid_parsed, uuid_text,
    token_exp, TOKEN_LIFETIME_SECS,
};
use crate::text::{
    chars_of, contains, contains_chars, ends_with, ends_with_chars, owned, slice_chars, starts_with,
    starts_with_chars, str_eq, string_of,
};

verus! {

/// Default image of a new workspace.
pub fn default_image() -> (r: String)
    ensures
        r@ == "kasmweb/desktop:1.19.0-rolling-daily"@,
{
    owned("kasmweb/desktop:1.19.0-rolling-daily")
}

/// Default CPU cores of a new workspace.
pub fn default_cores() -> (r: i32)
    ensures
        r == 2,
{
    2
}

/// Default memory of a new workspace: 4 GiB in bytes.
pub fn default_memory() -> (r: i64)
    ensures
        r == 4294967296,
{
    4294967296
}

/// Persistent storage is on unless a request turns it off.
pub fn default_true() -> (r: bool)
    ensures
        r,
{
    true
}

/// Default mount point of a workspace volume.
pub fn default_volume_container_path() -> (r: String)
    ensures
        r@ == "/home/kasm_user"@,
{
    owned("/home/kasm_user")
}

/// A refused transition: the HTTP status and the error message.
#[derive(Debug, Clone, PartialEq, Eq)]
pub struct Refusal {
    pub status: u16,
    pub error: String,
}

/// `409 Conflict` with `message`.
pub open spec fn conflict(r: Refusal, message: Seq<char>) -> bool {
    r.status == 409 && r.error@ == message
}

fn refuse(message: &str) -> (r: Refusal)
    ensures
        conflict(r, message@),
{
    Refusal { status: 409, error: owned(message) }
}

/// Starting a workspace that is already running is a conflict.
pub fn start_gate(status: &str) -> (r: Result<(), Refusal>)
    ensures
        status@ == "running"@ ==> r is Err && conflict(r->Err_0, "Workspace is already running"@),
        status@ != "running"@ ==> r is Ok,
{
    if str_eq(status, "running") {
        Err(refuse("Workspace is already running"))
    } else {
        Ok(())
    }
}

/// What follows the creation of a new workspace's container. The workspace
/// record is kept either way.
#[derive(Debug, Clone, Copy, PartialEq, Eq, Structural)]
pub enum CreateOutcome {
    /// The container was created: record its id, mark the workspace
    /// `running`, and, when the workspace has a VNC token, write its proxy
    /// route to the container's address.
    Running { write_route: bool },
    /// Creation failed: mark the workspace `error` and answer with it.
    Failed,
}

impl CreateOutcome {
    /// The status the workspace record is given.
    pub fn status(&self) -> (r: &'static str)
        ensures
            *self is Running ==> r@ == "running"@,
            *self is Failed ==> r@ == "error"@,
    {
        match self {
            CreateOutcome::Running { .. } => "running",
            CreateOutcome::Failed => "error",
        }
    }
}

/// The step after creating a new workspace's container, given whether the
/// creation succeeded and whether the workspace has a VNC token.
pub fn after_workspace_container(created: bool, has_vnc_token: bool) -> (r: CreateOutcome)
    ensures
        created ==> r == (CreateOutcome::Running { write_route: has_vnc_token }),
        !created ==> r == CreateOutcome::Failed,
{
    if created {
        CreateOutcome::Running { write_route: has_vnc_token }
    } else {
        CreateOutcome::Failed
    }
}

/// How `start` brings the workspace's container up.
#[derive(Debug, Clone, Copy, PartialEq, Eq, Structural)]
pub enum StartAction {
    /// The container is already running: only record it.
    AlreadyRunning,
    /// Start the existing, stopped container.
    StartExisting,
    /// There is no usable container: create a new one.
    CreateNew,
}

/// With no container, or one Docker no longer reports, a new container is
/// created; an existing one is started unless its state says `Running`.
pub fn start_action(has_container: bool, inspected_state: Option<&str>) -> (r: StartAction)
    ensures
        !has_container ==> r == StartAction::CreateNew,
        has_container && inspected_state is None ==> r == StartAction::CreateNew,
        has_container && inspected_state is Some ==> (contains(
            inspected_state.unwrap()@,
            "Running"@,
        ) ==> r == StartAction::AlreadyRunning) && (!contains(
            inspected_state.unwrap()@,
            "Running"@,
        ) ==> r == StartAction::StartExisting),
{
    if !has_container {
        return StartAction::CreateNew;
    }
    match inspected_state {
        None => StartAction::CreateNew,
        Some(s) => {
            let v = chars_of(s);
            let running = chars_of("Running");
            if contains_chars(&v, &running) {
                StartAction::AlreadyRunning
            } else {
                StartAction::StartExisting
            }
        },
    }
}

/// Stopping a stopped workspace is a conflict; a paused one is unpaused
/// first (`Ok(true)`).
pub fn stop_gate(status: &str) -> (r: Result<bool, Refusal>)
    ensures
        status@ == "stopped"@ ==> r is Err && conflict(r->Err_0, "Workspace is already stopped"@),
        status@ != "stopped"@ ==> r == Ok::<bool, Refusal>(status@ == "paused"@),
{
    proof {
        reveal_strlit("stopped");
        reveal_strlit("paused");
    }
    if str_eq(status, "stopped") {
        Err(refuse("Workspace is already stopped"))
    } else {
        Ok(str_eq(status, "paused"))
    }
}

/// Only a running workspace can be paused.
pub fn pause_gate(status: &str) -> (r: Result<(), Refusal>)
    ensures
        status@ != "running"@ ==> r is Err && conflict(
            r->Err_0,
            "Workspace must be running to pause"@,
        ),
        status@ == "running"@ ==> r is Ok,
{
    if str_eq(status, "running") {
        Ok(())
    } else {
        Err(refuse("Workspace must be running to pause"))
    }
}

/// Only a paused workspace can be resumed.
pub fn unpause_gate(status: &str) -> (r: Result<(), Refusal>)
    ensures
        status@ != "paused"@ ==> r is Err && conflict(
            r->Err_0,
            "Workspace must be paused to resume"@,
        ),
        status@ == "paused"@ ==> r is Ok,
{
    if str_eq(status, "paused") {
        Ok(())
    } else {
        Err(refuse("Workspace must be paused to resume"))
    }
}

/// The workspace token of a proxied desktop URI `/vnc/<token>/websockify`.
pub open spec fn vnc_token_spec(uri: Seq<char>) -> Option<Seq<char>> {
    if starts_with(uri, "/vnc/"@) && ends_with(uri.subrange(5, uri.len() as int), "/websockify"@) {
        Some(uri.subrange(5, uri.len() - 11))
    } else {
        None
    }
}

/// The workspace token a proxied desktop request is for.
pub fn vnc_token_from_uri(uri: &str) -> (r: Option<String>)
    ensures
        match r {
            Some(t) => vnc_token_spec(uri@) == Some(t@),
            None => vnc_token_spec(uri@) is None,
        },
{
    proof {
        reveal_strlit("/vnc/");
        reveal_strlit("/websockify");
    }
    let v = chars_of(uri);
    let prefix = chars_of("/vnc/");
    let suffix = chars_of("/websockify");
    if !starts_with_chars(&v, &prefix) {
        return None;
    }
    let rest = slice_chars(&v, 5, v.len());
    if !ends_with_chars(&rest, &suffix) {
        return None;
    }
    let token = slice_chars(&v, 5, v.len() - 11);
    assert(token@ =~= uri@.subrange(5, uri@.len() - 11));
    Some(string_of(&token))
}

/// Who a proxied desktop request is from and which workspace it is for: the
/// user its session cookie authenticates (verified with `jwt_secret`) and
/// the workspace token of its forwarded URI `/vnc/<token>/websockify`. A
/// missing or rejected credential, or another URI, is `401 Unauthorized`.
pub fn vnc_authorize(cookie: Option<&str>, forwarded_uri: Option<&str>, jwt_secret: &str) -> (r:
    Result<(u128, String), u16>)
    ensures
        r is Err ==> r == Err::<(u128, String), u16>(401),
        cookie is None || session_token_spec(cookie.unwrap()@) is None ==> r is Err,
        forwarded_uri is None || vnc_token_spec(forwarded_uri.unwrap()@) is None ==> r is Err,
        r matches Ok((user, workspace)) ==> forwarded_uri is Some && vnc_token_spec(
            forwarded_uri.unwrap()@,
        ) == Some(workspace@) && authenticated_as(cookie, jwt_secret@, user),
{
    let user = match authenticate(cookie, jwt_secret) {
        Ok(u) => u,
        Err(code) => return Err(code),
    };
    let u = match forwarded_uri {
        Some(u) => u,
        None => return Err(401),
    };
    match vnc_token_from_uri(u) {
        Some(w) => Ok((user, w)),
        None => Err(401),
    }
}

/// A proxied desktop request reaches only a running workspace; an unknown
/// or not-running one is `404 Not Found`.
pub fn vnc_workspace_gate(status: Option<&str>) -> (r: Result<(), u16>)
    ensures
        r == match status {
            Some(s) => if s@ == "running"@ {
                Ok::<(), u16>(())
            } else {
                Err(404)
            },
            None => Err(404),
        },
{
    match status {
        Some(s) => {
            if str_eq(s, "running") {
                Ok(())
            } else {
                Err(404)
            }
        },
        None => Err(404),
    }
}

/// What `bcrypt::verify` answers for `password` against the stored `hash`:
/// whether they match, or `None` when the hash is malformed. A function of
/// its arguments: the salt and cost are read from the hash.
pub uninterp spec fn bcrypt_verdict(password: Seq<char>, hash: Seq<char>) -> Option<bool>;

/// Trusted: `bcrypt::verify`, its error (a malformed hash) as `None`.
#[verifier::external_body]
fn verify_password(password: &str, hash: &str) -> (r: Option<bool>)
    ensures
        r == bcrypt_verdict(password@, hash@),
{
    bcrypt::verify(password, hash).ok()
}

/// The bcrypt cost of a password hashed at registration: bcrypt's default.
pub const REGISTRATION_HASH_COST: u32 = 12;

/// The first seven characters of a bcrypt hash made at `cost` (4 to 31):
/// the `2b` version and the cost as two decimal digits, `$`-delimited.
pub open spec fn bcrypt_prefix(cost: nat) -> Seq<char> {
    "$2b$"@ + seq![crate::text::digit_char(cost / 10), crate::text::digit_char(cost % 10)] + "$"@
}

/// Trusted: `bcrypt::hash` at `cost` with a random salt, `None` when it
/// fails. The salt is random, so the text is not named; the contract states
/// what the crate's source shows: a cost outside bcrypt's `4..=31` is
/// refused; a hash it returns is the 60-character `2b` form that begins
/// with the version and the cost (`$2b$<cost>$`, the cost in two digits);
/// and `bcrypt::verify` of the same password against it answers `true`.
/// Whether the system's randomness is available is left open.
#[verifier::external_body]
pub(crate) fn hash_password(password: &str, cost: u32) -> (r: Option<String>)
    ensures
        r matches Some(h) ==> bcrypt_verdict(password@, h@) == Some(true),
        r matches Some(h) ==> h@.len() == 60 && h@.subrange(0, 7) == bcrypt_prefix(cost as nat),
        !(4 <= cost <= 31) ==> r is None,
{
    bcrypt::hash(password, cost).ok()
}

/// The account role a registration stores: the requested one, `user` by
/// default.
pub open spec fn registered_role(role: Option<Seq<char>>) -> Seq<char> {
    match role {
        Some(r) => r,
        None => "user"@,
    }
}

/// Registration: the bcrypt hash of `password` and the role to store with
/// it (`user` unless one is requested); `500` when hashing fails.
pub fn registration(password: &str, role: Option<&str>) -> (r: Result<(String, String), u16>)
    ensures
        match r {
            Ok((hash, stored_role)) => bcrypt_verdict(password@, hash@) == Some(true) && hash@.len() == 60
                && hash@.subrange(0, 7) == bcrypt_prefix(REGISTRATION_HASH_COST as nat) && stored_role@
                == registered_role(
                match role {
                    Some(x) => Some(x@),
                    None => None,
                },
            ),
            Err(code) => code == 500,
        },
{
    let hash = match hash_password(password, REGISTRATION_HASH_COST) {
        Some(h) => h,
        None => return Err(500),
    };
    let stored = match role {
        Some(x) => owned(x),
        None => owned("user"),
    };
    Ok((hash, stored))
}

/// The answer to a login: no such account or a wrong password is `401`, a
/// malformed stored hash `500`; a matching password gets a session token
/// issued at `now` (`500` when it cannot be encoded).
pub open spec fn login_spec(
    account: Option<(u128, Seq<char>)>,
    password: Seq<char>,
    secret: Seq<char>,
    now: int,
) -> Result<Seq<char>, u16> {
    match account {
        None => Err(401),
        Some((id, hash)) => match bcrypt_verdict(password, hash) {
            None => Err(500),
            Some(false) => Err(401),
            Some(true) => match jwt_hs256(claims_json_spec(uuid_text(id), token_exp(now) as nat), secret) {
                Some(t) => Ok(t),
                None => Err(500),
            },
        },
    }
}

/// Login of the account found for the submitted user name (its id and
/// stored password hash, `None` when there is none) with `password`, at
/// `now_secs`.
pub fn login(account: Option<(u128, &str)>, password: &str, jwt_secret: &str, now_secs: i64) -> (r:
    Result<String, u16>)
    requires
        now_secs <= i64::MAX - TOKEN_LIFETIME_SECS,
    ensures
        match login_spec(
            match account {
                Some((id, h)) => Some((id, h@)),
                None => None,
            },
            password@,
            jwt_secret@,
            now_secs as int,
        ) {
            Ok(t) => r matches Ok(s) && s@ == t,
            Err(code) => r == Err::<String, u16>(code),
        },
        account matches Some((id, h)) ==> (bcrypt_verdict(password@, h@) == Some(true) ==> (
        r matches Ok(t) && jwt_signed_subject(t@, jwt_secret@) == Some(uuid_text(id)))),
{
    let (id, hash) = match account {
        Some(a) => a,
        None => return Err(401),
    };
    match verify_password(password, hash) {
        None => Err(500),
        Some(false) => Err(401),
        Some(true) => create_token(id, jwt_secret, now_secs),
    }
}

/// A password accepted at registration logs in: against the hash it was
/// registered with, a login is never refused as unauthorized, and it gets
/// the session token of the account whenever one can be encoded.
pub proof fn law_registered_password_logs_in(
    id: u128,
    password: Seq<char>,
    hash: Seq<char>,
    secret: Seq<char>,
    now: int,
)
    requires
        bcrypt_verdict(password, hash) == Some(true),
    ensures
        login_spec(Some((id, hash)), password, secret, now) != Err::<Seq<char>, u16>(401),
        jwt_hs256(claims_json_spec(uuid_text(id), token_exp(now) as nat), secret) is Some
            ==> login_spec(Some((id, hash)), password, secret, now) is Ok,
{
}

/// A login for a user name with no account, or with a password its hash
/// rejects, is always `401`, whatever the password or the clock.
pub proof fn law_unknown_account_or_wrong_password_is_unauthorized(
    account: Option<(u128, Seq<char>)>,
    password: Seq<char>,
    secret: Seq<char>,
    now: int,
)
    requires
        account is None || bcrypt_verdict(password, account.unwrap().1) == Some(false),
    ensures
        login_spec(account, password, secret, now) == Err::<Seq<char>, u16>(401),
{
}

} // verus!
