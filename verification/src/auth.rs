//! The authenticated user and its permission gates, the session cookie,
//! and the session token: its claims, its HS256 encoding and the
//! authentication of a request from its `Cookie` header.

use vstd::prelude::*;

use crate::effective_context::EffectiveContext;
use crate::text::{
    chars_of, decimal, push_decimal, push_str, slice_chars, split, split_chars, starts_with,
    starts_with_chars, string_of, trim, trim_chars,
};

verus! {

/// The legacy account role the quota defaults are keyed by.
#[derive(Debug, Clone, Copy, PartialEq, Eq, Structural)]
pub enum Role {
    Admin,
    Manager,
    User,
}

/// The authenticated user with the effective context resolved for this very
/// request. Every permission decision goes through the context.
#[derive(Debug, Clone)]
pub struct AuthUser {
    pub user_id: u128,
    pub username: String,
    pub context: EffectiveContext,
}

impl AuthUser {
    /// Root: Admin-group membership.
    pub fn is_admin(&self) -> (r: bool)
        ensures
            r == self.context.is_admin,
    {
        self.context.is_admin
    }

    pub fn can_manage_users(&self) -> (r: bool)
        ensures
            r == (self.context.is_admin || self.context.can_manage_users),
    {
        self.is_admin() || self.context.can_manage_users
    }

    pub fn can_manage_docker(&self) -> (r: bool)
        ensures
            r == (self.context.is_admin || self.context.can_manage_docker),
    {
        self.is_admin() || self.context.can_manage_docker
    }

    pub fn can_manage_registry(&self) -> (r: bool)
        ensures
            r == (self.context.is_admin || self.context.can_manage_registry),
    {
        self.is_admin() || self.context.can_manage_registry
    }
}

/// Identity-only token claims: the user id and the expiry (seconds since the
/// epoch). The token never carries a role.
#[derive(Debug, Clone, PartialEq, Eq)]
pub struct Claims {
    pub sub: String,
    pub exp: usize,
}

/// Session lifetime of the `ow_token` cookie and of a token: seven days.
pub const SESSION_COOKIE_MAX_AGE: i64 = 604800;

/// The session cookie set at login: `ow_token=<token>` for the whole site,
/// HTTP-only, secure, same-site lax, for seven days.
pub open spec fn session_cookie_spec(token: Seq<char>) -> Seq<char> {
    "ow_token="@ + token + "; Path=/; HttpOnly; Secure; SameSite=Lax; Max-Age="@ + decimal(
        SESSION_COOKIE_MAX_AGE as nat,
    )
}

/// The `Set-Cookie` value of a login.
pub fn session_cookie(token: &str) -> (r: String)
    ensures
        r@ == session_cookie_spec(token@),
{
    let mut r = String::new();
    push_str(&mut r, "ow_token=");
    push_str(&mut r, token);
    push_str(&mut r, "; Path=/; HttpOnly; Secure; SameSite=Lax; Max-Age=");
    push_decimal(&mut r, SESSION_COOKIE_MAX_AGE as u64);
    assert(r@ =~= session_cookie_spec(token@));
    r
}

/// The `Set-Cookie` value of a logout: the session cookie emptied and
/// expired at once.
pub const CLEARED_SESSION_COOKIE: &'static str = "ow_token=; Path=/; HttpOnly; SameSite=Lax; Max-Age=0";

/// The index of the first `;`-separated piece whose trimmed text starts with
/// `ow_token=`.
pub open spec fn first_token_piece(pieces: Seq<Seq<char>>, from: int) -> Option<int>
    decreases pieces.len() - from,
{
    if from >= pieces.len() || from < 0 {
        None
    } else if starts_with(trim(pieces[from]), "ow_token="@) {
        Some(from)
    } else {
        first_token_piece(pieces, from + 1)
    }
}

/// The session token of a `Cookie` header: the value of the first cookie
/// named `ow_token`.
pub open spec fn session_token_spec(cookie: Seq<char>) -> Option<Seq<char>> {
    let pieces = split(cookie, ';');
    match first_token_piece(pieces, 0) {
        Some(j) => Some(trim(pieces[j]).subrange(9, trim(pieces[j]).len() as int)),
        None => None,
    }
}

/// The session token carried by a `Cookie` header, if any.
pub fn session_token(cookie: &str) -> (r: Option<String>)
    ensures
        match r {
            Some(t) => session_token_spec(cookie@) == Some(t@),
            None => session_token_spec(cookie@) is None,
        },
{
    proof {
        reveal_strlit("ow_token=");
    }
    let v = chars_of(cookie);
    let pieces = split_chars(&v, ';');
    let ghost all = split(cookie@, ';');
    let prefix = chars_of("ow_token=");
    let mut k: usize = 0;
    while k < pieces.len()
        invariant
            k <= pieces.len(),
            pieces.len() == all.len(),
            all == split(cookie@, ';'),
            prefix@ == "ow_token="@,
            prefix@.len() == 9,
            forall|j: int| 0 <= j < pieces.len() ==> (#[trigger] pieces[j])@ == all[j],
            first_token_piece(all, 0) == first_token_piece(all, k as int),
        decreases pieces.len() - k,
    {
        let t = trim_chars(&pieces[k]);
        if starts_with_chars(&t, &prefix) {
            let value = slice_chars(&t, 9, t.len());
            return Some(string_of(&value));
        }
        k = k + 1;
    }
    None
}

/// Lifetime of a token, in seconds: seven days.
pub const TOKEN_LIFETIME_SECS: i64 = 604800;

/// The expiry claim of a token issued at `now` (seconds since the epoch):
/// seven days later, as a `usize` (a time before the epoch wraps, as the
/// cast does).
pub open spec fn token_exp(now: int) -> usize {
    (now + TOKEN_LIFETIME_SECS) as usize
}

/// The expiry claim of a token issued at `now_secs` (seconds since the
/// epoch): seven days later.
pub fn token_expiry(now_secs: i64) -> (r: usize)
    requires
        now_secs <= i64::MAX - TOKEN_LIFETIME_SECS,
    ensures
        r == token_exp(now_secs as int),
{
    #[verifier::truncate]
    ((now_secs + TOKEN_LIFETIME_SECS) as usize)
}

/// The lowercase hexadecimal digit of `d`.
pub open spec fn hex_digit(d: nat) -> char {
    crate::text::hex_char(d)
}

/// The hyphenated lowercase text of a UUID held as its 128-bit value:
/// `8-4-4-4-12` hexadecimal digits, most significant first.
pub open spec fn uuid_text(id: u128) -> Seq<char> {
    Seq::new(36, |i: int| if i == 8 || i == 13 || i == 18 || i == 23 {
        '-'
    } else {
        let d = if i < 8 { i } else if i < 13 { i - 1 } else if i < 18 { i - 2 } else if i < 23 { i - 3 } else { i - 4 };
        hex_digit(((id as nat) / vstd::arithmetic::power2::pow2((4 * (31 - d)) as nat)) % 16)
    })
}

/// The hyphenated text of a UUID.
pub fn uuid_string(id: u128) -> (r: String)
    ensures
        r@ == uuid_text(id),
{
    let mut r = String::new();
    let mut i: usize = 0;
    let mut d: u32 = 0;
    while i < 36
        invariant
            i <= 36,
            d == if i <= 8 {
                i as int
            } else if i <= 13 {
                i - 1
            } else if i <= 18 {
                i - 2
            } else if i <= 23 {
                i - 3
            } else {
                i - 4
            },
            r@ == uuid_text(id).subrange(0, i as int),
        decreases 36 - i,
    {
        if i == 8 || i == 13 || i == 18 || i == 23 {
            crate::text::push_char(&mut r, '-');
        } else {
            let shift: u32 = 4 * (31 - d);
            let digit: u128 = (id >> shift) & 0xf;
            proof {
                vstd::bits::lemma_u128_shr_is_div(id, shift as u128);
                assert(digit == (id >> shift) % 16) by (bit_vector)
                    requires digit == (id >> shift) & 0xf;
            }
            let c: char = if digit < 10 {
                ((digit as u8) + 48) as char
            } else {
                ((digit as u8) - 10 + 97) as char
            };
            assert(c == hex_digit(((id as nat) / vstd::arithmetic::power2::pow2((4 * (31 - d)) as nat)) % 16));
            crate::text::push_char(&mut r, c);
            d = d + 1;
        }
        i = i + 1;
        assert(r@ =~= uuid_text(id).subrange(0, i as int));
    }
    assert(uuid_text(id).subrange(0, 36) =~= uuid_text(id));
    r
}

/// The simple text of a UUID held as its 128-bit value: its 32 lowercase
/// hexadecimal digits, most significant first, with no hyphens.
pub open spec fn uuid_simple_text(id: u128) -> Seq<char> {
    Seq::new(32, |d: int| hex_digit(((id as nat) / vstd::arithmetic::power2::pow2((4 * (31 - d)) as nat)) % 16))
}

/// The simple (unhyphenated) text of a UUID.
pub fn uuid_simple_string(id: u128) -> (r: String)
    ensures
        r@ == uuid_simple_text(id),
{
    let mut r = String::new();
    let mut d: u32 = 0;
    while d < 32
        invariant
            d <= 32,
            r@ == uuid_simple_text(id).subrange(0, d as int),
        decreases 32 - d,
    {
        let shift: u32 = 4 * (31 - d);
        let digit: u128 = (id >> shift) & 0xf;
        proof {
            vstd::bits::lemma_u128_shr_is_div(id, shift as u128);
            assert(digit == (id >> shift) % 16) by (bit_vector)
                requires digit == (id >> shift) & 0xf;
        }
        let c: char = if digit < 10 {
            ((digit as u8) + 48) as char
        } else {
            ((digit as u8) - 10 + 97) as char
        };
        assert(c == hex_digit(((id as nat) / vstd::arithmetic::power2::pow2((4 * (31 - d)) as nat)) % 16));
        crate::text::push_char(&mut r, c);
        d = d + 1;
        assert(r@ =~= uuid_simple_text(id).subrange(0, d as int));
    }
    assert(uuid_simple_text(id).subrange(0, 32) =~= uuid_simple_text(id));
    r
}

/// The claims of a token issued to `user_id` at `now_secs`: the user id as
/// hyphenated UUID text and the seven-day expiry; never a role.
pub fn token_claims(user_id: u128, now_secs: i64) -> (c: Claims)
    requires
        now_secs <= i64::MAX - TOKEN_LIFETIME_SECS,
    ensures
        c.sub@ == uuid_text(user_id),
        c.exp == token_exp(now_secs as int),
{
    Claims { sub: uuid_string(user_id), exp: token_expiry(now_secs) }
}

/// The JSON text of token claims: `{"sub":"<subject>","exp":<expiry>}`, the
/// fields in declaration order.
pub open spec fn claims_json_spec(sub: Seq<char>, exp: nat) -> Seq<char> {
    "{\"sub\":\""@ + sub + "\",\"exp\":"@ + decimal(exp) + seq!['}']
}

fn claims_json(user_id: u128, exp: usize) -> (r: String)
    ensures
        r@ == claims_json_spec(uuid_text(user_id), exp as nat),
{
    let mut r = String::new();
    push_str(&mut r, "{\"sub\":\"");
    let sub = uuid_string(user_id);
    push_str(&mut r, sub.as_str());
    push_str(&mut r, "\",\"exp\":");
    push_decimal(&mut r, exp as u64);
    crate::text::push_char(&mut r, '}');
    r
}

/// The compact JSON Web Token that `jsonwebtoken::encode` makes of the JSON
/// text `claims` under the default header (HS256) with the HMAC secret
/// `secret`; `None` when `claims` is not JSON. A function of its arguments:
/// the header and the claims are encoded as given and HMAC is deterministic.
pub uninterp spec fn jwt_hs256(claims: Seq<char>, secret: Seq<char>) -> Option<Seq<char>>;

/// Trusted: `jsonwebtoken::encode` with `Header::default()` and
/// `EncodingKey::from_secret(secret)`, the claims carried verbatim as a
/// `serde_json` raw value. The token is the one `jwt_hs256` names; nothing
/// is claimed of its characters. Of claims in the session shape (valid JSON)
/// the contract states what the crate's source shows: `encode` fails only on
/// an algorithm/key family mismatch or a serialisation error, neither of
/// which can occur for an HMAC key, the HS256 default header and a raw JSON
/// value; and the token it signs carries those claims under an HS256 header
/// with an HMAC that verifies under the same secret, so its signed subject
/// is the claims' `sub`. That no other secret verifies it is not claimed:
/// HMAC treats a key and the same key padded with zero bytes alike.
#[verifier::external_body]
fn encode_jwt(claims: &str, secret: &str) -> (r: Option<String>)
    ensures
        match r {
            Some(t) => jwt_hs256(claims@, secret@) == Some(t@),
            None => jwt_hs256(claims@, secret@) is None,
        },
        forall|id: u128|
            #![trigger uuid_text(id)]
            forall|exp: nat|
                exp <= u64::MAX && #[trigger] claims_json_spec(uuid_text(id), exp) == claims@ ==> (
                r is Some && jwt_signed_subject(r.unwrap()@, secret@) == Some(uuid_text(id))),
{
    let raw = serde_json::value::RawValue::from_string(claims.to_string()).ok()?;
    let key = jsonwebtoken::EncodingKey::from_secret(secret.as_bytes());
    jsonwebtoken::encode(&jsonwebtoken::Header::default(), &raw, &key).ok()
}

/// A session token for `user_id` issued at `now_secs`: the HS256 token of
/// `{"sub":"<user id>","exp":<now + 7 days>}` signed with `jwt_secret`. It
/// is always issued, and its subject, verified under `jwt_secret`, is the
/// user id.
pub fn create_token(user_id: u128, jwt_secret: &str, now_secs: i64) -> (r: Result<String, u16>)
    requires
        now_secs <= i64::MAX - TOKEN_LIFETIME_SECS,
    ensures
        r matches Ok(t) && jwt_hs256(
            claims_json_spec(uuid_text(user_id), token_exp(now_secs as int) as nat),
            jwt_secret@,
        ) == Some(t@) && jwt_signed_subject(t@, jwt_secret@) == Some(uuid_text(user_id)),
{
    let exp = token_expiry(now_secs);
    let claims = claims_json(user_id, exp);
    match encode_jwt(claims.as_str(), jwt_secret) {
        Some(t) => Ok(t),
        None => Err(500),
    }
}

/// The `sub` string claim of `token` when it is a compact JWT whose header
/// names HS256 and whose signature verifies under the HMAC key `secret`, its
/// claims being JSON; `None` otherwise. Expiry and the other time-bound
/// claims are left aside, so this is a function of its arguments alone.
pub uninterp spec fn jwt_signed_subject(token: Seq<char>, secret: Seq<char>) -> Option<Seq<char>>;

/// Trusted: `jsonwebtoken::decode` with `DecodingKey::from_secret(secret)`
/// and `Validation::default()` (HS256 signature, unexpired `exp`), then the
/// claims' `sub` string. Whether a token is accepted also depends on the
/// clock, so success is not claimed; a subject it returns is the one the
/// token carries under a signature that verifies with `secret`.
#[verifier::external_body]
fn decode_jwt_subject(token: &str, secret: &str) -> (r: Option<String>)
    ensures
        r matches Some(s) ==> jwt_signed_subject(token@, secret@) == Some(s@),
{
    let key = jsonwebtoken::DecodingKey::from_secret(secret.as_bytes());
    let data = jsonwebtoken::decode::<serde_json::Value>(token, &key, &jsonwebtoken::Validation::default()).ok()?;
    Some(data.claims.get("sub")?.as_str()?.to_string())
}

/// The UUID that `uuid::Uuid::parse_str` reads from `s` (any format it
/// accepts: simple, hyphenated, braced or URN), as its 128-bit value.
pub uninterp spec fn uuid_parsed(s: Seq<char>) -> Option<u128>;

/// Trusted: `uuid::Uuid::parse_str`, as a 128-bit value. Besides naming the
/// result, the contract states what the crate documents of its own output:
/// the hyphenated text of a UUID parses back to that UUID.
#[verifier::external_body]
fn parse_uuid(s: &str) -> (r: Option<u128>)
    ensures
        r == uuid_parsed(s@),
        forall|id: u128| s@ == uuid_text(id) ==> r == Some(id),
{
    match uuid::Uuid::parse_str(s) {
        Ok(u) => Some(u.as_u128()),
        Err(_) => None,
    }
}

/// The user a verified token's subject names: `401 Unauthorized` unless it
/// is a UUID.
pub fn subject_user(sub: &str) -> (r: Result<u128, u16>)
    ensures
        r == match uuid_parsed(sub@) {
            Some(id) => Ok::<u128, u16>(id),
            None => Err(401),
        },
        forall|id: u128| sub@ == uuid_text(id) ==> r == Ok::<u128, u16>(id),
{
    match parse_uuid(sub) {
        Some(id) => Ok(id),
        None => Err(401),
    }
}

/// The `Cookie` header `cookie` carries a session token whose signed
/// subject (under `secret`) names the user `id`: it parses as `id`, and if
/// it is the hyphenated text of a user id, that id is `id`.
pub open spec fn authenticated_as(cookie: Option<&str>, secret: Seq<char>, id: u128) -> bool {
    &&& cookie is Some
    &&& session_token_spec(cookie.unwrap()@) matches Some(t)
    &&& jwt_signed_subject(t, secret) matches Some(s)
    &&& uuid_parsed(s) == Some(id)
    &&& forall|u: u128| s == uuid_text(u) ==> u == id
}

/// A session token issued for `user` authenticates as `user` and no one
/// else: whenever a request whose `Cookie` header carries it is
/// authenticated under the secret it was signed with, the user it
/// authenticates as is `user`.
pub proof fn law_issued_token_authenticates_its_user(
    cookie: &str,
    secret: Seq<char>,
    token: Seq<char>,
    user: u128,
    id: u128,
)
    requires
        session_token_spec(cookie@) == Some(token),
        jwt_signed_subject(token, secret) == Some(uuid_text(user)),
        authenticated_as(Some(cookie), secret, id),
    ensures
        id == user,
{
}

/// The user a request authenticates as: the session token of its `Cookie`
/// header, verified against `jwt_secret` and unexpired, whose subject names
/// a user. Anything else is `401 Unauthorized`.
pub fn authenticate(cookie: Option<&str>, jwt_secret: &str) -> (r: Result<u128, u16>)
    ensures
        cookie is None ==> r == Err::<u128, u16>(401),
        cookie is Some && session_token_spec(cookie.unwrap()@) is None ==> r == Err::<u128, u16>(401),
        r is Err ==> r == Err::<u128, u16>(401),
        r matches Ok(id) ==> authenticated_as(cookie, jwt_secret@, id),
{
    let c = match cookie {
        Some(c) => c,
        None => return Err(401),
    };
    let token = match session_token(c) {
        Some(t) => t,
        None => return Err(401),
    };
    let sub = match decode_jwt_subject(token.as_str(), jwt_secret) {
        Some(s) => s,
        None => return Err(401),
    };
    let r = subject_user(sub.as_str());
    assert(r matches Ok(id) ==> uuid_parsed(sub@) == Some(id));
    assert(session_token_spec(c@) == Some(token@));
    r
}

} // verus!
