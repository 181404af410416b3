//! Server settings read from environment variables: two required values,
//! defaults for the rest, and the numeric ones parsed with the error text of
//! Rust's integer parser.

use vstd::prelude::*;

use crate::text::{
    decimal, owned, parse_unsigned, parse_unsigned_chars, push_decimal, push_str, str_eq,
    IntErrorKind,
};

verus! {

#[derive(Clone, Debug)]
pub struct Settings {
    pub database_url: String,
    pub jwt_secret: String,
    pub admin_password: String,
    pub server_host: String,
    pub server_port: u16,
    pub db_max_connections: u32,
    pub docker_network: String,
    pub container_runtime: String,
    pub host_gateway_ip: String,
    pub host_port_start: u16,
    pub host_port_end: u16,
}

/// The value of `key` among the variables: the last pair with that name wins.
pub open spec fn env_get(vars: Seq<(String, String)>, key: Seq<char>) -> Option<Seq<char>>
    decreases vars.len(),
{
    if vars.len() == 0 {
        None
    } else if vars.last().0@ == key {
        Some(vars.last().1@)
    } else {
        env_get(vars.drop_last(), key)
    }
}

/// The value of `key`, or `default` when it is not set.
pub open spec fn env_or(vars: Seq<(String, String)>, key: Seq<char>, default: Seq<char>) -> Seq<
    char,
> {
    match env_get(vars, key) {
        Some(v) => v,
        None => default,
    }
}

/// The `Display` text of a `ParseIntError` of each kind.
pub open spec fn int_error_text(k: IntErrorKind) -> Seq<char> {
    match k {
        IntErrorKind::Empty => "cannot parse integer from empty string"@,
        IntErrorKind::InvalidDigit => "invalid digit found in string"@,
        IntErrorKind::PosOverflow => "number too large to fit in target type"@,
    }
}

/// A numeric setting: the value of `key` (or `default`) parsed as an
/// unsigned integer up to `max`, or `"<key> invalid: <parse error>"`.
pub open spec fn numeric_setting(
    vars: Seq<(String, String)>,
    key: Seq<char>,
    default: Seq<char>,
    max: nat,
) -> Result<nat, Seq<char>> {
    match parse_unsigned(env_or(vars, key, default), max) {
        Ok(n) => Ok(n),
        Err(k) => Err(key + " invalid: "@ + int_error_text(k)),
    }
}

/// The first reason the variables do not make settings, in field order.
pub open spec fn settings_error(vars: Seq<(String, String)>) -> Option<Seq<char>> {
    if env_get(vars, "DATABASE_URL"@) is None {
        Some("DATABASE_URL must be set"@)
    } else if env_get(vars, "JWT_SECRET"@) is None {
        Some("JWT_SECRET must be set"@)
    } else if numeric_setting(vars, "SERVER_PORT"@, "3000"@, u16::MAX as nat) is Err {
        Some(numeric_setting(vars, "SERVER_PORT"@, "3000"@, u16::MAX as nat)->Err_0)
    } else if numeric_setting(vars, "DB_MAX_CONNECTIONS"@, "5"@, u32::MAX as nat) is Err {
        Some(numeric_setting(vars, "DB_MAX_CONNECTIONS"@, "5"@, u32::MAX as nat)->Err_0)
    } else if numeric_setting(vars, "OW_HOST_PORT_START"@, "10000"@, u16::MAX as nat) is Err {
        Some(numeric_setting(vars, "OW_HOST_PORT_START"@, "10000"@, u16::MAX as nat)->Err_0)
    } else if numeric_setting(vars, "OW_HOST_PORT_END"@, "20000"@, u16::MAX as nat) is Err {
        Some(numeric_setting(vars, "OW_HOST_PORT_END"@, "20000"@, u16::MAX as nat)->Err_0)
    } else {
        None
    }
}

/// The settings made from the variables when `settings_error` is `None`.
pub open spec fn settings_from(vars: Seq<(String, String)>, s: Settings) -> bool {
    &&& env_get(vars, "DATABASE_URL"@) == Some(s.database_url@)
    &&& env_get(vars, "JWT_SECRET"@) == Some(s.jwt_secret@)
    &&& s.admin_password@ == env_or(vars, "ADMIN_PASSWORD"@, "admin"@)
    &&& s.server_host@ == env_or(vars, "SERVER_HOST"@, "0.0.0.0"@)
    &&& numeric_setting(vars, "SERVER_PORT"@, "3000"@, u16::MAX as nat) == Ok::<
        nat,
        Seq<char>,
    >(s.server_port as nat)
    &&& numeric_setting(vars, "DB_MAX_CONNECTIONS"@, "5"@, u32::MAX as nat) == Ok::<
        nat,
        Seq<char>,
    >(s.db_max_connections as nat)
    &&& s.docker_network@ == env_or(vars, "DOCKER_NETWORK"@, "ow-network"@)
    &&& s.container_runtime@ == env_or(vars, "OW_CONTAINER_RUNTIME"@, "docker"@)
    &&& s.host_gateway_ip@ == env_or(vars, "OW_HOST_GATEWAY_IP"@, "172.17.0.1"@)
    &&& numeric_setting(vars, "OW_HOST_PORT_START"@, "10000"@, u16::MAX as nat) == Ok::<
        nat,
        Seq<char>,
    >(s.host_port_start as nat)
    &&& numeric_setting(vars, "OW_HOST_PORT_END"@, "20000"@, u16::MAX as nat) == Ok::<
        nat,
        Seq<char>,
    >(s.host_port_end as nat)
}

/// The value of `key` among `vars`, the last pair with that name winning.
fn lookup(vars: &Vec<(String, String)>, key: &str) -> (r: Option<String>)
    ensures
        match r {
            Some(v) => env_get(vars@, key@) == Some(v@),
            None => env_get(vars@, key@) is None,
        },
{
    let mut i: usize = vars.len();
    assert(vars@.subrange(0, i as int) =~= vars@);
    while i > 0
        invariant
            i <= vars.len(),
            env_get(vars@, key@) == env_get(vars@.subrange(0, i as int), key@),
        decreases i,
    {
        let ghost pre = vars@.subrange(0, i as int);
        assert(pre.drop_last() =~= vars@.subrange(0, i - 1));
        if str_eq(vars[i - 1].0.as_str(), key) {
            return Some(vars[i - 1].1.clone());
        }
        i = i - 1;
    }
    None
}

/// The value of `key`, or a copy of `default`.
fn lookup_or(vars: &Vec<(String, String)>, key: &str, default: &str) -> (r: String)
    ensures
        r@ == env_or(vars@, key@, default@),
{
    match lookup(vars, key) {
        Some(v) => v,
        None => owned(default),
    }
}

/// The `Display` text of a `ParseIntError`.
fn int_error_string(k: IntErrorKind) -> (r: String)
    ensures
        r@ == int_error_text(k),
{
    match k {
        IntErrorKind::Empty => owned("cannot parse integer from empty string"),
        IntErrorKind::InvalidDigit => owned("invalid digit found in string"),
        IntErrorKind::PosOverflow => owned("number too large to fit in target type"),
    }
}

/// A numeric setting parsed up to `max`.
fn read_numeric(vars: &Vec<(String, String)>, key: &str, default: &str, max: u64) -> (r: Result<
    u64,
    String,
>)
    ensures
        match r {
            Ok(n) => numeric_setting(vars@, key@, default@, max as nat) == Ok::<nat, Seq<char>>(
                n as nat,
            ) && n <= max,
            Err(e) => numeric_setting(vars@, key@, default@, max as nat) == Err::<nat, Seq<char>>(
                e@,
            ),
        },
{
    let text = lookup_or(vars, key, default);
    let v = crate::text::chars_of(text.as_str());
    match parse_unsigned_chars(&v, max) {
        Ok(n) => Ok(n),
        Err(k) => {
            let mut e = String::new();
            push_str(&mut e, key);
            push_str(&mut e, " invalid: ");
            let t = int_error_string(k);
            push_str(&mut e, t.as_str());
            assert(e@ =~= key@ + " invalid: "@ + int_error_text(k));
            Err(e)
        },
    }
}

impl Settings {
    /// Settings from `(name, value)` variables: `DATABASE_URL` and
    /// `JWT_SECRET` are required, every other value has a default, and the
    /// numeric ones must parse; the first problem, in field order, is the
    /// error.
    pub fn from_env(vars: Vec<(String, String)>) -> (r: Result<Settings, String>)
        ensures
            match r {
                Ok(s) => settings_error(vars@) is None && settings_from(vars@, s),
                Err(e) => settings_error(vars@) == Some(e@),
            },
    {
        let database_url = match lookup(&vars, "DATABASE_URL") {
            Some(v) => v,
            None => return Err(owned("DATABASE_URL must be set")),
        };
        let jwt_secret = match lookup(&vars, "JWT_SECRET") {
            Some(v) => v,
            None => return Err(owned("JWT_SECRET must be set")),
        };
        let admin_password = lookup_or(&vars, "ADMIN_PASSWORD", "admin");
        let server_host = lookup_or(&vars, "SERVER_HOST", "0.0.0.0");
        let server_port = match read_numeric(&vars, "SERVER_PORT", "3000", 0xffff) {
            Ok(n) => n as u16,
            Err(e) => return Err(e),
        };
        let db_max_connections = match read_numeric(&vars, "DB_MAX_CONNECTIONS", "5", 0xffff_ffff) {
            Ok(n) => n as u32,
            Err(e) => return Err(e),
        };
        let docker_network = lookup_or(&vars, "DOCKER_NETWORK", "ow-network");
        let container_runtime = lookup_or(&vars, "OW_CONTAINER_RUNTIME", "docker");
        let host_gateway_ip = lookup_or(&vars, "OW_HOST_GATEWAY_IP", "172.17.0.1");
        let host_port_start = match read_numeric(&vars, "OW_HOST_PORT_START", "10000", 0xffff) {
            Ok(n) => n as u16,
            Err(e) => return Err(e),
        };
        let host_port_end = match read_numeric(&vars, "OW_HOST_PORT_END", "20000", 0xffff) {
            Ok(n) => n as u16,
            Err(e) => return Err(e),
        };
        Ok(
            Settings {
                database_url,
                jwt_secret,
                admin_password,
                server_host,
                server_port,
                db_max_connections,
                docker_network,
                container_runtime,
                host_gateway_ip,
                host_port_start,
                host_port_end,
            },
        )
    }

    /// `host:port` the server listens on.
    pub fn bind_address(&self) -> (r: String)
        ensures
            r@ == self.server_host@ + seq![':'] + decimal(self.server_port as nat),
    {
        let mut r = String::new();
        push_str(&mut r, self.server_host.as_str());
        crate::text::push_char(&mut r, ':');
        push_decimal(&mut r, self.server_port as u64);
        assert(r@ =~= self.server_host@ + seq![':'] + decimal(self.server_port as nat));
        r
    }
}

} // verus!
