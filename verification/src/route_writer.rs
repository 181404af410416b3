//! Reverse-proxy routes of instances: one dynamic-configuration file per
//! access token, routing `/<remote type>/<token>/` to the instance's
//! published host port, with basic-auth injection for the desktop and
//! terminal services. File writes and removals are performed by the caller's
//! closures.

use base64::Engine;
use vstd::prelude::*;

use vstd::utf8::encode_utf8;

use crate::docker::RemoteType;
use crate::text::{decimal, push_chars, push_decimal, push_str};

verus! {

/// The standard base64 alphabet (RFC 4648): `A-Z`, `a-z`, `0-9`, `+`, `/`.
pub open spec fn b64_char(v: nat) -> char {
    if v < 26 {
        ((v + 65) as u32) as char
    } else if v < 52 {
        ((v - 26 + 97) as u32) as char
    } else if v < 62 {
        ((v - 52 + 48) as u32) as char
    } else if v == 62 {
        '+'
    } else {
        '/'
    }
}

/// Standard base64 with `=` padding (RFC 4648): every three bytes become
/// four characters; a last group of one or two bytes is padded.
pub open spec fn base64_spec(b: Seq<u8>) -> Seq<char>
    decreases b.len(),
{
    if b.len() == 0 {
        seq![]
    } else if b.len() == 1 {
        seq![b64_char((b[0] / 4) as nat), b64_char(((b[0] % 4) * 16) as nat), '=', '=']
    } else if b.len() == 2 {
        seq![
            b64_char((b[0] / 4) as nat),
            b64_char(((b[0] % 4) * 16 + b[1] / 16) as nat),
            b64_char(((b[1] % 16) * 4) as nat),
            '=',
        ]
    } else {
        seq![
            b64_char((b[0] / 4) as nat),
            b64_char(((b[0] % 4) * 16 + b[1] / 16) as nat),
            b64_char(((b[1] % 16) * 4 + b[2] / 64) as nat),
            b64_char((b[2] % 64) as nat),
        ] + base64_spec(b.subrange(3, b.len() as int))
    }
}

/// Trusted: `base64`'s standard engine (`general_purpose::STANDARD`) encodes
/// with the RFC 4648 alphabet and `=` padding, as `base64_spec` states.
#[verifier::external_body]
fn base64_encode(data: &[u8]) -> (r: String)
    ensures
        r@ == base64_spec(data@),
{
    base64::engine::general_purpose::STANDARD.encode(data)
}

/// `Basic <base64 of user:password>`.
pub open spec fn basic_auth(user: Seq<char>, password: Seq<char>) -> Seq<char> {
    "Basic "@ + base64_spec(encode_utf8(user + seq![':'] + password))
}

/// The `Authorization` header value of HTTP basic authentication.
pub fn basic_auth_header(user: &str, password: &str) -> (r: String)
    ensures
        r@ == basic_auth(user@, password@),
{
    let mut cred = String::new();
    push_str(&mut cred, user);
    crate::text::push_char(&mut cred, ':');
    push_str(&mut cred, password);
    assert(cred@ =~= user@ + seq![':'] + password@);
    let encoded = base64_encode(cred.as_str().as_bytes());
    let mut r = String::new();
    push_str(&mut r, "Basic ");
    push_str(&mut r, encoded.as_str());
    assert(r@ =~= basic_auth(user@, password@));
    r
}

/// The route name prefix of a remote type.
pub open spec fn route_prefix(t: RemoteType) -> Seq<char> {
    t.spec_name()
}

/// The route file of a token: `<remote type>-<token>-ws.yml`.
pub open spec fn route_file_spec(t: RemoteType, token: Seq<char>) -> Seq<char> {
    route_prefix(t) + seq!['-'] + token + "-ws.yml"@
}

/// The route file name of a token.
pub fn route_file_name(remote_type: &RemoteType, token: &str) -> (r: String)
    ensures
        r@ == route_file_spec(*remote_type, token@),
{
    let mut r = String::new();
    push_str(&mut r, remote_type.as_str());
    crate::text::push_char(&mut r, '-');
    push_str(&mut r, token);
    push_str(&mut r, "-ws.yml");
    assert(r@ =~= route_file_spec(*remote_type, token@));
    r
}

/// A route that injects basic authentication and strips `/<name>/<token>`
/// before forwarding to the host port.
pub open spec fn auth_route_yaml(
    name: Seq<char>,
    token: Seq<char>,
    rule_path: Seq<char>,
    host_port: u16,
    auth: Seq<char>,
) -> Seq<char> {
    "http:\n  routers:\n    "@
        + name
        + "-"@
        + token
        + "-ws:\n      rule: \"PathPrefix(`"@
        + rule_path
        + "`)\"\n      service: \""@
        + name
        + "-"@
        + token
        + "\"\n      entryPoints:\n        - web\n      middlewares:\n        - \""@
        + name
        + "-"@
        + token
        + "-auth\"\n        - \""@
        + name
        + "-"@
        + token
        + "-strip\"\n  services:\n    "@
        + name
        + "-"@
        + token
        + ":\n      loadBalancer:\n        serversTransport: \"kasm-insecure\"\n        servers:\n          - url: \"https://host.docker.internal:"@
        + decimal(host_port as nat)
        + "\"\n  middlewares:\n    "@
        + name
        + "-"@
        + token
        + "-auth:\n      headers:\n        customRequestHeaders:\n          Authorization: \""@
        + auth
        + "\"\n    "@
        + name
        + "-"@
        + token
        + "-strip:\n      stripPrefix:\n        prefixes:\n          - \"/"@
        + name
        + "/"@
        + token
        + "\"\n"@
}

/// The Jupyter route: no authentication injection (Jupyter checks its own
/// token) and no prefix stripping.
pub open spec fn jupyter_route_yaml(token: Seq<char>, host_port: u16) -> Seq<char> {
    "http:\n  routers:\n    jupyter-"@
        + token
        + "-ws:\n      rule: \"PathPrefix(`/jupyter/"@
        + token
        + "/`)\"\n      service: \"jupyter-"@
        + token
        + "\"\n      entryPoints:\n        - web\n  services:\n    jupyter-"@
        + token
        + ":\n      loadBalancer:\n        serversTransport: \"kasm-insecure\"\n        servers:\n          - url: \"https://host.docker.internal:"@
        + decimal(host_port as nat)
        + "\"\n"@
}

/// The route configuration of an instance.
pub open spec fn route_yaml_spec(t: RemoteType, token: Seq<char>, host_port: u16, password: Seq<char>) -> Seq<
    char,
> {
    match t {
        RemoteType::KasmVnc => auth_route_yaml(
            "kasmvnc"@,
            token,
            "/kasmvnc/"@ + token + "/websockify"@,
            host_port,
            basic_auth("kasm_user"@, password),
        ),
        RemoteType::Ttyd => auth_route_yaml(
            "ttyd"@,
            token,
            "/ttyd/"@ + token + seq!['/'],
            host_port,
            basic_auth("ow_user"@, password),
        ),
        RemoteType::Jupyter => jupyter_route_yaml(token, host_port),
    }
}

fn auth_route(name: &str, token: &str, rule_path: &Vec<char>, host_port: u16, auth: &String) -> (r: String)
    ensures
        r@ == auth_route_yaml(name@, token@, rule_path@, host_port, auth@),
{
    let mut y = String::new();
    push_str(&mut y, "http:\n  routers:\n    ");
    push_str(&mut y, name);
    push_str(&mut y, "-");
    push_str(&mut y, token);
    push_str(&mut y, "-ws:\n      rule: \"PathPrefix(`");
    push_chars(&mut y, rule_path);
    push_str(&mut y, "`)\"\n      service: \"");
    push_str(&mut y, name);
    push_str(&mut y, "-");
    push_str(&mut y, token);
    push_str(&mut y, "\"\n      entryPoints:\n        - web\n      middlewares:\n        - \"");
    push_str(&mut y, name);
    push_str(&mut y, "-");
    push_str(&mut y, token);
    push_str(&mut y, "-auth\"\n        - \"");
    push_str(&mut y, name);
    push_str(&mut y, "-");
    push_str(&mut y, token);
    push_str(&mut y, "-strip\"\n  services:\n    ");
    push_str(&mut y, name);
    push_str(&mut y, "-");
    push_str(&mut y, token);
    push_str(&mut y, ":\n      loadBalancer:\n        serversTransport: \"kasm-insecure\"\n        servers:\n          - url: \"https://host.docker.internal:");
    push_decimal(&mut y, host_port as u64);
    push_str(&mut y, "\"\n  middlewares:\n    ");
    push_str(&mut y, name);
    push_str(&mut y, "-");
    push_str(&mut y, token);
    push_str(&mut y, "-auth:\n      headers:\n        customRequestHeaders:\n          Authorization: \"");
    push_str(&mut y, auth.as_str());
    push_str(&mut y, "\"\n    ");
    push_str(&mut y, name);
    push_str(&mut y, "-");
    push_str(&mut y, token);
    push_str(&mut y, "-strip:\n      stripPrefix:\n        prefixes:\n          - \"/");
    push_str(&mut y, name);
    push_str(&mut y, "/");
    push_str(&mut y, token);
    push_str(&mut y, "\"\n");
    assert(y@ =~= auth_route_yaml(name@, token@, rule_path@, host_port, auth@));
    y
}

fn jupyter_route(token: &str, host_port: u16) -> (r: String)
    ensures
        r@ == jupyter_route_yaml(token@, host_port),
{
    let mut y = String::new();
    push_str(&mut y, "http:\n  routers:\n    jupyter-");
    push_str(&mut y, token);
    push_str(&mut y, "-ws:\n      rule: \"PathPrefix(`/jupyter/");
    push_str(&mut y, token);
    push_str(&mut y, "/`)\"\n      service: \"jupyter-");
    push_str(&mut y, token);
    push_str(&mut y, "\"\n      entryPoints:\n        - web\n  services:\n    jupyter-");
    push_str(&mut y, token);
    push_str(&mut y, ":\n      loadBalancer:\n        serversTransport: \"kasm-insecure\"\n        servers:\n          - url: \"https://host.docker.internal:");
    push_decimal(&mut y, host_port as u64);
    push_str(&mut y, "\"\n");
    assert(y@ =~= jupyter_route_yaml(token@, host_port));
    y
}

fn chars_concat(a: &str, b: &str, c: &str) -> (r: Vec<char>)
    ensures
        r@ == a@ + b@ + c@,
{
    let mut s = String::new();
    push_str(&mut s, a);
    push_str(&mut s, b);
    push_str(&mut s, c);
    assert(s@ =~= a@ + b@ + c@);
    crate::text::chars_of(s.as_str())
}

/// The route configuration of an instance: KasmVNC routes its websockify
/// path with the `kasm_user` credentials injected, ttyd its path prefix with
/// the `ow_user` credentials, Jupyter its path prefix alone.
pub fn route_yaml(remote_type: &RemoteType, token: &str, host_port: u16, password: &str) -> (r:
    String)
    ensures
        r@ == route_yaml_spec(*remote_type, token@, host_port, password@),
{
    match remote_type {
        RemoteType::KasmVnc => {
            let auth = basic_auth_header("kasm_user", password);
            let rule = chars_concat("/kasmvnc/", token, "/websockify");
            auth_route("kasmvnc", token, &rule, host_port, &auth)
        },
        RemoteType::Ttyd => {
            let auth = basic_auth_header("ow_user", password);
            let rule = chars_concat("/ttyd/", token, "/");
            proof {
                reveal_strlit("/");
            }
            assert(rule@ =~= "/ttyd/"@ + token@ + seq!['/']);
            auth_route("ttyd", token, &rule, host_port, &auth)
        },
        RemoteType::Jupyter => jupyter_route(token, host_port),
    }
}

/// Write the route of an instance: `write(file name, contents)` stores the
/// configuration in the proxy's dynamic directory; its error is returned.
pub fn write_route<W: Fn(&str, &str) -> Result<(), String>>(
    remote_type: &RemoteType,
    token: &str,
    host_port: u16,
    password: &str,
    write: &W,
) -> (r: Result<(), String>)
    requires
        forall|f: &str, c: &str| call_requires(*write, (f, c)),
    ensures
        exists|f: &str, c: &str|
            f@ == route_file_spec(*remote_type, token@) && c@ == route_yaml_spec(
                *remote_type,
                token@,
                host_port,
                password@,
            ) && #[trigger] call_ensures(*write, (f, c), r),
{
    let name = route_file_name(remote_type, token);
    let yaml = route_yaml(remote_type, token, host_port, password);
    let f = name.as_str();
    let c = yaml.as_str();
    let r = write(f, c);
    assert(call_ensures(*write, (f, c), r));
    r
}

/// The route files a token may have, one per remote type.
pub open spec fn route_files_of(token: Seq<char>) -> Seq<Seq<char>> {
    seq![
        route_file_spec(RemoteType::KasmVnc, token),
        route_file_spec(RemoteType::Ttyd, token),
        route_file_spec(RemoteType::Jupyter, token),
    ]
}

/// One call of `remove` on `file` succeeded.
pub open spec fn removed<D: Fn(&str) -> Result<(), String>>(remove: D, file: Seq<char>) -> bool {
    exists|f: &str, r: Result<(), String>| f@ == file && r is Ok && #[trigger] call_ensures(remove, (f,), r)
}

/// One call of `remove` on `file` returned the error `r`.
pub open spec fn failed_with<D: Fn(&str) -> Result<(), String>>(remove: D, file: Seq<char>, r: Result<(), String>) -> bool {
    r is Err && exists|f: &str| f@ == file && #[trigger] call_ensures(remove, (f,), r)
}

/// Delete every route file of a token: `remove(file name)` removes the file
/// when it exists; the first error stops the deletion and is returned.
pub fn delete_route<D: Fn(&str) -> Result<(), String>>(token: &str, remove: &D) -> (r: Result<(), String>)
    requires
        forall|f: &str| call_requires(*remove, (f,)),
    ensures
        r is Ok ==> forall|i: int| 0 <= i < 3 ==> #[trigger] removed(*remove, route_files_of(token@)[i]),
        r is Err ==> exists|i: int|
            0 <= i < 3 && (forall|j: int| 0 <= j < i ==> #[trigger] removed(*remove, route_files_of(token@)[j]))
                && #[trigger] failed_with(*remove, route_files_of(token@)[i], r),
{
    let kinds = [RemoteType::KasmVnc, RemoteType::Ttyd, RemoteType::Jupyter];
    let mut i: usize = 0;
    while i < 3
        invariant
            i <= 3,
            kinds@ == seq![RemoteType::KasmVnc, RemoteType::Ttyd, RemoteType::Jupyter],
            forall|f: &str| call_requires(*remove, (f,)),
            forall|j: int| 0 <= j < i ==> #[trigger] removed(*remove, route_files_of(token@)[j]),
        decreases 3 - i,
    {
        let name = route_file_name(&kinds[i], token);
        let f = name.as_str();
        let res = remove(f);
        assert(call_ensures(*remove, (f,), res));
        if res.is_err() {
            assert(failed_with(*remove, route_files_of(token@)[i as int], res));
            return res;
        }
        assert(removed(*remove, route_files_of(token@)[i as int]));
        i = i + 1;
    }
    Ok(())
}

} // verus!
