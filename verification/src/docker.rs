//! Container plans and the container-side checks: remote types and their
//! service ports, the security posture of the Docker-in-Instance switch,
//! port publishing, the creation plan of an instance container, session
//! detection from `ss` output, and the bandwidth limit of a running
//! container, whose commands a caller-supplied runner executes.

use vstd::prelude::*;

use crate::network_qos::{apply_htb, htb_class_args_spec, htb_qdisc_args_spec, parse_host_veths, parse_peer_ifindex, peer_ifindex_spec, ran, veths_spec, views as arg_views};
use crate::text::{
    chars_of, decimal, ends_with, ends_with_chars, lines, lines_chars, owned, push_decimal,
    push_str, str_eq, words, words_chars,
};

verus! {

/// The browser-facing service a workspace container exposes.
#[derive(Debug, Clone, Copy, PartialEq, Eq, Structural)]
pub enum RemoteType {
    KasmVnc,
    Ttyd,
    Jupyter,
}

impl RemoteType {
    /// The name of each remote type as templates store it.
    pub open spec fn spec_name(self) -> Seq<char> {
        match self {
            RemoteType::KasmVnc => "kasmvnc"@,
            RemoteType::Ttyd => "ttyd"@,
            RemoteType::Jupyter => "jupyter"@,
        }
    }

    pub fn as_str(&self) -> (r: &'static str)
        ensures
            r@ == self.spec_name(),
    {
        match self {
            RemoteType::KasmVnc => "kasmvnc",
            RemoteType::Ttyd => "ttyd",
            RemoteType::Jupyter => "jupyter",
        }
    }

    /// The remote type of a stored name; any other name is refused with
    /// `unknown remote_type: <name>`.
    pub fn parse(s: &str) -> (r: Result<RemoteType, String>)
        ensures
            match r {
                Ok(t) => t.spec_name() == s@,
                Err(e) => e@ == "unknown remote_type: "@ + s@ && s@ != "kasmvnc"@ && s@
                    != "ttyd"@ && s@ != "jupyter"@,
            },
    {
        if str_eq(s, "kasmvnc") {
            Ok(RemoteType::KasmVnc)
        } else if str_eq(s, "ttyd") {
            Ok(RemoteType::Ttyd)
        } else if str_eq(s, "jupyter") {
            Ok(RemoteType::Jupyter)
        } else {
            let mut e = String::new();
            push_str(&mut e, "unknown remote_type: ");
            push_str(&mut e, s);
            Err(e)
        }
    }

    /// The in-container service port of each remote type.
    pub open spec fn spec_port(self) -> u16 {
        match self {
            RemoteType::KasmVnc => 6901,
            RemoteType::Ttyd => 7681,
            RemoteType::Jupyter => 8888,
        }
    }

    pub fn port(&self) -> (p: u16)
        ensures
            p == self.spec_port(),
    {
        match self {
            RemoteType::KasmVnc => 6901,
            RemoteType::Ttyd => 7681,
            RemoteType::Jupyter => 8888,
        }
    }
}

impl std::str::FromStr for RemoteType {
    type Err = String;

    fn from_str(s: &str) -> (r: Result<RemoteType, String>)
        ensures
            match r {
                Ok(t) => t.spec_name() == s@,
                Err(e) => e@ == "unknown remote_type: "@ + s@ && s@ != "kasmvnc"@ && s@
                    != "ttyd"@ && s@ != "jupyter"@,
            },
    {
        RemoteType::parse(s)
    }
}

/// Security posture of a container, derived from the Docker-in-Instance
/// switch: off keeps the hardened defaults (no privilege, `NET_RAW` and
/// `NET_ADMIN` dropped); on runs privileged with no capability drop, a
/// `tmpfs` at `/var/lib/docker` and `OW_DOCKER_IN_INSTANCE=true` in the
/// environment. The runtime only decides why the elevated posture is
/// acceptable (`runsc` sandbox) or a warned risk (`runc`), not what is sent.
/// `tmpfs` lists `(mount point, options)` pairs.
#[derive(Debug, Clone, PartialEq)]
pub struct DiniSecurityProfile {
    pub privileged: bool,
    pub cap_drop: Option<Vec<String>>,
    pub tmpfs: Option<Vec<(String, String)>>,
    pub dind_env: Option<String>,
}

/// The character contents of each string of a sequence.
pub open spec fn views(v: Seq<String>) -> Seq<Seq<char>> {
    v.map_values(|s: String| s@)
}

/// The privilege, capability drops and `tmpfs` mounts of each posture.
pub open spec fn posture_ok(
    docker_in_instance: bool,
    privileged: bool,
    cap_drop: Option<Vec<String>>,
    tmpfs: Option<Vec<(String, String)>>,
) -> bool {
    if !docker_in_instance {
        &&& !privileged
        &&& cap_drop is Some && views(cap_drop.unwrap()@) == seq!["NET_RAW"@, "NET_ADMIN"@]
        &&& tmpfs is None
    } else {
        &&& privileged
        &&& cap_drop is None
        &&& tmpfs is Some && tmpfs.unwrap()@.len() == 1 && tmpfs.unwrap()@[0].0@
            == "/var/lib/docker"@ && tmpfs.unwrap()@[0].1@ == "exec,mode=755"@
    }
}

/// The profile `dini_security_profile` builds.
pub open spec fn dini_profile_ok(docker_in_instance: bool, p: DiniSecurityProfile) -> bool {
    &&& posture_ok(docker_in_instance, p.privileged, p.cap_drop, p.tmpfs)
    &&& if docker_in_instance {
        p.dind_env is Some && p.dind_env.unwrap()@ == "OW_DOCKER_IN_INSTANCE=true"@
    } else {
        p.dind_env is None
    }
}

/// The security profile of a container with or without Docker-in-Instance.
pub fn dini_security_profile(docker_in_instance: bool, _runtime: &str) -> (r: DiniSecurityProfile)
    ensures
        dini_profile_ok(docker_in_instance, r),
{
    if !docker_in_instance {
        let mut caps: Vec<String> = Vec::new();
        caps.push(owned("NET_RAW"));
        caps.push(owned("NET_ADMIN"));
        assert(views(caps@) =~= seq!["NET_RAW"@, "NET_ADMIN"@]);
        return DiniSecurityProfile {
            privileged: false,
            cap_drop: Some(caps),
            tmpfs: None,
            dind_env: None,
        };
    }
    let mut tmpfs: Vec<(String, String)> = Vec::new();
    tmpfs.push((owned("/var/lib/docker"), owned("exec,mode=755")));
    DiniSecurityProfile {
        privileged: true,
        cap_drop: None,
        tmpfs: Some(tmpfs),
        dind_env: Some(owned("OW_DOCKER_IN_INSTANCE=true")),
    }
}

/// The OCI runtime to request from Docker: none for the default runtime
/// (`""` or `docker`), the given name otherwise.
pub fn runtime_to_host_config(value: &str) -> (r: Option<String>)
    ensures
        value@ == ""@ || value@ == "docker"@ ==> r is None,
        !(value@ == ""@ || value@ == "docker"@) ==> r is Some && r.unwrap()@ == value@,
{
    if str_eq(value, "") || str_eq(value, "docker") {
        None
    } else {
        Some(owned(value))
    }
}

/// Where a container port is published on the host.
#[derive(Debug, Clone, PartialEq)]
pub struct PortBinding {
    pub host_ip: Option<String>,
    pub host_port: Option<String>,
}

/// `<port>/tcp`, the key Docker uses for a container port.
pub open spec fn tcp_port_key(port: u16) -> Seq<char> {
    decimal(port as nat) + "/tcp"@
}

/// `<port>/tcp` for a container port.
pub fn tcp_port_key_string(port: u16) -> (r: String)
    ensures
        r@ == tcp_port_key(port),
{
    let mut r = String::new();
    push_decimal(&mut r, port as u64);
    push_str(&mut r, "/tcp");
    r
}

/// The port bindings publishing an instance's single service port: one key,
/// the remote type's container port, bound to `host_ip:host_port`.
pub fn port_bindings_for(remote_type: &RemoteType, host_ip: &str, host_port: u16) -> (r: Vec<
    (String, Vec<PortBinding>),
>)
    ensures
        binding_ok(r@, *remote_type, host_ip@, host_port),
{
    let key = tcp_port_key_string(remote_type.port());
    let mut port = String::new();
    push_decimal(&mut port, host_port as u64);
    assert(port@ =~= decimal(host_port as nat));
    let mut bindings: Vec<PortBinding> = Vec::new();
    bindings.push(PortBinding { host_ip: Some(owned(host_ip)), host_port: Some(port) });
    let mut r: Vec<(String, Vec<PortBinding>)> = Vec::new();
    r.push((key, bindings));
    r
}

/// One call of `probe` on `path` may have answered `present`.
pub open spec fn probed<F: Fn(&str) -> bool>(probe: F, path: Seq<char>, present: bool) -> bool {
    exists|p: &str| p@ == path && #[trigger] call_ensures(probe, (p,), present)
}

/// The `ss` binary to run: the first of `/bin/ss`, `/usr/sbin/ss`,
/// `/usr/bin/ss` that `path_exists` reports present, `/bin/ss` when none is.
pub fn ss_binary_path<F: Fn(&str) -> bool>(path_exists: &F) -> (r: &'static str)
    requires
        forall|p: &str| call_requires(*path_exists, (p,)),
    ensures
        r@ == "/bin/ss"@ ==> probed(*path_exists, "/bin/ss"@, true) || (probed(
            *path_exists,
            "/bin/ss"@,
            false,
        ) && probed(*path_exists, "/usr/sbin/ss"@, false) && probed(*path_exists, "/usr/bin/ss"@, false)),
        r@ == "/usr/sbin/ss"@ ==> probed(*path_exists, "/bin/ss"@, false) && probed(
            *path_exists,
            "/usr/sbin/ss"@,
            true,
        ),
        r@ == "/usr/bin/ss"@ ==> probed(*path_exists, "/bin/ss"@, false) && probed(
            *path_exists,
            "/usr/sbin/ss"@,
            false,
        ) && probed(*path_exists, "/usr/bin/ss"@, true),
        r@ == "/bin/ss"@ || r@ == "/usr/sbin/ss"@ || r@ == "/usr/bin/ss"@,
{
    proof {
        reveal_strlit("/bin/ss");
        reveal_strlit("/usr/sbin/ss");
        reveal_strlit("/usr/bin/ss");
        assert("/bin/ss"@.len() == 7 && "/usr/sbin/ss"@.len() == 12 && "/usr/bin/ss"@.len() == 11);
    }
    let a = "/bin/ss";
    let b = "/usr/sbin/ss";
    let c = "/usr/bin/ss";
    let has_a = path_exists(a);
    assert(probed(*path_exists, "/bin/ss"@, has_a));
    if has_a {
        return a;
    }
    let has_b = path_exists(b);
    assert(probed(*path_exists, "/usr/sbin/ss"@, has_b));
    if has_b {
        return b;
    }
    let has_c = path_exists(c);
    assert(probed(*path_exists, "/usr/bin/ss"@, has_c));
    if has_c {
        return c;
    }
    a
}

/// The local endpoint (fourth field) of some line with at least five
/// fields ends in `:<port>`.
pub open spec fn ss_has_connection(output: Seq<char>, port: u16) -> bool {
    exists|i: int|
        0 <= i < lines(output).len() && #[trigger] words(lines(output)[i]).len() >= 5 && ends_with(
            words(lines(output)[i])[3],
            seq![':'] + decimal(port as nat),
        )
}

/// Whether `ss -t -n state established` output shows an established
/// connection whose local endpoint is `port` (State, Recv-Q, Send-Q, Local,
/// Peer): a peer endpoint on that port does not count.
pub fn ss_output_has_connection(output: &str, port: u16) -> (r: bool)
    ensures
        r == ss_has_connection(output@, port),
{
    let mut needle = String::new();
    crate::text::push_char(&mut needle, ':');
    push_decimal(&mut needle, port as u64);
    let nv = chars_of(needle.as_str());
    assert(nv@ =~= seq![':'] + decimal(port as nat));
    let v = chars_of(output);
    let ls = lines_chars(&v);
    let mut k: usize = 0;
    while k < ls.len()
        invariant
            k <= ls.len(),
            ls.len() == lines(output@).len(),
            nv@ == seq![':'] + decimal(port as nat),
            forall|j: int| 0 <= j < ls.len() ==> (#[trigger] ls[j])@ == lines(output@)[j],
            forall|j: int|
                0 <= j < k ==> !(#[trigger] words(lines(output@)[j]).len() >= 5 && ends_with(
                    words(lines(output@)[j])[3],
                    seq![':'] + decimal(port as nat),
                )),
        decreases ls.len() - k,
    {
        let fields = words_chars(&ls[k]);
        if fields.len() >= 5 && ends_with_chars(&fields[3], &nv) {
            assert(words(lines(output@)[k as int]).len() >= 5);
            return true;
        }
        k = k + 1;
    }
    false
}

// ───────────────────────── container creation plan ─────────────────────────

/// What a template's run configuration contributes to a container, as plain
/// values: the string items of its `environment` list, its `dns` list (when
/// it is a list), its integer `shm_size`, string `hostname`, and `command`
/// list (when it is a list).
#[derive(Debug, Clone)]
pub struct RunConfig {
    pub environment: Vec<String>,
    pub dns: Option<Vec<String>>,
    pub shm_size: Option<i64>,
    pub hostname: Option<String>,
    pub command: Option<Vec<String>>,
}

/// Full configuration for creating a container from a workspace template.
/// `volume_mappings` holds the `(host path, container path)` pairs whose
/// container path is a string, `exec_commands` the `(name, shell command)`
/// post-start commands.
#[derive(Debug, Clone)]
pub struct ContainerConfig {
    pub image: String,
    pub cores: i32,
    pub memory: i64,
    pub gpu_count: i32,
    pub remote_type: RemoteType,
    pub run_config: RunConfig,
    pub exec_commands: Vec<(String, String)>,
    pub volume_mappings: Vec<(String, String)>,
    pub persistent_volume_name: Option<String>,
    pub command: Option<Vec<String>>,
    pub runtime: Option<String>,
    pub network_bandwidth_up_mbps: i32,
    pub network_bandwidth_down_mbps: i32,
    /// Host port the instance's single service port is published to; `None`
    /// publishes nothing.
    pub host_port: Option<u16>,
    /// Host gateway address the published port binds to (`172.17.0.1` when
    /// unset).
    pub host_gateway_ip: Option<String>,
    /// Run a Docker daemon inside the instance.
    pub docker_in_instance: bool,
}

/// Everything Docker is asked for when a container is created and started.
#[derive(Debug, Clone)]
pub struct ContainerPlan {
    pub image: String,
    pub env: Vec<String>,
    pub exposed_port: String,
    pub binds: Option<Vec<String>>,
    pub dns: Option<Vec<String>>,
    pub shm_size: i64,
    pub hostname: Option<String>,
    pub network_mode: String,
    pub nano_cpus: Option<i64>,
    pub memory: Option<i64>,
    /// Number of GPUs requested from the `nvidia` driver.
    pub gpu_count: Option<i64>,
    pub runtime: Option<String>,
    pub port_bindings: Option<Vec<(String, Vec<PortBinding>)>>,
    pub cmd: Option<Vec<String>>,
    pub privileged: bool,
    pub cap_drop: Option<Vec<String>>,
    pub tmpfs: Option<Vec<(String, String)>>,
    /// Upload the KasmVNC server configuration before the start.
    pub inject_kasmvnc_config: bool,
    /// Apply the bandwidth limit after the start.
    pub apply_bandwidth: bool,
    pub post_start_commands: Vec<(String, String)>,
}

/// Default `/dev/shm` size: KasmVNC's browser exhausts Docker's 64 MiB.
pub const DEFAULT_SHM_SIZE: i64 = 536870912;

/// The service environment of each remote type.
pub open spec fn service_env(remote_type: RemoteType, password: Seq<char>, access_token: Seq<char>) -> Seq<
    Seq<char>,
> {
    match remote_type {
        RemoteType::KasmVnc => seq!["KASM_VNC_PORT=6901"@, "DISPLAY=:1"@, "VNC_PW="@ + password],
        RemoteType::Ttyd => seq!["TTYD_USERNAME=ow_user"@, "TTYD_PASSWORD="@ + password],
        RemoteType::Jupyter => seq![
            "JUPYTER_TOKEN="@ + password,
            "JUPYTER_BASE_URL=/jupyter/"@ + access_token,
        ],
    }
}

/// The container environment: the service variables, the Docker-in-Instance
/// marker when enabled, then the template's own variables.
pub open spec fn container_env(config: ContainerConfig, password: Seq<char>, access_token: Seq<char>) -> Seq<
    Seq<char>,
> {
    service_env(config.remote_type, password, access_token) + (if config.docker_in_instance {
        seq!["OW_DOCKER_IN_INSTANCE=true"@]
    } else {
        Seq::<Seq<char>>::empty()
    }) + views(config.run_config.environment@)
}

/// The mount target of a persistent volume per remote type.
pub open spec fn home_target(remote_type: RemoteType) -> Seq<char> {
    match remote_type {
        RemoteType::KasmVnc => "/home/kasm-user"@,
        _ => "/home/ow_user"@,
    }
}

/// `source:target:rw`.
pub open spec fn rw_bind(source: Seq<char>, target: Seq<char>) -> Seq<char> {
    source + seq![':'] + target + ":rw"@
}

/// The bind mounts: every volume mapping, then the persistent volume.
pub open spec fn container_binds(config: ContainerConfig) -> Seq<Seq<char>> {
    config.volume_mappings@.map_values(|m: (String, String)| rw_bind(m.0@, m.1@)) + match config.persistent_volume_name {
        Some(v) => seq![rw_bind(v@, home_target(config.remote_type))],
        None => Seq::<Seq<char>>::empty(),
    }
}

/// The single binding of a service port to `host_ip:host_port`.
pub open spec fn binding_ok(
    b: Seq<(String, Vec<PortBinding>)>,
    remote_type: RemoteType,
    host_ip: Seq<char>,
    host_port: u16,
) -> bool {
    &&& b.len() == 1
    &&& b[0].0@ == tcp_port_key(remote_type.spec_port())
    &&& b[0].1@.len() == 1
    &&& b[0].1@[0].host_ip is Some && b[0].1@[0].host_ip.unwrap()@ == host_ip
    &&& b[0].1@[0].host_port is Some && b[0].1@[0].host_port.unwrap()@ == decimal(host_port as nat)
}

/// The plan `plan_container` builds.
pub open spec fn plan_ok(
    config: ContainerConfig,
    network_name: Seq<char>,
    password: Seq<char>,
    access_token: Seq<char>,
    p: ContainerPlan,
) -> bool {
    &&& p.image@ == config.image@
    &&& views(p.env@) == container_env(config, password, access_token)
    &&& p.exposed_port@ == tcp_port_key(config.remote_type.spec_port())
    &&& (if container_binds(config).len() == 0 {
        p.binds is None
    } else {
        p.binds is Some && views(p.binds.unwrap()@) == container_binds(config)
    })
    &&& (match config.run_config.dns {
        Some(d) => p.dns is Some && views(p.dns.unwrap()@) == views(d@),
        None => p.dns is None,
    })
    &&& p.shm_size == match config.run_config.shm_size {
        Some(n) => n,
        None => DEFAULT_SHM_SIZE,
    }
    &&& (match config.run_config.hostname {
        Some(h) => p.hostname is Some && p.hostname.unwrap()@ == h@,
        None => p.hostname is None,
    })
    &&& p.network_mode@ == network_name
    &&& p.nano_cpus == if config.cores > 0 {
        Some((config.cores * 1_000_000_000) as i64)
    } else {
        None
    }
    &&& p.memory == if config.memory > 0 {
        Some(config.memory)
    } else {
        None
    }
    &&& p.gpu_count == if config.gpu_count > 0 {
        Some(config.gpu_count as i64)
    } else {
        None
    }
    &&& (match config.runtime {
        Some(rt) => if rt@ == ""@ || rt@ == "docker"@ {
            p.runtime is None
        } else {
            p.runtime is Some && p.runtime.unwrap()@ == rt@
        },
        None => p.runtime is None,
    })
    &&& (match config.host_port {
        Some(hp) => p.port_bindings is Some && binding_ok(
            p.port_bindings.unwrap()@,
            config.remote_type,
            match config.host_gateway_ip {
                Some(ip) => ip@,
                None => "172.17.0.1"@,
            },
            hp,
        ),
        None => p.port_bindings is None,
    })
    &&& (match config.command {
        Some(c) => p.cmd is Some && views(p.cmd.unwrap()@) == views(c@),
        None => match config.run_config.command {
            Some(c) => p.cmd is Some && views(p.cmd.unwrap()@) == views(c@),
            None => p.cmd is None,
        },
    })
    &&& posture_ok(config.docker_in_instance, p.privileged, p.cap_drop, p.tmpfs)
    &&& p.inject_kasmvnc_config == (config.remote_type == RemoteType::KasmVnc)
    &&& p.apply_bandwidth == (config.network_bandwidth_up_mbps > 0
        || config.network_bandwidth_down_mbps > 0)
    &&& p.post_start_commands@.len() == config.exec_commands@.len()
    &&& forall|i: int|
        0 <= i < config.exec_commands@.len() ==> (#[trigger] p.post_start_commands@[i]).0@
            == config.exec_commands@[i].0@ && p.post_start_commands@[i].1@
            == config.exec_commands@[i].1@
}

/// A copy of each string of `v`.
pub fn copy_strings(v: &Vec<String>) -> (r: Vec<String>)
    ensures
        views(r@) == views(v@),
{
    let mut r: Vec<String> = Vec::new();
    let mut i: usize = 0;
    while i < v.len()
        invariant
            i <= v.len(),
            r@.len() == i,
            forall|j: int| 0 <= j < i ==> (#[trigger] r@[j])@ == v@[j]@,
        decreases v.len() - i,
    {
        r.push(v[i].clone());
        i = i + 1;
    }
    assert(views(r@) =~= views(v@));
    r
}

fn concat(a: &str, b: &str) -> (r: String)
    ensures
        r@ == a@ + b@,
{
    let mut r = String::new();
    push_str(&mut r, a);
    push_str(&mut r, b);
    assert(r@ =~= a@ + b@);
    r
}

fn rw_bind_string(source: &str, target: &str) -> (r: String)
    ensures
        r@ == rw_bind(source@, target@),
{
    let mut r = String::new();
    push_str(&mut r, source);
    crate::text::push_char(&mut r, ':');
    push_str(&mut r, target);
    push_str(&mut r, ":rw");
    assert(r@ =~= rw_bind(source@, target@));
    r
}

fn container_env_strings(config: &ContainerConfig, password: &str, access_token: &str) -> (r: Vec<
    String,
>)
    ensures
        views(r@) == container_env(*config, password@, access_token@),
{
    let mut env: Vec<String> = Vec::new();
    match config.remote_type {
        RemoteType::KasmVnc => {
            env.push(owned("KASM_VNC_PORT=6901"));
            env.push(owned("DISPLAY=:1"));
            env.push(concat("VNC_PW=", password));
        },
        RemoteType::Ttyd => {
            env.push(owned("TTYD_USERNAME=ow_user"));
            env.push(concat("TTYD_PASSWORD=", password));
        },
        RemoteType::Jupyter => {
            env.push(concat("JUPYTER_TOKEN=", password));
            env.push(concat("JUPYTER_BASE_URL=/jupyter/", access_token));
        },
    }
    let ghost service = views(env@);
    assert(service =~= service_env(config.remote_type, password@, access_token@));
    let dini = dini_security_profile(config.docker_in_instance, "");
    match dini.dind_env {
        Some(marker) => {
            env.push(marker);
        },
        None => {},
    }
    let ghost with_marker = views(env@);
    assert(with_marker =~= service_env(config.remote_type, password@, access_token@) + (
    if config.docker_in_instance {
        seq!["OW_DOCKER_IN_INSTANCE=true"@]
    } else {
        Seq::<Seq<char>>::empty()
    }));
    let user = &config.run_config.environment;
    let ghost n = env@.len();
    assert(with_marker.len() == n);
    let mut i: usize = 0;
    while i < user.len()
        invariant
            i <= user.len(),
            env@.len() == n + i,
            with_marker.len() == n,
            forall|j: int| 0 <= j < n ==> (#[trigger] env@[j])@ == with_marker[j],
            forall|j: int| 0 <= j < i ==> (#[trigger] env@[n + j])@ == user@[j]@,
        decreases user.len() - i,
    {
        env.push(user[i].clone());
        assert(env@[n + i]@ == user@[i as int]@);
        i = i + 1;
    }
    assert forall|j: int| 0 <= j < env@.len() implies views(env@)[j] == (with_marker + views(user@))[j] by {
        if j >= n {
            assert(env@[n + (j - n)]@ == user@[j - n]@);
        }
    }
    assert(views(env@) =~= with_marker + views(user@));
    env
}

fn container_bind_strings(config: &ContainerConfig) -> (r: Vec<String>)
    ensures
        views(r@) == container_binds(*config),
{
    let maps = &config.volume_mappings;
    let mut binds: Vec<String> = Vec::new();
    let mut i: usize = 0;
    while i < maps.len()
        invariant
            i <= maps.len(),
            binds@.len() == i,
            forall|j: int| 0 <= j < i ==> (#[trigger] binds@[j])@ == rw_bind(maps@[j].0@, maps@[j].1@),
        decreases maps.len() - i,
    {
        binds.push(rw_bind_string(maps[i].0.as_str(), maps[i].1.as_str()));
        i = i + 1;
    }
    assert(views(binds@) =~= maps@.map_values(|m: (String, String)| rw_bind(m.0@, m.1@)));
    match &config.persistent_volume_name {
        Some(volume) => {
            let target = match config.remote_type {
                RemoteType::KasmVnc => "/home/kasm-user",
                _ => "/home/ow_user",
            };
            binds.push(rw_bind_string(volume.as_str(), target));
        },
        None => {},
    }
    assert(views(binds@) =~= container_binds(*config));
    binds
}

/// Build the container plan of a template: environment, exposed port, bind
/// mounts, DNS, shared-memory size, hostname, network, CPU / memory / GPU
/// limits, runtime, port publishing, command, security posture, and the
/// post-creation steps.
pub fn plan_container(
    config: &ContainerConfig,
    network_name: &str,
    password: &str,
    access_token: &str,
) -> (p: ContainerPlan)
    ensures
        plan_ok(*config, network_name@, password@, access_token@, p),
{
    let env = container_env_strings(config, password, access_token);
    let exposed_port = tcp_port_key_string(config.remote_type.port());
    let all_binds = container_bind_strings(config);
    let binds = if all_binds.len() == 0 {
        None
    } else {
        Some(all_binds)
    };
    let dns = match &config.run_config.dns {
        Some(d) => Some(copy_strings(d)),
        None => None,
    };
    let shm_size = match config.run_config.shm_size {
        Some(n) => n,
        None => DEFAULT_SHM_SIZE,
    };
    let hostname = match &config.run_config.hostname {
        Some(h) => Some(h.clone()),
        None => None,
    };
    let nano_cpus = if config.cores > 0 {
        Some((config.cores as i64) * 1_000_000_000)
    } else {
        None
    };
    let memory = if config.memory > 0 {
        Some(config.memory)
    } else {
        None
    };
    let gpu_count = if config.gpu_count > 0 {
        Some(config.gpu_count as i64)
    } else {
        None
    };
    let runtime = match &config.runtime {
        Some(rt) => runtime_to_host_config(rt.as_str()),
        None => None,
    };
    let port_bindings = match config.host_port {
        Some(hp) => {
            let host_ip = match &config.host_gateway_ip {
                Some(ip) => ip.as_str(),
                None => "172.17.0.1",
            };
            Some(port_bindings_for(&config.remote_type, host_ip, hp))
        },
        None => None,
    };
    let cmd = match &config.command {
        Some(c) => Some(copy_strings(c)),
        None => match &config.run_config.command {
            Some(c) => Some(copy_strings(c)),
            None => None,
        },
    };
    let dini = dini_security_profile(config.docker_in_instance, "");
    let mut post: Vec<(String, String)> = Vec::new();
    let mut i: usize = 0;
    while i < config.exec_commands.len()
        invariant
            i <= config.exec_commands@.len(),
            post@.len() == i,
            forall|j: int|
                0 <= j < i ==> (#[trigger] post@[j]).0@ == config.exec_commands@[j].0@ && post@[j].1@
                    == config.exec_commands@[j].1@,
        decreases config.exec_commands@.len() - i,
    {
        post.push((config.exec_commands[i].0.clone(), config.exec_commands[i].1.clone()));
        i = i + 1;
    }
    let inject = match config.remote_type {
        RemoteType::KasmVnc => true,
        _ => false,
    };
    ContainerPlan {
        image: config.image.clone(),
        env,
        exposed_port,
        binds,
        dns,
        shm_size,
        hostname,
        network_mode: owned(network_name),
        nano_cpus,
        memory,
        gpu_count,
        runtime,
        port_bindings,
        cmd,
        privileged: dini.privileged,
        cap_drop: dini.cap_drop,
        tmpfs: dini.tmpfs,
        inject_kasmvnc_config: inject,
        apply_bandwidth: config.network_bandwidth_up_mbps > 0 || config.network_bandwidth_down_mbps
            > 0,
        post_start_commands: post,
    }
}

// ───────────────────────── bandwidth limits ─────────────────────────

/// The first twelve characters of a container id.
pub open spec fn short_id(id: Seq<char>) -> Seq<char> {
    if id.len() <= 12 {
        id
    } else {
        id.subrange(0, 12)
    }
}

/// `ip -o link show eth0`, run inside the container's namespace.
pub open spec fn eth0_link_args() -> Seq<Seq<char>> {
    seq!["/usr/sbin/ip"@, "-o"@, "link"@, "show"@, "eth0"@]
}

/// `ip -o link show type veth`, run in the host namespace.
pub open spec fn host_veth_args() -> Seq<Seq<char>> {
    seq!["/usr/sbin/ip"@, "-o"@, "link"@, "show"@, "type"@, "veth"@]
}

/// The name of the first `(name, index)` pair whose index is `k`.
pub open spec fn first_veth_named(veths: Seq<(Seq<char>, nat)>, k: nat) -> Option<Seq<char>>
    decreases veths.len(),
{
    if veths.len() == 0 {
        None
    } else if veths[0].1 == k {
        Some(veths[0].0)
    } else {
        first_veth_named(veths.drop_first(), k)
    }
}

/// An HTB limit of `rate` was installed on `iface` in namespace `pid`: both
/// the qdisc and the class commands succeeded.
pub open spec fn htb_installed<F: Fn(u32, &[String]) -> Result<String, String>>(
    runner: F,
    pid: u32,
    iface: Seq<char>,
    rate: u64,
) -> bool {
    &&& exists|out: String| ran(runner, pid, htb_qdisc_args_spec(iface), Ok::<String, String>(out))
    &&& exists|out: String|
        ran(runner, pid, htb_class_args_spec(iface, rate), Ok::<String, String>(out))
}

/// The download limit was installed on the host-side veth of the container
/// whose namespace is `pid`: the container's `eth0` names its peer index,
/// the host's veth list maps that index to a name, and the limit went on
/// that veth in the host namespace.
pub open spec fn download_installed<F: Fn(u32, &[String]) -> Result<String, String>>(
    runner: F,
    pid: u32,
    rate: u64,
) -> bool {
    exists|veth: Seq<char>|
        #[trigger] veth_located(runner, pid, veth) && htb_installed(runner, 1, veth, rate)
}

fn arg_vector(items: &[&str]) -> (r: Vec<String>)
    ensures
        r@.len() == items@.len(),
        forall|i: int| 0 <= i < items@.len() ==> (#[trigger] r@[i])@ == items@[i]@,
{
    let mut r: Vec<String> = Vec::new();
    let mut i: usize = 0;
    while i < items.len()
        invariant
            i <= items@.len(),
            r@.len() == i,
            forall|j: int| 0 <= j < i ==> (#[trigger] r@[j])@ == items@[j]@,
        decreases items@.len() - i,
    {
        r.push(owned(items[i]));
        i = i + 1;
    }
    r
}

fn short_id_string(id: &str) -> (r: String)
    ensures
        r@ == short_id(id@),
{
    let v = chars_of(id);
    let n = if v.len() <= 12 {
        v.len()
    } else {
        12
    };
    let s = crate::text::slice_chars(&v, 0, n);
    proof {
        if v.len() <= 12 {
            assert(v@.subrange(0, n as int) =~= v@);
        }
    }
    crate::text::string_of(&s)
}

fn not_running_error(container_id: &str) -> (r: String)
    ensures
        r@ == "container "@ + short_id(container_id@) + " is not running (pid 0)"@,
{
    let mut e = String::new();
    push_str(&mut e, "container ");
    let short = short_id_string(container_id);
    push_str(&mut e, short.as_str());
    push_str(&mut e, " is not running (pid 0)");
    assert(e@ =~= "container "@ + short_id(container_id@) + " is not running (pid 0)"@);
    e
}

fn first_veth_index(veths: &Vec<(String, u32)>, k: u32) -> (r: Option<String>)
    ensures
        ({
            let spec_veths = Seq::new(veths@.len(), |i: int| (veths@[i].0@, veths@[i].1 as nat));
            match r {
                Some(name) => first_veth_named(spec_veths, k as nat) == Some(name@),
                None => first_veth_named(spec_veths, k as nat) is None,
            }
        }),
{
    let ghost spec_veths = Seq::new(veths@.len(), |i: int| (veths@[i].0@, veths@[i].1 as nat));
    assert(spec_veths.subrange(0, spec_veths.len() as int) =~= spec_veths);
    let mut i: usize = 0;
    while i < veths.len()
        invariant
            i <= veths@.len(),
            spec_veths == Seq::new(veths@.len(), |i: int| (veths@[i].0@, veths@[i].1 as nat)),
            first_veth_named(spec_veths, k as nat) == first_veth_named(
                spec_veths.subrange(i as int, spec_veths.len() as int),
                k as nat,
            ),
        decreases veths@.len() - i,
    {
        let ghost rest = spec_veths.subrange(i as int, spec_veths.len() as int);
        assert(rest.drop_first() =~= spec_veths.subrange(i + 1, spec_veths.len() as int));
        if veths[i].1 == k {
            return Some(veths[i].0.clone());
        }
        i = i + 1;
    }
    None
}

/// The host-side veth of the container whose namespace is `pid` was found
/// to be `veth`.
pub open spec fn veth_located<F: Fn(u32, &[String]) -> Result<String, String>>(
    runner: F,
    pid: u32,
    veth: Seq<char>,
) -> bool {
    exists|eth0: String, links: String, k: nat|
        #![trigger ran(runner, pid, eth0_link_args(), Ok::<String, String>(eth0)), ran(runner, 1, host_veth_args(), Ok::<String, String>(links)), first_veth_named(veths_spec(crate::text::lines(links@)), k)]
        ran(runner, pid, eth0_link_args(), Ok::<String, String>(eth0)) && peer_ifindex_spec(eth0@)
            == Some(k) && ran(runner, 1, host_veth_args(), Ok::<String, String>(links))
            && first_veth_named(veths_spec(crate::text::lines(links@)), k) == Some(veth)
}

/// Why locating the host-side veth failed with `e`: the container's `eth0`
/// listing failed with `e`; or its output names no peer index; or the host's
/// veth listing failed with `e`; or no host veth has the peer index.
pub open spec fn veth_not_located<F: Fn(u32, &[String]) -> Result<String, String>>(
    runner: F,
    container_id: Seq<char>,
    pid: u32,
    e: String,
) -> bool {
    ||| ran(runner, pid, eth0_link_args(), Err::<String, String>(e))
    ||| exists|eth0: String|
        #![trigger ran(runner, pid, eth0_link_args(), Ok::<String, String>(eth0))]
        ran(runner, pid, eth0_link_args(), Ok::<String, String>(eth0)) && peer_ifindex_spec(eth0@)
            is None && e@ == "could not parse eth0 peer ifindex from '"@ + crate::text::trim(eth0@)
            + "'"@
    ||| exists|eth0: String|
        #![trigger ran(runner, pid, eth0_link_args(), Ok::<String, String>(eth0))]
        ran(runner, pid, eth0_link_args(), Ok::<String, String>(eth0)) && peer_ifindex_spec(eth0@)
            is Some && ran(runner, 1, host_veth_args(), Err::<String, String>(e))
    ||| exists|eth0: String, links: String|
        #![trigger ran(runner, pid, eth0_link_args(), Ok::<String, String>(eth0)), ran(runner, 1, host_veth_args(), Ok::<String, String>(links))]
        ran(runner, pid, eth0_link_args(), Ok::<String, String>(eth0)) && ran(
            runner,
            1,
            host_veth_args(),
            Ok::<String, String>(links),
        ) && peer_ifindex_spec(eth0@) is Some && first_veth_named(
            veths_spec(crate::text::lines(links@)),
            peer_ifindex_spec(eth0@)->0,
        ) is None && e@ == "no host-side veth matches eth0 peer ifindex "@ + decimal(
            peer_ifindex_spec(eth0@)->0,
        ) + " for container "@ + short_id(container_id)

}

/// Why installing an HTB limit on `iface` failed with `e`: adding the qdisc
/// failed with `e`, or it succeeded and adding the class failed with `e`.
pub open spec fn htb_failed<F: Fn(u32, &[String]) -> Result<String, String>>(
    runner: F,
    pid: u32,
    iface: Seq<char>,
    rate: u64,
    e: String,
) -> bool {
    ||| ran(runner, pid, htb_qdisc_args_spec(iface), Err::<String, String>(e))
    ||| (exists|out: String| ran(runner, pid, htb_qdisc_args_spec(iface), Ok::<String, String>(out)))
        && ran(runner, pid, htb_class_args_spec(iface, rate), Err::<String, String>(e))
}

/// Find the host-side veth whose index the container's `eth0` names as its
/// peer.
#[verifier::rlimit(60)]
fn locate_host_veth<F: Fn(u32, &[String]) -> Result<String, String>>(
    runner: &F,
    container_id: &str,
    pid: u32,
) -> (r: Result<String, String>)
    requires
        forall|p: u32, a: &[String]| call_requires(*runner, (p, a)),
    ensures
        match r {
            Ok(v) => veth_located(*runner, pid, v@),
            Err(e) => veth_not_located(*runner, container_id@, pid, e),
        },
{
    let eth0_args = arg_vector(&["/usr/sbin/ip", "-o", "link", "show", "eth0"]);
    assert(arg_views(eth0_args@) =~= eth0_link_args());
    let eth0_output = match runner(pid, eth0_args.as_slice()) {
        Ok(o) => o,
        Err(e) => {
            assert(ran(*runner, pid, eth0_link_args(), Err::<String, String>(e)));
            return Err(e);
        },
    };
    assert(ran(*runner, pid, eth0_link_args(), Ok::<String, String>(eth0_output)));
    let host_ifindex = match parse_peer_ifindex(eth0_output.as_str()) {
        Some(k) => k,
        None => {
            let v = chars_of(eth0_output.as_str());
            let t = crate::text::trim_chars(&v);
            let mut m = String::new();
            push_str(&mut m, "could not parse eth0 peer ifindex from '");
            crate::text::push_chars(&mut m, &t);
            push_str(&mut m, "'");
            assert(m@ =~= "could not parse eth0 peer ifindex from '"@ + crate::text::trim(eth0_output@)
                + "'"@);
            return Err(m);
        },
    };
    let veth_args = arg_vector(&["/usr/sbin/ip", "-o", "link", "show", "type", "veth"]);
    assert(arg_views(veth_args@) =~= host_veth_args());
    let host_links = match runner(1, veth_args.as_slice()) {
        Ok(o) => o,
        Err(e) => {
            assert(ran(*runner, 1, host_veth_args(), Err::<String, String>(e)));
            return Err(e);
        },
    };
    assert(ran(*runner, 1, host_veth_args(), Ok::<String, String>(host_links)));
    let veths = parse_host_veths(host_links.as_str());
    let ghost spec_veths = veths_spec(crate::text::lines(host_links@));
    assert(Seq::new(veths@.len(), |i: int| (veths@[i].0@, veths@[i].1 as nat)) =~= spec_veths);
    match first_veth_index(&veths, host_ifindex) {
        Some(name) => Ok(name),
        None => {
            let mut m = String::new();
            push_str(&mut m, "no host-side veth matches eth0 peer ifindex ");
            push_decimal(&mut m, host_ifindex as u64);
            push_str(&mut m, " for container ");
            let short = short_id_string(container_id);
            push_str(&mut m, short.as_str());
            assert(m@ =~= "no host-side veth matches eth0 peer ifindex "@ + decimal(host_ifindex as nat)
                + " for container "@ + short_id(container_id@));
            Err(m)
        },
    }
}

/// Shape the container's download: install the HTB limit on its host-side
/// veth in the host namespace.
fn install_download_limit<F: Fn(u32, &[String]) -> Result<String, String>>(
    runner: &F,
    container_id: &str,
    pid: u32,
    rate: u64,
) -> (r: Result<(), String>)
    requires
        forall|p: u32, a: &[String]| call_requires(*runner, (p, a)),
    ensures
        match r {
            Ok(()) => download_installed(*runner, pid, rate),
            Err(e) => veth_not_located(*runner, container_id@, pid, e) || exists|veth: Seq<char>|
                #[trigger] veth_located(*runner, pid, veth) && htb_failed(*runner, 1, veth, rate, e),
        },
{
    let host_veth = match locate_host_veth(runner, container_id, pid) {
        Ok(v) => v,
        Err(e) => return Err(e),
    };
    match apply_htb(runner, 1, host_veth.as_str(), rate) {
        Err(e) => {
            assert(htb_failed(*runner, 1, host_veth@, rate, e));
            return Err(e);
        },
        Ok(()) => {},
    }
    assert(htb_installed(*runner, 1, host_veth@, rate));
    Ok(())
}

/// Apply per-instance bandwidth limits in Mbps (`0` or less is unlimited):
/// upload is shaped as egress on the container's `eth0`, download as egress
/// on the host-side veth. A fully unlimited request does nothing. Otherwise
/// `inspect_pid` gives the container's process id (`0` when it is not
/// running), and `runner` runs commands in a network namespace.
pub fn apply_bandwidth_limit<F, G>(
    runner: &F,
    inspect_pid: &G,
    container_id: &str,
    up_mbps: i32,
    down_mbps: i32,
) -> (r: Result<(), String>) where
    F: Fn(u32, &[String]) -> Result<String, String>,
    G: Fn() -> Result<u32, String>,

    requires
        forall|p: u32, a: &[String]| call_requires(*runner, (p, a)),
        call_requires(*inspect_pid, ()),
    ensures
        up_mbps <= 0 && down_mbps <= 0 ==> r is Ok,
        r is Ok && (up_mbps > 0 || down_mbps > 0) ==> exists|pid: u32|
            #![trigger call_ensures(*inspect_pid, (), Ok::<u32, String>(pid))]
            call_ensures(*inspect_pid, (), Ok::<u32, String>(pid)) && pid != 0 && (up_mbps > 0
                ==> htb_installed(*runner, pid, "eth0"@, up_mbps as u64)) && (down_mbps > 0
                ==> download_installed(*runner, pid, down_mbps as u64)),
        (up_mbps > 0 || down_mbps > 0) && call_ensures(*inspect_pid, (), Ok::<u32, String>(0))
            && (forall|res: Result<u32, String>| call_ensures(*inspect_pid, (), res) ==> res
            == Ok::<u32, String>(0)) ==> r is Err && r->Err_0@ == "container "@ + short_id(
            container_id@,
        ) + " is not running (pid 0)"@,
        forall|e: String|
            (up_mbps > 0 || down_mbps > 0) && (forall|res: Result<u32, String>|
                #[trigger] call_ensures(*inspect_pid, (), res) ==> res == Err::<u32, String>(e)) ==> r is Err
                && r->Err_0@ == "inspect failed: "@ + e@,
{
    if up_mbps <= 0 && down_mbps <= 0 {
        return Ok(());
    }
    let pid = match inspect_pid() {
        Ok(p) => p,
        Err(e) => {
            let mut m = String::new();
            push_str(&mut m, "inspect failed: ");
            push_str(&mut m, e.as_str());
            assert(m@ =~= "inspect failed: "@ + e@);
            return Err(m);
        },
    };
    if pid == 0 {
        return Err(not_running_error(container_id));
    }
    if up_mbps > 0 {
        match apply_htb(runner, pid, "eth0", up_mbps as u64) {
            Err(e) => return Err(e),
            Ok(()) => {},
        }
    }
    if down_mbps > 0 {
        match install_download_limit(runner, container_id, pid, down_mbps as u64) {
            Err(e) => return Err(e),
            Ok(()) => {},
        }
    }
    assert(call_ensures(*inspect_pid, (), Ok::<u32, String>(pid)));
    Ok(())
}

/// The exit code of a helper container: the status of the first wait
/// response, `-1` when Docker reported none.
pub open spec fn helper_exit_code(statuses: Seq<i64>) -> i64 {
    if statuses.len() > 0 {
        statuses[0]
    } else {
        -1i64
    }
}

/// How a helper container's run ends, given what waiting on it returned (the
/// status codes Docker reported, or the wait's error): `Ok` on exit code
/// `0`; otherwise the error naming the helper and its exit code, or the
/// wait's error.
pub fn helper_outcome(name: &str, wait_result: Result<Vec<i64>, String>) -> (r: Result<(), String>)
    ensures
        match wait_result {
            Ok(statuses) => if helper_exit_code(statuses@) == 0 {
                r is Ok
            } else {
                r matches Err(e) && e@ == "Helper container '"@ + name@ + "' failed with exit code "@
                    + crate::health::signed_decimal(helper_exit_code(statuses@) as int)
            },
            Err(w) => r matches Err(e) && e@ == "Failed waiting for helper container '"@ + name@ + "': "@
                + w@,
        },
{
    match wait_result {
        Ok(statuses) => {
            let code: i64 = if statuses.len() > 0 {
                statuses[0]
            } else {
                -1
            };
            if code != 0 {
                let mut m = String::new();
                push_str(&mut m, "Helper container '");
                push_str(&mut m, name);
                push_str(&mut m, "' failed with exit code ");
                if code < 0 {
                    crate::text::push_char(&mut m, '-');
                    push_decimal(&mut m, (0 - (code as i128)) as u64);
                } else {
                    push_decimal(&mut m, code as u64);
                }
                assert(m@ =~= "Helper container '"@ + name@ + "' failed with exit code "@
                    + crate::health::signed_decimal(code as int));
                Err(m)
            } else {
                Ok(())
            }
        },
        Err(w) => {
            let mut m = String::new();
            push_str(&mut m, "Failed waiting for helper container '");
            push_str(&mut m, name);
            push_str(&mut m, "': ");
            push_str(&mut m, w.as_str());
            assert(m@ =~= "Failed waiting for helper container '"@ + name@ + "': "@ + w@);
            Err(m)
        },
    }
}

/// What follows the post-create steps of a new container (the file
/// injection and the start).
#[derive(Debug, Clone, PartialEq, Eq)]
pub enum AfterCreate {
    /// They succeeded: shape its bandwidth when a limit is set (fail-open),
    /// then the launch goes on.
    Proceed { shape_bandwidth: bool },
    /// One failed: remove the container (a failed removal is only logged) so
    /// a retry can re-create it under the same name with a fresh port, and
    /// fail the launch with this error.
    RemoveAndFail(String),
}

/// The step after a new container's post-create steps, given their outcome
/// and the template's upload and download limits.
pub fn after_create(post_create: Result<(), String>, up_mbps: i32, down_mbps: i32) -> (r: AfterCreate)
    ensures
        match post_create {
            Ok(()) => r == (AfterCreate::Proceed { shape_bandwidth: up_mbps > 0 || down_mbps > 0 }),
            Err(e) => r == AfterCreate::RemoveAndFail(e),
        },
{
    match post_create {
        Ok(()) => AfterCreate::Proceed { shape_bandwidth: up_mbps > 0 || down_mbps > 0 },
        Err(e) => AfterCreate::RemoveAndFail(e),
    }
}

/// The name of a persistent-volume helper container for `purpose`, run by
/// the process `pid`, made unique by the UUID `id`:
/// `ow-vol-<purpose>-<pid>-<id in simple form>`.
pub open spec fn helper_name_spec(purpose: Seq<char>, pid: nat, id: u128) -> Seq<char> {
    "ow-vol-"@ + purpose + "-"@ + decimal(pid) + "-"@ + crate::auth::uuid_simple_text(id)
}

/// The helper container's name.
pub fn helper_container_name(purpose: &str, pid: u32, id: u128) -> (r: String)
    ensures
        r@ == helper_name_spec(purpose@, pid as nat, id),
{
    let mut r = String::new();
    push_str(&mut r, "ow-vol-");
    push_str(&mut r, purpose);
    push_str(&mut r, "-");
    push_decimal(&mut r, pid as u64);
    push_str(&mut r, "-");
    let simple = crate::auth::uuid_simple_string(id);
    push_str(&mut r, simple.as_str());
    r
}

/// The helper container's only bind: the volume's host path at `/storage`.
pub fn helper_bind(host_path: &str) -> (r: String)
    ensures
        r@ == host_path@ + ":/storage"@,
{
    let mut r = String::new();
    push_str(&mut r, host_path);
    push_str(&mut r, ":/storage");
    r
}

/// A step of running a helper container that can fail before it runs.
#[derive(Debug, Clone, Copy, PartialEq, Eq, Structural)]
pub enum HelperStep {
    /// Pulling the `alpine` image, absent from the host.
    Pull,
    /// Creating the container.
    Create,
    /// Starting it. The created container is left in place: nothing
    /// removes it on this path.
    Start,
}

/// The error of a helper run that failed at `step` with the Docker error
/// `e`; the run ends there.
pub open spec fn helper_step_error_spec(step: HelperStep, name: Seq<char>, e: Seq<char>) -> Seq<char> {
    match step {
        HelperStep::Pull => "Failed to pull alpine helper image: "@ + e,
        HelperStep::Create => "Failed to create helper container '"@ + name + "': "@ + e,
        HelperStep::Start => "Failed to start helper container '"@ + name + "': "@ + e,
    }
}

/// The error a helper run ends with when `step` fails.
pub fn helper_step_error(step: HelperStep, name: &str, e: &str) -> (r: String)
    ensures
        r@ == helper_step_error_spec(step, name@, e@),
{
    let mut r = String::new();
    match step {
        HelperStep::Pull => {
            push_str(&mut r, "Failed to pull alpine helper image: ");
        },
        HelperStep::Create => {
            push_str(&mut r, "Failed to create helper container '");
            push_str(&mut r, name);
            push_str(&mut r, "': ");
        },
        HelperStep::Start => {
            push_str(&mut r, "Failed to start helper container '");
            push_str(&mut r, name);
            push_str(&mut r, "': ");
        },
    }
    push_str(&mut r, e);
    r
}

/// The container's limits are the template's, in the same units: a
/// positive memory (bytes) is the memory limit unchanged, a positive core
/// count is that many whole CPUs in nano-CPUs, a positive GPU count is that
/// many GPUs; a zero or negative value sets no limit.
pub proof fn law_plan_limits_are_the_template_limits(
    config: ContainerConfig,
    network_name: Seq<char>,
    password: Seq<char>,
    access_token: Seq<char>,
    p: ContainerPlan,
)
    requires
        plan_ok(config, network_name, password, access_token, p),
    ensures
        config.memory > 0 ==> p.memory == Some(config.memory),
        config.memory <= 0 ==> p.memory is None,
        config.cores > 0 ==> p.nano_cpus is Some && p.nano_cpus.unwrap() == config.cores * 1_000_000_000,
        config.cores <= 0 ==> p.nano_cpus is None,
        config.gpu_count > 0 ==> p.gpu_count is Some && p.gpu_count.unwrap() == config.gpu_count,
        config.gpu_count <= 0 ==> p.gpu_count is None,
{
}

} // verus!
