use std::sync::Mutex;

use openworkspace_api::docker::{
    after_create, apply_bandwidth_limit, dini_security_profile, helper_bind, helper_container_name, helper_outcome, helper_step_error, AfterCreate, HelperStep, port_bindings_for, runtime_to_host_config, ss_binary_path,
    ss_output_has_connection, PortBinding, RemoteType,
};

/// The bindings published for a container port key.
fn binding<'a>(bindings: &'a [(String, Vec<PortBinding>)], key: &str) -> Option<&'a Vec<PortBinding>> {
    bindings.iter().find(|(k, _)| k == key).map(|(_, v)| v)
}

#[test]
fn test_runtime_to_host_config_docker_returns_none() {
    assert_eq!(runtime_to_host_config("docker"), None);
}

#[test]
fn test_runtime_to_host_config_empty_returns_none() {
    assert_eq!(runtime_to_host_config(""), None);
}

#[test]
fn test_runtime_to_host_config_runsc_returns_some() {
    assert_eq!(runtime_to_host_config("runsc"), Some("runsc".to_string()));
}

#[test]
fn test_port_bindings_for_kasmvnc() {
    let bindings = port_bindings_for(&RemoteType::KasmVnc, "172.17.0.1", 10000);
    let entry = binding(&bindings, "6901/tcp").expect("expected 6901/tcp binding");
    assert_eq!(entry.len(), 1);
    assert_eq!(entry[0].host_ip.as_deref(), Some("172.17.0.1"));
    assert_eq!(entry[0].host_port.as_deref(), Some("10000"));
}

#[test]
fn test_port_bindings_for_ttyd() {
    let bindings = port_bindings_for(&RemoteType::Ttyd, "172.17.0.1", 10001);
    assert!(binding(&bindings, "7681/tcp").is_some());
    assert!(!binding(&bindings, "6901/tcp").is_some());
}

#[test]
fn test_port_bindings_for_jupyter() {
    let bindings = port_bindings_for(&RemoteType::Jupyter, "10.0.0.1", 20000);
    let entry = binding(&bindings, "8888/tcp").expect("expected 8888/tcp binding");
    assert_eq!(entry[0].host_ip.as_deref(), Some("10.0.0.1"));
    assert_eq!(entry[0].host_port.as_deref(), Some("20000"));
}

#[test]
fn test_runtime_to_host_config_other_returns_some() {
    assert_eq!(runtime_to_host_config("kata"), Some("kata".to_string()));
}

#[test]
fn test_runtime_to_host_config_nvidia_returns_some() {
    assert_eq!(runtime_to_host_config("nvidia"), Some("nvidia".to_string()));
}

#[test]
fn test_dini_security_profile_off_keeps_hardened_defaults() {
    let profile = dini_security_profile(false, "runsc");
    assert!(!profile.privileged);
    assert_eq!(
        profile.cap_drop,
        Some(vec!["NET_RAW".to_string(), "NET_ADMIN".to_string()])
    );
    assert!(profile.tmpfs.is_none());
    assert!(profile.dind_env.is_none());
}

#[test]
fn test_dini_security_profile_on_runsc_is_sandboxed_privileged() {
    let profile = dini_security_profile(true, "runsc");
    assert!(profile.privileged);
    assert!(profile.cap_drop.is_none());
    assert_eq!(
        profile.tmpfs,
        Some(vec![(
            "/var/lib/docker".to_string(),
            "exec,mode=755".to_string()
        )])
    );
    assert_eq!(profile.dind_env.as_deref(), Some("OW_DOCKER_IN_INSTANCE=true"));
}

#[test]
fn test_dini_security_profile_on_runc_is_full_host_privileged() {
    let profile = dini_security_profile(true, "runc");
    assert!(profile.privileged);
    assert!(profile.cap_drop.is_none());
    assert_eq!(
        profile.tmpfs,
        Some(vec![(
            "/var/lib/docker".to_string(),
            "exec,mode=755".to_string()
        )])
    );
    assert_eq!(profile.dind_env.as_deref(), Some("OW_DOCKER_IN_INSTANCE=true"));
}

#[test]
fn test_ss_output_detects_local_session_port() {
    let output = "ESTAB 0 0 172.20.0.2:6901 172.20.0.1:54321\n";
    assert!(ss_output_has_connection(output, 6901));
}

#[test]
fn test_ss_output_ignores_peer_port() {
    // A peer ending in the session port must not count as a connection.
    let output = "ESTAB 0 0 172.20.0.2:50000 172.20.0.1:6901\n";
    assert!(!ss_output_has_connection(output, 6901));
}

#[test]
fn test_ss_output_ignores_other_local_ports() {
    let output = "ESTAB 0 0 172.20.0.2:50000 172.20.0.1:54321\n";
    assert!(!ss_output_has_connection(output, 6901));
}

#[test]
fn test_ss_output_ignores_header_and_empty() {
    let header = "State  Recv-Q  Send-Q  Local Address:Port  Peer Address:Port  Process\n";
    assert!(!ss_output_has_connection(header, 6901));
    assert!(!ss_output_has_connection("", 6901));
}

#[test]
fn ss_binary_path_takes_the_first_present_location() {
    assert_eq!(ss_binary_path(&|p: &str| p == "/bin/ss"), "/bin/ss");
    assert_eq!(ss_binary_path(&|p: &str| p == "/usr/sbin/ss" || p == "/usr/bin/ss"), "/usr/sbin/ss");
    assert_eq!(ss_binary_path(&|p: &str| p == "/usr/bin/ss"), "/usr/bin/ss");
    assert_eq!(ss_binary_path(&|_p: &str| false), "/bin/ss");
}

const ETH0_LINK: &str = "2: eth0@if7: <BROADCAST,MULTICAST,UP,LOWER_UP> mtu 1500 qdisc noqueue state UP group default qlen 1000    link/ether 02:42:ac:12:00:02 brd ff:ff:ff:ff:ff:ff";
const HOST_VETHS: &str = "6: veth9f3d@if2: <BROADCAST,MULTICAST,UP,LOWER_UP> mtu 1500 qdisc noqueue master ow-network state UP\n7: vetha1b2@if2: <BROADCAST,MULTICAST,UP,LOWER_UP> mtu 1500 qdisc noqueue master ow-network state UP";

/// A runner that answers the link listings and records every command.
fn recording_runner<'a>(calls: &'a Mutex<Vec<(u32, Vec<String>)>>) -> impl Fn(u32, &[String]) -> Result<String, String> + 'a {
    move |pid: u32, args: &[String]| {
        calls.lock().unwrap().push((pid, args.to_vec()));
        if args.iter().any(|a| a == "link") && args.iter().any(|a| a == "eth0") {
            Ok(ETH0_LINK.to_string())
        } else if args.iter().any(|a| a == "veth") {
            Ok(HOST_VETHS.to_string())
        } else {
            Ok(String::new())
        }
    }
}

#[test]
fn bandwidth_limit_zero_is_unlimited_and_runs_nothing() {
    let calls = Mutex::new(Vec::new());
    let r = apply_bandwidth_limit(&recording_runner(&calls), &|| Ok(1234u32), "abcdef0123456789", 0, 0);
    assert_eq!(r, Ok(()));
    assert!(calls.lock().unwrap().is_empty());
}

#[test]
fn bandwidth_limit_shapes_eth0_and_the_host_veth() {
    let calls = Mutex::new(Vec::new());
    let r = apply_bandwidth_limit(&recording_runner(&calls), &|| Ok(1234u32), "abcdef0123456789", 10, 20);
    assert_eq!(r, Ok(()));
    let calls = calls.lock().unwrap();
    let classes: Vec<(u32, String, String)> = calls
        .iter()
        .filter(|(_, a)| a.len() > 2 && a[1] == "class")
        .map(|(pid, a)| (*pid, a[4].clone(), a[a.len() - 1].clone()))
        .collect();
    assert_eq!(
        classes,
        vec![
            (1234, "eth0".to_string(), "10mbit".to_string()),
            (1, "vetha1b2".to_string(), "20mbit".to_string()),
        ]
    );
}

#[test]
fn bandwidth_limit_refuses_a_stopped_container() {
    let calls = Mutex::new(Vec::new());
    let r = apply_bandwidth_limit(&recording_runner(&calls), &|| Ok(0u32), "abcdef0123456789", 10, 0);
    assert_eq!(r, Err("container abcdef012345 is not running (pid 0)".to_string()));
}

#[test]
fn bandwidth_limit_reports_inspect_failure() {
    let calls = Mutex::new(Vec::new());
    let r = apply_bandwidth_limit(&recording_runner(&calls), &|| Err("no such container".to_string()), "c1", 0, 5);
    assert_eq!(r, Err("inspect failed: no such container".to_string()));
}

#[test]
fn bandwidth_limit_reports_missing_host_veth() {
    let runner = |_pid: u32, args: &[String]| -> Result<String, String> {
        if args.iter().any(|a| a == "eth0") && args.iter().any(|a| a == "link") {
            Ok("2: eth0@if99: <UP>".to_string())
        } else if args.iter().any(|a| a == "veth") {
            Ok(HOST_VETHS.to_string())
        } else {
            Ok(String::new())
        }
    };
    let r = apply_bandwidth_limit(&runner, &|| Ok(55u32), "abcdef0123456789", 0, 5);
    assert_eq!(
        r,
        Err("no host-side veth matches eth0 peer ifindex 99 for container abcdef012345".to_string())
    );
}

#[test]
fn remote_type_from_str_matches_parse() {
    assert_eq!("ttyd".parse::<RemoteType>(), Ok(RemoteType::Ttyd));
    assert_eq!("kasmvnc".parse::<RemoteType>(), Ok(RemoteType::KasmVnc));
    assert_eq!("rdp".parse::<RemoteType>(), Err("unknown remote_type: rdp".to_string()));
}

#[test]
fn helper_exit_code_rule() {
    assert_eq!(helper_outcome("h", Ok(vec![0, 3])), Ok(()));
    assert_eq!(helper_outcome("h", Ok(vec![2])), Err("Helper container 'h' failed with exit code 2".to_string()));
    assert_eq!(helper_outcome("h", Ok(vec![])), Err("Helper container 'h' failed with exit code -1".to_string()));
    assert_eq!(
        helper_outcome("h", Err("timeout".to_string())),
        Err("Failed waiting for helper container 'h': timeout".to_string())
    );
}

#[test]
fn failed_post_create_removes_the_container() {
    assert_eq!(after_create(Err("port is already allocated".to_string()), 5, 0), AfterCreate::RemoveAndFail("port is already allocated".to_string()));
    assert_eq!(after_create(Ok(()), 0, 0), AfterCreate::Proceed { shape_bandwidth: false });
    assert_eq!(after_create(Ok(()), 0, 10), AfterCreate::Proceed { shape_bandwidth: true });
}

#[test]
fn helper_container_is_named_by_purpose_pid_and_simple_uuid() {
    let id: u128 = 0x0123_4567_89ab_cdef_0123_4567_89ab_cdef;
    assert_eq!(
        helper_container_name("chown", 4242, id),
        "ow-vol-chown-4242-0123456789abcdef0123456789abcdef"
    );
    assert_eq!(helper_container_name("rm", 0, 0), "ow-vol-rm-0-00000000000000000000000000000000");
}

#[test]
fn helper_binds_the_volume_at_storage() {
    assert_eq!(helper_bind("/srv/ow/volumes/u1"), "/srv/ow/volumes/u1:/storage");
}

#[test]
fn helper_step_errors_name_the_step_and_container() {
    assert_eq!(helper_step_error(HelperStep::Pull, "h", "no network"), "Failed to pull alpine helper image: no network");
    assert_eq!(
        helper_step_error(HelperStep::Create, "ow-vol-x", "conflict"),
        "Failed to create helper container 'ow-vol-x': conflict"
    );
    assert_eq!(
        helper_step_error(HelperStep::Start, "ow-vol-x", "bad mount"),
        "Failed to start helper container 'ow-vol-x': bad mount"
    );
}
