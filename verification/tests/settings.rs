use openworkspace_api::settings::Settings;

fn vars(pairs: &[(&str, &str)]) -> Vec<(String, String)> {
    pairs.iter().map(|(k, v)| (k.to_string(), v.to_string())).collect()
}

#[test]
fn test_settings_loads_from_dotenv() {
    let settings = Settings {
        database_url: "postgres://localhost/test".to_string(),
        jwt_secret: "test".to_string(),
        admin_password: "admin".to_string(),
        server_host: "0.0.0.0".to_string(),
        server_port: 3000,
        db_max_connections: 5,
        docker_network: "ow-network".to_string(),
        container_runtime: "docker".to_string(),
        host_gateway_ip: "172.17.0.1".to_string(),
        host_port_start: 10000,
        host_port_end: 20000,
    };
    assert_eq!(settings.bind_address(), "0.0.0.0:3000");
}

#[test]
fn test_bind_address_custom() {
    let settings = Settings {
        database_url: String::new(),
        jwt_secret: String::new(),
        admin_password: String::new(),
        server_host: "127.0.0.1".to_string(),
        server_port: 8080,
        db_max_connections: 10,
        docker_network: "ow-network".to_string(),
        container_runtime: "docker".to_string(),
        host_gateway_ip: "172.17.0.1".to_string(),
        host_port_start: 10000,
        host_port_end: 20000,
    };
    assert_eq!(settings.bind_address(), "127.0.0.1:8080");
}

#[test]
fn test_settings_debug() {
    let settings = Settings {
        database_url: "postgres://localhost/test".to_string(),
        jwt_secret: "secret".to_string(),
        admin_password: "pass".to_string(),
        server_host: "0.0.0.0".to_string(),
        server_port: 3000,
        db_max_connections: 5,
        docker_network: "ow-network".to_string(),
        container_runtime: "docker".to_string(),
        host_gateway_ip: "172.17.0.1".to_string(),
        host_port_start: 10000,
        host_port_end: 20000,
    };
    let debug = format!("{:?}", settings);
    assert!(debug.contains("Settings"));
    assert!(debug.contains("0.0.0.0"));
}

#[test]
fn test_settings_clone() {
    let settings = Settings {
        database_url: "postgres://localhost/test".to_string(),
        jwt_secret: "secret".to_string(),
        admin_password: "pass".to_string(),
        server_host: "0.0.0.0".to_string(),
        server_port: 3000,
        db_max_connections: 5,
        docker_network: "ow-network".to_string(),
        container_runtime: "docker".to_string(),
        host_gateway_ip: "172.17.0.1".to_string(),
        host_port_start: 10000,
        host_port_end: 20000,
    };
    let cloned = settings.clone();
    assert_eq!(settings.database_url, cloned.database_url);
    assert_eq!(settings.jwt_secret, cloned.jwt_secret);
    assert_eq!(settings.db_max_connections, cloned.db_max_connections);
}

#[test]
fn test_settings_new_missing_database_url() {
    let result = Settings::from_env(vars(&[("JWT_SECRET", "test")]));
    assert!(result.is_err());
    assert!(result.unwrap_err().contains("DATABASE_URL"));
}

#[test]
fn test_settings_new_missing_jwt_secret() {
    let result = Settings::from_env(vars(&[("DATABASE_URL", "postgres://localhost/test")]));
    assert!(result.is_err());
    assert!(result.unwrap_err().contains("JWT_SECRET"));
}

#[test]
fn test_settings_new_invalid_server_port() {
    let result = Settings::from_env(vars(&[
        ("DATABASE_URL", "postgres://localhost/test"),
        ("JWT_SECRET", "test"),
        ("SERVER_PORT", "not-a-number"),
    ]));
    assert!(result.is_err());
    assert!(result.unwrap_err().contains("SERVER_PORT invalid"));
}

#[test]
fn test_settings_new_invalid_db_max_connections() {
    let result = Settings::from_env(vars(&[
        ("DATABASE_URL", "postgres://localhost/test"),
        ("JWT_SECRET", "test"),
        ("SERVER_PORT", "3000"),
        ("DB_MAX_CONNECTIONS", "abc"),
    ]));
    assert!(result.is_err());
    assert!(result.unwrap_err().contains("DB_MAX_CONNECTIONS invalid"));
}

#[test]
fn test_settings_new_defaults() {
    let settings = Settings::from_env(vars(&[
        ("DATABASE_URL", "postgres://localhost/test"),
        ("JWT_SECRET", "test"),
    ]))
    .unwrap();
    assert_eq!(settings.server_host, "0.0.0.0");
    assert_eq!(settings.server_port, 3000);
    assert_eq!(settings.db_max_connections, 5);
    assert_eq!(settings.admin_password, "admin");
    assert_eq!(settings.container_runtime, "docker");
    assert_eq!(settings.host_gateway_ip, "172.17.0.1");
    assert_eq!(settings.host_port_start, 10000);
    assert_eq!(settings.host_port_end, 20000);
}

#[test]
fn test_settings_custom_env_values() {
    let settings = Settings::from_env(vars(&[
        ("DATABASE_URL", "postgres://remote:5432/prod"),
        ("JWT_SECRET", "super-secret"),
        ("ADMIN_PASSWORD", "changeme"),
        ("SERVER_HOST", "192.168.1.100"),
        ("SERVER_PORT", "8080"),
        ("DB_MAX_CONNECTIONS", "20"),
        ("DOCKER_NETWORK", "custom-network"),
        ("OW_CONTAINER_RUNTIME", "runsc"),
    ]))
    .unwrap();

    assert_eq!(settings.database_url, "postgres://remote:5432/prod");
    assert_eq!(settings.jwt_secret, "super-secret");
    assert_eq!(settings.admin_password, "changeme");
    assert_eq!(settings.server_host, "192.168.1.100");
    assert_eq!(settings.server_port, 8080);
    assert_eq!(settings.db_max_connections, 20);
    assert_eq!(settings.docker_network, "custom-network");
    assert_eq!(settings.container_runtime, "runsc");
    assert_eq!(settings.bind_address(), "192.168.1.100:8080");
}

#[test]
fn test_container_runtime_default_is_docker() {
    let settings = Settings::from_env(vars(&[
        ("DATABASE_URL", "postgres://localhost/test"),
        ("JWT_SECRET", "test"),
    ]))
    .unwrap();
    assert_eq!(settings.container_runtime, "docker");
}

#[test]
fn test_container_runtime_custom_value() {
    let settings = Settings::from_env(vars(&[
        ("DATABASE_URL", "postgres://localhost/test"),
        ("JWT_SECRET", "test"),
        ("OW_CONTAINER_RUNTIME", "runsc"),
    ]))
    .unwrap();
    assert_eq!(settings.container_runtime, "runsc");
}

#[test]
fn test_container_runtime_empty_string() {
    let settings = Settings::from_env(vars(&[
        ("DATABASE_URL", "postgres://localhost/test"),
        ("JWT_SECRET", "test"),
        ("OW_CONTAINER_RUNTIME", ""),
    ]))
    .unwrap();
    assert_eq!(settings.container_runtime, "");
}

#[test]
fn test_host_gateway_ip_default() {
    let settings = Settings::from_env(vars(&[
        ("DATABASE_URL", "postgres://localhost/test"),
        ("JWT_SECRET", "test"),
    ]))
    .unwrap();
    assert_eq!(settings.host_gateway_ip, "172.17.0.1");
}

#[test]
fn test_host_gateway_ip_custom() {
    let settings = Settings::from_env(vars(&[
        ("DATABASE_URL", "postgres://localhost/test"),
        ("JWT_SECRET", "test"),
        ("OW_HOST_GATEWAY_IP", "10.0.0.1"),
    ]))
    .unwrap();
    assert_eq!(settings.host_gateway_ip, "10.0.0.1");
}

#[test]
fn test_host_port_range_custom() {
    let settings = Settings::from_env(vars(&[
        ("DATABASE_URL", "postgres://localhost/test"),
        ("JWT_SECRET", "test"),
        ("OW_HOST_PORT_START", "20000"),
        ("OW_HOST_PORT_END", "30000"),
    ]))
    .unwrap();
    assert_eq!(settings.host_port_start, 20000);
    assert_eq!(settings.host_port_end, 30000);
}

#[test]
fn test_host_port_start_invalid() {
    let result = Settings::from_env(vars(&[
        ("DATABASE_URL", "postgres://localhost/test"),
        ("JWT_SECRET", "test"),
        ("OW_HOST_PORT_START", "not-a-number"),
    ]));
    assert!(result.is_err());
    assert!(result.unwrap_err().contains("OW_HOST_PORT_START invalid"));
}

#[test]
fn test_host_port_end_invalid() {
    let result = Settings::from_env(vars(&[
        ("DATABASE_URL", "postgres://localhost/test"),
        ("JWT_SECRET", "test"),
        ("OW_HOST_PORT_END", "not-a-number"),
    ]));
    assert!(result.is_err());
    assert!(result.unwrap_err().contains("OW_HOST_PORT_END invalid"));
}

#[test]
fn test_host_port_range_custom_env_values() {
    let settings = Settings::from_env(vars(&[
        ("DATABASE_URL", "postgres://remote:5432/prod"),
        ("JWT_SECRET", "super-secret"),
        ("OW_HOST_GATEWAY_IP", "192.168.50.1"),
        ("OW_HOST_PORT_START", "40000"),
        ("OW_HOST_PORT_END", "50000"),
    ]))
    .unwrap();
    assert_eq!(settings.host_gateway_ip, "192.168.50.1");
    assert_eq!(settings.host_port_start, 40000);
    assert_eq!(settings.host_port_end, 50000);
}
