use rax_ftp_server::config::{ConfigError, ConfigSource, RuntimeConfig, ServerConfig, StartupConfig};
use rax_ftp_server::server::config::ServerConfig as RootConfig;
use std::time::Duration;

fn sample() -> ServerConfig {
    ServerConfig {
        startup: StartupConfig {
            bind_address: "127.0.0.1".to_string(),
            control_port: 2121,
            data_port_min: 2122,
            data_port_max: 2222,
            server_root: "./server_root".to_string(),
            buffer_size: 8192,
            connection_timeout_secs: 10,
            max_retries: 3,
            max_command_length: 512,
            max_directory_depth: 3,
            max_username_length: 64,
            min_client_port: 1024,
        },
        runtime: RuntimeConfig { max_clients: 10, max_file_size_mb: 100 },
    }
}

fn problem(c: &ServerConfig) -> Option<String> {
    match c.validate() {
        Ok(()) => None,
        Err(ConfigError::Message(m)) => Some(m),
    }
}

#[test]
fn readme_config_is_valid() {
    let c = sample();
    assert_eq!(problem(&c), None);
    assert_eq!(c.startup.control_socket(), "127.0.0.1:2121");
    assert_eq!(c.startup.data_port_range(), 2122..2222);
    assert_eq!(c.startup.server_root_str(), "./server_root");
    assert_eq!(c.startup.server_root_path(), "./server_root");
    assert_eq!(c.startup.connection_timeout(), Duration::from_secs(10));
    assert_eq!(c.runtime.max_file_size_bytes(), 100 * 1024 * 1024);
    let (s, r) = c.split();
    assert_eq!(s.control_port, 2121);
    assert_eq!(r.max_clients, 10);
}

#[test]
fn validation_errors() {
    let mut c = sample();
    c.startup.control_port = 0;
    assert_eq!(problem(&c).unwrap(), "Control port cannot be 0");
    let mut c = sample();
    c.startup.data_port_min = 3000;
    assert_eq!(problem(&c).unwrap(), "data_port_min must be less than data_port_max");
    let mut c = sample();
    c.startup.data_port_max = 2131;
    assert_eq!(problem(&c).unwrap(), "Data port range too small (need at least 10 ports)");
    let mut c = sample();
    c.startup.data_port_max = 2132;
    assert_eq!(problem(&c), None);
    let mut c = sample();
    c.startup.server_root = String::new();
    assert_eq!(problem(&c).unwrap(), "server_root cannot be empty");
    let mut c = sample();
    c.runtime.max_clients = 0;
    assert_eq!(problem(&c).unwrap(), "max_clients must be greater than 0");
    let mut c = sample();
    c.runtime.max_file_size_mb = 0;
    assert_eq!(problem(&c).unwrap(), "max_file_size_mb must be greater than 0");
}

#[test]
fn loading_takes_the_first_readable_place() {
    let c = ServerConfig::load(vec![
        ConfigSource::Unavailable("no such file".into()),
        ConfigSource::Built(Ok(sample())),
    ])
    .unwrap();
    assert_eq!(c.startup.control_port, 2121);
    let mut bad = sample();
    bad.runtime.max_clients = 0;
    let e = ServerConfig::load(vec![ConfigSource::Built(Ok(bad)), ConfigSource::Built(Ok(sample()))]);
    assert!(matches!(e, Err(ConfigError::Message(ref m)) if m == "max_clients must be greater than 0"));
    let e = ServerConfig::load(vec![ConfigSource::Built(Err(ConfigError::Message("missing field".into())))]);
    assert!(matches!(e, Err(ConfigError::Message(ref m)) if m == "missing field"));
}

#[test]
fn default_root() {
    let r = RootConfig::default();
    assert_eq!(r.server_root_str(), "./server_root");
}
