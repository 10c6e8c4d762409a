use ffit::config::{to_http_uri, CtlConfig, DaemonConfig};
use ffit::paths::{
    default_log_file, default_pid_file, default_socket_path, DEFAULT_TCP_ADDR, DEFAULT_WORKDIR,
};

#[test]
fn ctl_test_default_config() {
    let config = CtlConfig::default();
    assert_eq!(config.tcp_addr, DEFAULT_TCP_ADDR);
    assert_eq!(config.socket, default_socket_path());
    assert_eq!(config.pid_file, default_pid_file());
    assert!(!config.tcp);
}

#[test]
fn ctl_test_load_config() {
    let config = CtlConfig::load().expect("Failed to load config");
    assert_eq!(config.tcp_addr, DEFAULT_TCP_ADDR);
}

#[test]
fn mod_test_default_config() {
    let config = CtlConfig::default();
    assert_eq!(config.tcp_addr, DEFAULT_TCP_ADDR);
    assert_eq!(config.socket, default_socket_path());
    assert_eq!(config.pid_file, default_pid_file());
    assert!(!config.tcp);
}

#[test]
fn mod_test_load_config() {
    // Should load without errors even if no config files exist
    let config = CtlConfig::load().expect("Failed to load config");
    assert_eq!(config.tcp_addr, DEFAULT_TCP_ADDR);
}

#[test]
fn test_to_http_uri() {
    assert_eq!(to_http_uri("[::1]:50051"), "http://[::1]:50051");
    assert_eq!(
        to_http_uri("http://localhost:8080"),
        "http://localhost:8080"
    );
    assert_eq!(to_http_uri("https://example.com"), "https://example.com");
}

#[test]
fn test_default_config() {
    let config = DaemonConfig::default();
    assert!(!config.foreground);
    assert_eq!(config.tcp_addr, DEFAULT_TCP_ADDR);
    assert_eq!(config.socket, default_socket_path());
    assert_eq!(config.pid_file, default_pid_file());
    assert_eq!(config.log_file, default_log_file());
    assert_eq!(config.workdir, DEFAULT_WORKDIR);
}

#[test]
fn test_load_config() {
    // Should load without errors even if no config files exist
    let config = DaemonConfig::load().expect("Failed to load config");
    assert_eq!(config.tcp_addr, DEFAULT_TCP_ADDR);
}

#[test]
fn test_with_tcp_flag_forces_on() {
    let config = CtlConfig::default();
    assert!(!config.tcp);
    let forced = config.with_tcp_flag(true);
    assert!(forced.tcp);
    // The flag can never force the transport off again.
    let still_forced = forced.with_tcp_flag(false);
    assert!(still_forced.tcp);
}

#[test]
fn test_with_cli_args_merge() {
    let config = DaemonConfig::default();
    let args = ffit::config::DaemonArgs {
        foreground: true,
        tcp_addr: "127.0.0.1:4000".to_string(),
        socket: default_socket_path(),
        pid_file: "/tmp/custom.pid".to_string(),
        log_file: default_log_file(),
        workdir: "/".to_string(),
    };
    let merged = config.with_cli_args(&args);
    assert!(merged.foreground);
    // A flag differing from the built-in default wins over the loaded value.
    assert_eq!(merged.tcp_addr, "127.0.0.1:4000");
    assert_eq!(merged.pid_file, "/tmp/custom.pid");
    // A flag equal to the built-in default leaves the loaded value alone.
    assert_eq!(merged.socket, default_socket_path());
    assert_eq!(merged.workdir, "/");
}

#[test]
fn test_connect_timeout_seconds() {
    let config = CtlConfig::default();
    assert_eq!(config.connect_timeout(), 3);
}

#[test]
fn test_system_config_file_paths() {
    assert_eq!(CtlConfig::system_config_file(), "/etc/ffit/config.toml");
    assert_eq!(DaemonConfig::system_config_file(), "/etc/ffit/config.toml");
}
