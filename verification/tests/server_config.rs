//! Server configuration: default ports and the port environment values.

use synapse::config::{GrpcServerConfig, McpServerConfig};

#[test]
fn server_config_default_port() {
    let cfg = McpServerConfig::default();
    assert_eq!(cfg.port, 3000);
    let cfg = GrpcServerConfig::default();
    assert_eq!(cfg.port, 3001);
}

#[test]
fn config_can_be_constructed_directly() {
    let cfg = McpServerConfig { port: 5000 };
    assert_eq!(cfg.port, 5000);
}

#[test]
fn server_config_from_env_falls_back_to_default() {
    assert_eq!(McpServerConfig::from_port_value(None).port, 3000);
    assert_eq!(GrpcServerConfig::from_port_value(None).port, 3001);
}

#[test]
fn server_config_from_env_reads_port() {
    assert_eq!(McpServerConfig::from_port_value(Some("4000")).port, 4000);
    assert_eq!(GrpcServerConfig::from_port_value(Some("4001")).port, 4001);
}

#[test]
fn config_from_env_ignores_invalid() {
    assert_eq!(GrpcServerConfig::from_port_value(Some("not_a_number")).port, 3001);
    assert_eq!(McpServerConfig::from_port_value(Some("not_a_number")).port, 3000);
}

#[test]
fn port_values_follow_the_numeral_rules() {
    assert_eq!(McpServerConfig::from_port_value(Some("+8080")).port, 8080);
    assert_eq!(McpServerConfig::from_port_value(Some("0")).port, 0);
    assert_eq!(McpServerConfig::from_port_value(Some("65535")).port, 65535);
    assert_eq!(McpServerConfig::from_port_value(Some("65536")).port, 3000);
    assert_eq!(McpServerConfig::from_port_value(Some("-1")).port, 3000);
    assert_eq!(McpServerConfig::from_port_value(Some(" 80")).port, 3000);
    assert_eq!(McpServerConfig::from_port_value(Some("")).port, 3000);
    assert_eq!(McpServerConfig::from_port_value(Some("+")).port, 3000);
    assert_eq!(McpServerConfig::from_port_value(Some("8_0")).port, 3000);
}
