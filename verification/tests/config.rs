use std::time::Duration;

use zenoh_grpc::config::{
    default_host, default_max_recv_message_size, default_max_send_message_size, default_port,
    default_shutdown_grace_period, default_shutdown_grace_period_ms, default_uds_path,
    format_host_port, Config, ListenEndpoint, DEFAULT_HOST, DEFAULT_MAX_RECV_MESSAGE_SIZE,
    DEFAULT_MAX_SEND_MESSAGE_SIZE, DEFAULT_PORT, DEFAULT_SHUTDOWN_GRACE_PERIOD_MS,
    DEFAULT_UDS_PATH,
};

#[test]
fn default_listeners_include_tcp_and_uds() {
    let config = Config::default();
    assert_eq!(
        config.listeners().unwrap(),
        vec![
            ListenEndpoint::Tcp(format!("{DEFAULT_HOST}:{DEFAULT_PORT}")),
            ListenEndpoint::Unix(DEFAULT_UDS_PATH.into())
        ]
    );
}

#[test]
fn explicit_listen_tcp() {
    let config = Config {
        listen: Some("tcp://localhost:7444".into()),
        ..Config::default()
    };
    assert_eq!(
        config.listeners().unwrap(),
        vec![ListenEndpoint::Tcp("localhost:7444".into())]
    );
}

#[test]
fn uds_added_when_present() {
    let config = Config {
        uds_path: Some("/tmp/zenoh-grpc.sock".into()),
        ..Config::default()
    };
    assert_eq!(config.listeners().unwrap().len(), 2);
}

#[test]
fn invalid_listen_rejected() {
    let config = Config {
        listen: Some("ws://localhost:1234".into()),
        ..Config::default()
    };
    assert!(config.listeners().is_err());
}

#[test]
fn invalid_listen_message_names_the_endpoint() {
    let config = Config {
        listen: Some("ws://localhost:1234".into()),
        ..Config::default()
    };
    assert_eq!(
        config.listeners().unwrap_err(),
        "unsupported listen endpoint `ws://localhost:1234`"
    );
}

#[test]
fn explicit_listen_unix() {
    let config = Config {
        listen: Some("unix:///run/grpc.sock".into()),
        ..Config::default()
    };
    assert_eq!(
        config.listeners().unwrap(),
        vec![ListenEndpoint::Unix("/run/grpc.sock".into())]
    );
}

#[test]
fn explicit_listen_replaces_host_port_and_uds() {
    let config = Config {
        listen: Some("tcp://0.0.0.0:9000".into()),
        host: "10.0.0.1".into(),
        port: 1,
        uds_path: Some("/tmp/other.sock".into()),
        ..Config::default()
    };
    assert_eq!(
        config.listeners().unwrap(),
        vec![ListenEndpoint::Tcp("0.0.0.0:9000".into())]
    );
}

#[test]
fn no_uds_path_gives_tcp_only() {
    let config = Config {
        host: "example.org".into(),
        port: 0,
        uds_path: None,
        ..Config::default()
    };
    assert_eq!(
        config.listeners().unwrap(),
        vec![ListenEndpoint::Tcp("example.org:0".into())]
    );
}

#[test]
fn scheme_prefix_is_case_sensitive() {
    let config = Config {
        listen: Some("TCP://localhost:1".into()),
        ..Config::default()
    };
    assert!(config.listeners().is_err());
}

#[test]
fn empty_address_after_scheme_is_kept() {
    let config = Config {
        listen: Some("tcp://".into()),
        ..Config::default()
    };
    assert_eq!(config.listeners().unwrap(), vec![ListenEndpoint::Tcp(String::new())]);
}

#[test]
fn host_port_renders_every_port() {
    assert_eq!(format_host_port("h", 0), "h:0");
    assert_eq!(format_host_port("h", 7), "h:7");
    assert_eq!(format_host_port("h", 10), "h:10");
    assert_eq!(format_host_port("h", 7335), "h:7335");
    assert_eq!(format_host_port("h", u16::MAX), "h:65535");
    assert_eq!(format_host_port("", 80), ":80");
}

#[test]
fn defaults_match_the_documented_values() {
    let config = Config::default();
    assert_eq!(config.listen, None);
    assert_eq!(config.host, "127.0.0.1");
    assert_eq!(config.port, 7335);
    assert_eq!(config.uds_path.as_deref(), Some("/tmp/zenoh-grpc.sock"));
    assert_eq!(config.max_recv_message_size, 4 * 1024 * 1024);
    assert_eq!(config.max_send_message_size, 4 * 1024 * 1024);
    assert_eq!(config.shutdown_grace_period, Duration::from_millis(3_000));
    assert!(config.__path__.is_none());
    assert!(config.__required__.is_none());
    assert!(config.__config__.is_none());
    assert_eq!(default_host(), DEFAULT_HOST);
    assert_eq!(default_port(), DEFAULT_PORT);
    assert_eq!(default_uds_path().as_deref(), Some(DEFAULT_UDS_PATH));
    assert_eq!(default_max_recv_message_size(), DEFAULT_MAX_RECV_MESSAGE_SIZE);
    assert_eq!(default_max_send_message_size(), DEFAULT_MAX_SEND_MESSAGE_SIZE);
    assert_eq!(default_shutdown_grace_period_ms(), DEFAULT_SHUTDOWN_GRACE_PERIOD_MS);
    assert_eq!(default_shutdown_grace_period(), Duration::from_millis(3_000));
}

#[test]
fn listeners_of_utf8_addresses() {
    let config = Config {
        listen: Some("unix:///tmp/zénoh.sock".into()),
        ..Config::default()
    };
    assert_eq!(
        config.listeners().unwrap(),
        vec![ListenEndpoint::Unix("/tmp/zénoh.sock".into())]
    );
}

#[test]
fn bridge_overrides_replace_host_port_and_socket() {
    let config = Config::default().with_bridge_overrides(
        Some("0.0.0.0".into()),
        Some(9000),
        Some("/run/g.sock".into()),
    );
    assert_eq!(
        config.listeners().unwrap(),
        vec![
            ListenEndpoint::Tcp("0.0.0.0:9000".into()),
            ListenEndpoint::Unix("/run/g.sock".into())
        ]
    );
    let same = Config::default().with_bridge_overrides(None, None, None);
    assert_eq!(same.listeners().unwrap(), Config::default().listeners().unwrap());
}
