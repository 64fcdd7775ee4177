use std::path::PathBuf;

use zenoh_grpc::connect::{parse_connect_addr, tcp_uri, validate_connect_addr, ConnectAddr};
use zenoh_grpc::status::{is_disconnect_status, is_stale_status, status, StatusCode};

#[test]
fn endpoints_with_a_known_scheme() {
    match parse_connect_addr("tcp://127.0.0.1:7335") {
        Ok(ConnectAddr::Tcp(a)) => assert_eq!(a, "127.0.0.1:7335"),
        other => panic!("unexpected {:?}", other),
    }
    match parse_connect_addr("unix:///tmp/zenoh-grpc.sock") {
        Ok(ConnectAddr::Unix(p)) => assert_eq!(p, PathBuf::from("/tmp/zenoh-grpc.sock")),
        other => panic!("unexpected {:?}", other),
    }
}

#[test]
fn endpoints_with_an_unknown_scheme() {
    assert_eq!(
        parse_connect_addr("ws://host").unwrap_err(),
        "invalid endpoint, expected tcp://host:port or unix:///path"
    );
    assert!(parse_connect_addr("").is_err());
    assert!(parse_connect_addr("tcp:/x").is_err());
}

#[test]
fn tcp_addresses_become_http_uris() {
    assert_eq!(tcp_uri("127.0.0.1:7335"), "http://127.0.0.1:7335");
    assert!(validate_connect_addr(&ConnectAddr::Tcp("127.0.0.1:7335".into())).is_ok());
    assert!(validate_connect_addr(&ConnectAddr::Tcp("127.0.0.1:65534".into())).is_ok());
    assert!(validate_connect_addr(&ConnectAddr::Tcp("bad host".into())).is_err());
    assert!(validate_connect_addr(&ConnectAddr::Unix(PathBuf::from("/tmp/x.sock"))).is_ok());
}

#[test]
fn status_classes() {
    for code in [StatusCode::Unavailable, StatusCode::Unknown, StatusCode::Cancelled] {
        assert!(is_disconnect_status(&status(code, "")));
        assert!(!is_stale_status(&status(code, "")));
    }
    for code in [StatusCode::NotFound, StatusCode::PermissionDenied] {
        assert!(is_stale_status(&status(code, "")));
        assert!(!is_disconnect_status(&status(code, "")));
    }
    for code in [StatusCode::Success, StatusCode::Internal, StatusCode::DeadlineExceeded] {
        assert!(!is_stale_status(&status(code, "")));
        assert!(!is_disconnect_status(&status(code, "")));
    }
}
