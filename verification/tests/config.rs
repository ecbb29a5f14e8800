use std::path::Path;

use tempfile::TempDir;
use ytmusic_service::config::{
    parse_rpc_timeout_ms, PathProbe, ServiceConfig, DEFAULT_RPC_TIMEOUT_MS,
};
use ytmusic_service::error::ServiceError;
use ytmusic_service::v1;

fn probe(path: &Path) -> PathProbe {
    PathProbe { exists: path.exists(), is_file: path.is_file() }
}

fn parse_addr(text: &str) -> Result<String, String> {
    // Only the shapes used below are recognised: the listener address is
    // parsed by the program before it reaches the library.
    match text {
        "127.0.0.1:0" | "127.0.0.1:50051" | "127.0.0.1:50052" => Ok(text.to_owned()),
        _ => Err("invalid socket address syntax".to_owned()),
    }
}

fn path_text(path: &Path) -> String {
    path.to_string_lossy().into_owned()
}

#[test]
fn startup_fails_when_browser_json_is_missing() {
    let dir = TempDir::new().unwrap();
    let path = dir.path().join("browser.json");

    let result = v1::config::ServiceConfig::from_parts(
        parse_addr("127.0.0.1:50051"),
        parse_addr("127.0.0.1:50052"),
        path_text(&path),
        probe(&path),
    );

    match result {
        Err(ServiceError::BrowserAuthPathMissing(returned_path)) => {
            assert_eq!(returned_path, path_text(&path));
        }
        other => panic!("expected BrowserAuthPathMissing, got {other:?}"),
    }
}

#[test]
fn startup_fails_when_browser_json_path_is_a_directory() {
    let dir = TempDir::new().unwrap();
    let sub = tempfile::Builder::new().prefix("browser.json").tempdir_in(dir.path()).unwrap();
    let path = sub.path().to_path_buf();

    let result = v1::config::ServiceConfig::from_parts(
        parse_addr("127.0.0.1:50051"),
        parse_addr("127.0.0.1:50052"),
        path_text(&path),
        probe(&path),
    );

    match result {
        Err(ServiceError::BrowserAuthPathNotFile(returned_path)) => {
            assert_eq!(returned_path, path_text(&path));
        }
        other => panic!("expected BrowserAuthPathNotFile, got {other:?}"),
    }
}

#[test]
fn startup_fails_when_public_addr_is_invalid() {
    let dir = TempDir::new().unwrap();
    let file = tempfile::Builder::new().suffix(".json").tempfile_in(dir.path()).unwrap();
    let path = file.path().to_path_buf();

    let result = v1::config::ServiceConfig::from_parts(
        parse_addr("invalid"),
        parse_addr("127.0.0.1:50052"),
        path_text(&path),
        probe(&path),
    );

    assert!(matches!(result, Err(ServiceError::InvalidSocketAddress(_))));
}


#[test]
fn startup_accepts_existing_browser_json_path() {
    let dir = TempDir::new().unwrap();
    let file = tempfile::Builder::new().suffix(".json").tempfile_in(dir.path()).unwrap();
    let path = file.path().to_path_buf();

    let config = v1::config::ServiceConfig::from_parts(
        parse_addr("127.0.0.1:50051"),
        parse_addr("127.0.0.1:50052"),
        path_text(&path),
        probe(&path),
    )
    .unwrap();

    assert_eq!(config.public_addr(), "127.0.0.1:50051");
    assert_eq!(config.admin_addr(), "127.0.0.1:50052");
    assert_eq!(config.browser_auth_path(), path_text(&path));
}

#[test]
fn two_listener_config_reports_bad_admin_address() {
    let result = v1::config::ServiceConfig::from_parts(
        parse_addr("127.0.0.1:50051"),
        parse_addr("not-an-address"),
        "browser.json".to_owned(),
        PathProbe { exists: true, is_file: true },
    );
    assert!(matches!(result, Err(ServiceError::InvalidSocketAddress(_))));
}

#[test]
fn single_listener_config_checks_path_before_address() {
    let missing = ServiceConfig::from_parts(
        parse_addr("invalid"),
        "browser.json".to_owned(),
        PathProbe { exists: false, is_file: false },
    );
    assert!(matches!(missing, Err(ServiceError::BrowserAuthPathMissing(_))));

    let directory = ServiceConfig::from_parts(
        parse_addr("invalid"),
        "browser.json".to_owned(),
        PathProbe { exists: true, is_file: false },
    );
    assert!(matches!(directory, Err(ServiceError::BrowserAuthPathNotFile(_))));

    let bad_address = ServiceConfig::from_parts(
        parse_addr("invalid"),
        "browser.json".to_owned(),
        PathProbe { exists: true, is_file: true },
    );
    assert!(matches!(bad_address, Err(ServiceError::InvalidSocketAddress(_))));
}

#[test]
fn single_listener_config_keeps_settings() {
    let config = ServiceConfig::from_parts(
        parse_addr("127.0.0.1:0"),
        "/run/secrets/browser.json".to_owned(),
        PathProbe { exists: true, is_file: true },
    )
    .unwrap();

    assert_eq!(config.listen_addr(), "127.0.0.1:0");
    assert_eq!(config.browser_auth_path(), "/run/secrets/browser.json");
    assert_eq!(config.rpc_timeout_ms(), DEFAULT_RPC_TIMEOUT_MS);
    assert_eq!(DEFAULT_RPC_TIMEOUT_MS, 30_000);

    let moved = config.with_listen_addr("127.0.0.1:50051".to_owned());
    assert_eq!(moved.listen_addr(), "127.0.0.1:50051");
    assert_eq!(moved.browser_auth_path(), "/run/secrets/browser.json");

    let faster = moved.with_rpc_timeout_ms(15_000);
    assert_eq!(faster.rpc_timeout_ms(), 15_000);
    assert_eq!(faster.listen_addr(), "127.0.0.1:50051");
}

#[test]
fn rpc_timeout_setting_must_be_a_positive_integer() {
    assert_eq!(parse_rpc_timeout_ms(None).unwrap(), 30_000);
    assert_eq!(parse_rpc_timeout_ms(Some("15000")).unwrap(), 15_000);
    assert_eq!(parse_rpc_timeout_ms(Some("1")).unwrap(), 1);
    assert_eq!(parse_rpc_timeout_ms(Some("18446744073709551615")).unwrap(), u64::MAX);

    match parse_rpc_timeout_ms(Some("0")) {
        Err(ServiceError::InvalidRpcTimeoutMs { value, reason }) => {
            assert_eq!(value, "0");
            assert_eq!(reason, "must be greater than 0");
        }
        other => panic!("expected InvalidRpcTimeoutMs, got {other:?}"),
    }
    for text in ["", "-5", "1.5", "15s", " 15", "18446744073709551616"] {
        match parse_rpc_timeout_ms(Some(text)) {
            Err(ServiceError::InvalidRpcTimeoutMs { value, reason }) => {
                assert_eq!(value, text);
                assert_eq!(reason, "must be a positive integer number of milliseconds");
            }
            other => panic!("expected InvalidRpcTimeoutMs for {text:?}, got {other:?}"),
        }
    }
}

#[test]
fn rpc_timeout_round_trips_through_decimal_text() {
    for ms in [1u64, 9, 10, 15_000, 30_000, u64::MAX] {
        assert_eq!(parse_rpc_timeout_ms(Some(&ms.to_string())).unwrap(), ms);
    }
}
