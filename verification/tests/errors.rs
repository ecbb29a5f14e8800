use ytmusic_service::adapters::YtMusicAdapter;
use ytmusic_service::error::{
    map_cipher_error, map_http_status, map_invalid_argument, map_service_error, map_ytmusic_error,
    CipherError, CipherErrorKind, ServiceError, YtMusicError,
};
use ytmusic_service::status::{status_with_subsystem, RpcCode, MUSIC_SUBSYSTEM};

#[test]
fn map_service_error_preserves_status_categories() {
    let unavailable = map_service_error(MUSIC_SUBSYSTEM, &ServiceError::CipherWorkerUnavailable);
    assert_eq!(unavailable.code, RpcCode::Unavailable);

    let invalid_argument = map_service_error(
        MUSIC_SUBSYSTEM,
        &ServiceError::YtMusic(YtMusicError::InvalidInput("query must not be blank".to_owned())),
    );
    assert_eq!(invalid_argument.code, RpcCode::InvalidArgument);
}

#[test]
fn http_statuses_map_to_grpc_codes() {
    let cases = [
        (400u16, RpcCode::InvalidArgument),
        (401, RpcCode::FailedPrecondition),
        (403, RpcCode::FailedPrecondition),
        (404, RpcCode::NotFound),
        (429, RpcCode::ResourceExhausted),
        (500, RpcCode::Unavailable),
        (503, RpcCode::Unavailable),
        (599, RpcCode::Unavailable),
        (600, RpcCode::Unknown),
        (302, RpcCode::Unknown),
        (418, RpcCode::Unknown),
    ];
    for (status, code) in cases {
        let mapped = map_http_status("ytmusic", status, "upstream said no");
        assert_eq!(mapped.code, code, "status {status}");
        assert_eq!(mapped.message, "upstream said no");
        assert_eq!(mapped.subsystem.as_deref(), Some("ytmusic"));
    }
}

#[test]
fn ytmusic_errors_map_to_grpc_codes() {
    let cases = vec![
        (YtMusicError::InvalidInput("a".to_owned()), RpcCode::InvalidArgument, "a"),
        (YtMusicError::AuthValidation("b".to_owned()), RpcCode::FailedPrecondition, "b"),
        (YtMusicError::AuthFileRead("c".to_owned()), RpcCode::FailedPrecondition, "c"),
        (YtMusicError::AuthFileDecode("d".to_owned()), RpcCode::FailedPrecondition, "d"),
        (YtMusicError::HttpClientBuild("e".to_owned()), RpcCode::Internal, "e"),
        (YtMusicError::HttpTransport("f".to_owned()), RpcCode::Unavailable, "f"),
        (
            YtMusicError::HttpStatus { status: 404, message: "g".to_owned() },
            RpcCode::NotFound,
            "g",
        ),
        (YtMusicError::JsonDecode("h".to_owned()), RpcCode::Internal, "h"),
        (YtMusicError::MissingVisitorId("i".to_owned()), RpcCode::Unavailable, "i"),
        (
            YtMusicError::MissingBootstrapField("INNERTUBE_API_KEY".to_owned()),
            RpcCode::Unavailable,
            "failed to bootstrap anonymous client config: missing INNERTUBE_API_KEY",
        ),
        (YtMusicError::Parse("j".to_owned()), RpcCode::Internal, "j"),
        (YtMusicError::UnsupportedFeature("k".to_owned()), RpcCode::Unimplemented, "k"),
    ];
    for (error, code, message) in cases {
        let status = map_ytmusic_error("ytmusic", &error);
        assert_eq!(status.code, code, "{error:?}");
        assert_eq!(status.message, message);
    }
}

#[test]
fn cipher_errors_map_to_grpc_codes() {
    let cases = [
        (CipherErrorKind::CipherParse, RpcCode::InvalidArgument),
        (CipherErrorKind::NTransformUnavailable, RpcCode::Unimplemented),
        (CipherErrorKind::SignatureSolverUnavailable, RpcCode::Unimplemented),
        (CipherErrorKind::HomepageFetch, RpcCode::Unavailable),
        (CipherErrorKind::PlayerFetch, RpcCode::Unavailable),
        (CipherErrorKind::QuickJsRuntimeInitFailed, RpcCode::Unavailable),
        (CipherErrorKind::SignatureDecipherFailed, RpcCode::Internal),
        (CipherErrorKind::Other, RpcCode::Internal),
    ];
    for (kind, code) in cases {
        let status = map_cipher_error("cipher", &CipherError { kind, message: "boom".to_owned() });
        assert_eq!(status.code, code, "{kind:?}");
        assert_eq!(status.message, "boom");
        assert_eq!(status.subsystem.as_deref(), Some("cipher"));
    }
}

#[test]
fn service_errors_map_to_grpc_codes_and_messages() {
    let cases = vec![
        (
            ServiceError::EnvVar {
                name: "YTMUSIC_SERVICE_ADDR".to_owned(),
                message: "environment variable not found".to_owned(),
            },
            RpcCode::FailedPrecondition,
            "environment variable not found",
        ),
        (
            ServiceError::BrowserAuthPathMissing("/secrets/browser.json".to_owned()),
            RpcCode::FailedPrecondition,
            "browser auth file missing: /secrets/browser.json",
        ),
        (
            ServiceError::BrowserAuthPathNotFile("/secrets".to_owned()),
            RpcCode::FailedPrecondition,
            "browser auth path is not a file: /secrets",
        ),
        (
            ServiceError::InvalidSocketAddress("invalid socket address syntax".to_owned()),
            RpcCode::FailedPrecondition,
            "invalid socket address syntax",
        ),
        (
            ServiceError::InvalidRpcTimeoutMs {
                value: "0".to_owned(),
                reason: "must be greater than 0".to_owned(),
            },
            RpcCode::FailedPrecondition,
            "must be greater than 0",
        ),
        (ServiceError::ListenerBind("in use".to_owned()), RpcCode::Unavailable, "in use"),
        (ServiceError::ListenerLocalAddr("gone".to_owned()), RpcCode::Unavailable, "gone"),
        (
            ServiceError::BrowserAuthLoad(YtMusicError::AuthFileDecode("bad json".to_owned())),
            RpcCode::FailedPrecondition,
            "bad json",
        ),
        (ServiceError::CipherWorkerThreadSpawn("t".to_owned()), RpcCode::Unavailable, "t"),
        (ServiceError::CipherWorkerRuntime("r".to_owned()), RpcCode::Unavailable, "r"),
        (
            ServiceError::CipherWorkerInit(CipherError {
                kind: CipherErrorKind::PlayerFetch,
                message: "player".to_owned(),
            }),
            RpcCode::Unavailable,
            "player",
        ),
        (
            ServiceError::Cipher(CipherError {
                kind: CipherErrorKind::CipherParse,
                message: "parse".to_owned(),
            }),
            RpcCode::InvalidArgument,
            "parse",
        ),
        (ServiceError::CipherWorkerUnavailable, RpcCode::Unavailable, "cipher worker is unavailable"),
        (
            ServiceError::CipherOperation(CipherError {
                kind: CipherErrorKind::NTransformUnavailable,
                message: "n".to_owned(),
            }),
            RpcCode::Unimplemented,
            "n",
        ),
        (ServiceError::Reflection("refl".to_owned()), RpcCode::Internal, "refl"),
        (ServiceError::Incoming("inc".to_owned()), RpcCode::Unavailable, "inc"),
        (ServiceError::Transport("tr".to_owned()), RpcCode::Unavailable, "tr"),
        (
            ServiceError::TestServerReadySignal,
            RpcCode::Unavailable,
            "test server failed to signal readiness",
        ),
    ];
    for (error, code, message) in cases {
        let status = map_service_error("ytmusic", &error);
        assert_eq!(status.code, code, "{error:?}");
        assert_eq!(status.message, message, "{error:?}");
        assert_eq!(status.subsystem.as_deref(), Some("ytmusic"));
    }
}

#[test]
fn invalid_subsystem_names_are_not_attached() {
    let status = status_with_subsystem("bad\nname", RpcCode::Internal, "x".to_owned());
    assert_eq!(status.subsystem, None);

    let tabbed = status_with_subsystem("tab\tname", RpcCode::Internal, "x".to_owned());
    assert_eq!(tabbed.subsystem.as_deref(), Some("tab\tname"));

    let deleted = status_with_subsystem("del\u{7f}", RpcCode::Internal, "x".to_owned());
    assert_eq!(deleted.subsystem, None);

    let accented = status_with_subsystem("caf\u{e9}", RpcCode::Internal, "x".to_owned());
    assert_eq!(accented.subsystem.as_deref(), Some("caf\u{e9}"));
}

#[test]
fn map_invalid_argument_keeps_message() {
    let status = map_invalid_argument("ytmusic", "query must not be empty".to_owned());
    assert_eq!(status.code, RpcCode::InvalidArgument);
    assert_eq!(status.message, "query must not be empty");
    assert_eq!(status.subsystem.as_deref(), Some("ytmusic"));
}

#[test]
fn adapter_wraps_upstream_failures_as_catalogue_failures() {
    let ok: Result<u32, YtMusicError> = Ok(7);
    assert!(matches!(YtMusicAdapter::lift_upstream(ok), Ok(7)));

    let failed: Result<u32, YtMusicError> = Err(YtMusicError::Parse("bad shelf".to_owned()));
    match YtMusicAdapter::lift_upstream(failed) {
        Err(ServiceError::YtMusic(YtMusicError::Parse(message))) => {
            assert_eq!(message, "bad shelf");
        }
        other => panic!("expected a wrapped catalogue failure, got {other:?}"),
    }
}
