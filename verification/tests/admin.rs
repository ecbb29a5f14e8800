use ytmusic_service::error::{ServiceError, YtMusicError};
use ytmusic_service::servers::admin::{AdminService, PLACEHOLDER_MESSAGE};
use ytmusic_service::status::RpcCode;

#[test]
fn admin_placeholder_module_is_explicit() {
    assert_eq!(PLACEHOLDER_MESSAGE, "admin service placeholder");
}

#[test]
fn admin_reload_surfaces_reload_failures_as_status() {
    let failure = ServiceError::BrowserAuthLoad(YtMusicError::AuthValidation(
        "browser auth is missing required headers".to_owned(),
    ));

    let status = AdminService::reload_failure_status(&failure);

    assert_eq!(status.code, RpcCode::FailedPrecondition);
    assert_eq!(status.message, "browser auth is missing required headers");
    assert_eq!(status.subsystem.as_deref(), Some("ytmusic"));
}
