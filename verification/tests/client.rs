use ytmusic_service::client::{v2, ClientStatus};
use ytmusic_service::status::{RpcCode, RpcStatus};

#[test]
fn client_crate_reexports_v2_proto() {
    let _ = std::any::TypeId::of::<v2::GetStatusRequest>();
}

#[test]
fn client_error_helpers_classify_status_codes() {
    let status = RpcStatus {
        code: RpcCode::Unavailable,
        message: "upstream unavailable".to_owned(),
        subsystem: None,
    };
    let error = ClientStatus::from(status);

    assert!(error.is_unavailable());
    assert!(!error.is_invalid_argument());
}

#[test]
fn client_status_exposes_code_message_and_subsystem() {
    let error = ClientStatus::from(RpcStatus {
        code: RpcCode::FailedPrecondition,
        message: "browser auth rejected".to_owned(),
        subsystem: Some("ytmusic".to_owned()),
    });

    assert_eq!(error.code(), RpcCode::FailedPrecondition);
    assert_eq!(error.message(), "browser auth rejected");
    assert_eq!(error.subsystem(), Some("ytmusic"));
    assert!(error.is_failed_precondition());
    assert!(!error.is_internal());
    assert!(!error.is_unimplemented());
}

#[test]
fn client_status_classifies_internal_and_unimplemented() {
    let internal = ClientStatus::from(RpcStatus {
        code: RpcCode::Internal,
        message: String::new(),
        subsystem: None,
    });
    let unimplemented = ClientStatus::from(RpcStatus {
        code: RpcCode::Unimplemented,
        message: String::new(),
        subsystem: None,
    });

    assert!(internal.is_internal());
    assert_eq!(internal.subsystem(), None);
    assert!(unimplemented.is_unimplemented());
    assert!(!unimplemented.is_unavailable());
}

#[test]
fn client_status_hides_subsystem_that_is_not_visible_ascii() {
    let accented = ClientStatus::from(RpcStatus {
        code: RpcCode::Internal,
        message: "failed".to_owned(),
        subsystem: Some("müsic".to_owned()),
    });
    assert_eq!(accented.subsystem(), None);

    let tabbed = ClientStatus::from(RpcStatus {
        code: RpcCode::Internal,
        message: "failed".to_owned(),
        subsystem: Some("cipher\tworker".to_owned()),
    });
    assert_eq!(tabbed.subsystem(), Some("cipher\tworker"));
}
