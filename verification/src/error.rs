//! Failures of the service and of its upstream clients, and the gRPC
//! status that each of them is reported as.

use vstd::prelude::*;

use crate::status::{metadata_text_ok, status_spec, status_with_subsystem, RpcCode, RpcStatus, RpcStatusView};
use crate::text::concat;

verus! {

/// A failure reported by the music catalogue client. Payloads hold the
/// display text of the underlying failure.
#[derive(Debug)]
pub enum YtMusicError {
    InvalidInput(String),
    AuthValidation(String),
    AuthFileRead(String),
    AuthFileDecode(String),
    HttpClientBuild(String),
    HttpTransport(String),
    HttpStatus { status: u16, message: String },
    JsonDecode(String),
    /// Carries the display text of the whole failure.
    MissingVisitorId(String),
    /// Carries the name of the missing field.
    MissingBootstrapField(String),
    Parse(String),
    UnsupportedFeature(String),
}

/// The kinds of signature-cipher failure that the status mapping tells apart.
#[derive(Clone, Copy, Debug, PartialEq, Eq, Structural)]
pub enum CipherErrorKind {
    CipherParse,
    NTransformUnavailable,
    SignatureSolverUnavailable,
    HomepageFetch,
    PlayerFetch,
    QuickJsRuntimeInitFailed,
    SignatureDecipherFailed,
    Other,
}

/// A failure of the signature cipher: its kind and its display text.
#[derive(Debug)]
pub struct CipherError {
    pub kind: CipherErrorKind,
    pub message: String,
}

/// Every failure of the service. Payloads that stand for a failure of std
/// or of a transport library hold its display text.
#[derive(Debug)]
pub enum ServiceError {
    EnvVar { name: String, message: String },
    BrowserAuthPathMissing(String),
    BrowserAuthPathNotFile(String),
    InvalidSocketAddress(String),
    InvalidRpcTimeoutMs { value: String, reason: String },
    ListenerBind(String),
    ListenerLocalAddr(String),
    BrowserAuthLoad(YtMusicError),
    YtMusic(YtMusicError),
    CipherWorkerThreadSpawn(String),
    CipherWorkerRuntime(String),
    CipherWorkerInit(CipherError),
    Cipher(CipherError),
    CipherWorkerUnavailable,
    CipherOperation(CipherError),
    Reflection(String),
    Incoming(String),
    Transport(String),
    TestServerReadySignal,
}

/// The gRPC code for an upstream HTTP status.
pub open spec fn http_status_code(status: u16) -> RpcCode {
    if status == 400 {
        RpcCode::InvalidArgument
    } else if status == 401 || status == 403 {
        RpcCode::FailedPrecondition
    } else if status == 404 {
        RpcCode::NotFound
    } else if status == 429 {
        RpcCode::ResourceExhausted
    } else if 500 <= status <= 599 {
        RpcCode::Unavailable
    } else {
        RpcCode::Unknown
    }
}

/// The gRPC code for a failure of the music catalogue client.
pub open spec fn ytmusic_error_code(e: YtMusicError) -> RpcCode {
    match e {
        YtMusicError::InvalidInput(_) => RpcCode::InvalidArgument,
        YtMusicError::AuthValidation(_) => RpcCode::FailedPrecondition,
        YtMusicError::AuthFileRead(_) => RpcCode::FailedPrecondition,
        YtMusicError::AuthFileDecode(_) => RpcCode::FailedPrecondition,
        YtMusicError::HttpClientBuild(_) => RpcCode::Internal,
        YtMusicError::HttpTransport(_) => RpcCode::Unavailable,
        YtMusicError::HttpStatus { status, .. } => http_status_code(status),
        YtMusicError::JsonDecode(_) => RpcCode::Internal,
        YtMusicError::MissingVisitorId(_) => RpcCode::Unavailable,
        YtMusicError::MissingBootstrapField(_) => RpcCode::Unavailable,
        YtMusicError::Parse(_) => RpcCode::Internal,
        YtMusicError::UnsupportedFeature(_) => RpcCode::Unimplemented,
    }
}

/// The status message for a failure of the music catalogue client.
pub open spec fn ytmusic_error_message(e: YtMusicError) -> Seq<char> {
    match e {
        YtMusicError::InvalidInput(m) => m@,
        YtMusicError::AuthValidation(m) => m@,
        YtMusicError::AuthFileRead(m) => m@,
        YtMusicError::AuthFileDecode(m) => m@,
        YtMusicError::HttpClientBuild(m) => m@,
        YtMusicError::HttpTransport(m) => m@,
        YtMusicError::HttpStatus { message, .. } => message@,
        YtMusicError::JsonDecode(m) => m@,
        YtMusicError::MissingVisitorId(m) => m@,
        YtMusicError::MissingBootstrapField(field) => "failed to bootstrap anonymous client config: missing "@
            + field@,
        YtMusicError::Parse(m) => m@,
        YtMusicError::UnsupportedFeature(m) => m@,
    }
}

/// The gRPC code for a failure of the signature cipher.
pub open spec fn cipher_error_code(kind: CipherErrorKind) -> RpcCode {
    match kind {
        CipherErrorKind::CipherParse => RpcCode::InvalidArgument,
        CipherErrorKind::NTransformUnavailable => RpcCode::Unimplemented,
        CipherErrorKind::SignatureSolverUnavailable => RpcCode::Unimplemented,
        CipherErrorKind::HomepageFetch => RpcCode::Unavailable,
        CipherErrorKind::PlayerFetch => RpcCode::Unavailable,
        CipherErrorKind::QuickJsRuntimeInitFailed => RpcCode::Unavailable,
        _ => RpcCode::Internal,
    }
}

/// The status reported for a failure of the music catalogue client.
pub open spec fn ytmusic_error_status(subsystem: Seq<char>, e: YtMusicError) -> RpcStatusView {
    status_spec(subsystem, ytmusic_error_code(e), ytmusic_error_message(e))
}

/// The status reported for a failure of the signature cipher.
pub open spec fn cipher_error_status(subsystem: Seq<char>, e: CipherError) -> RpcStatusView {
    status_spec(subsystem, cipher_error_code(e.kind), e.message@)
}

/// The status reported for a failure of the service.
pub open spec fn service_error_status(subsystem: Seq<char>, e: ServiceError) -> RpcStatusView {
    match e {
        ServiceError::EnvVar { message, .. } => status_spec(
            subsystem,
            RpcCode::FailedPrecondition,
            message@,
        ),
        ServiceError::BrowserAuthPathMissing(path) => status_spec(
            subsystem,
            RpcCode::FailedPrecondition,
            "browser auth file missing: "@ + path@,
        ),
        ServiceError::BrowserAuthPathNotFile(path) => status_spec(
            subsystem,
            RpcCode::FailedPrecondition,
            "browser auth path is not a file: "@ + path@,
        ),
        ServiceError::InvalidSocketAddress(m) => status_spec(
            subsystem,
            RpcCode::FailedPrecondition,
            m@,
        ),
        ServiceError::InvalidRpcTimeoutMs { reason, .. } => status_spec(
            subsystem,
            RpcCode::FailedPrecondition,
            reason@,
        ),
        ServiceError::ListenerBind(m) => status_spec(subsystem, RpcCode::Unavailable, m@),
        ServiceError::ListenerLocalAddr(m) => status_spec(subsystem, RpcCode::Unavailable, m@),
        ServiceError::BrowserAuthLoad(e) => ytmusic_error_status(subsystem, e),
        ServiceError::YtMusic(e) => ytmusic_error_status(subsystem, e),
        ServiceError::CipherWorkerThreadSpawn(m) => status_spec(
            subsystem,
            RpcCode::Unavailable,
            m@,
        ),
        ServiceError::CipherWorkerRuntime(m) => status_spec(subsystem, RpcCode::Unavailable, m@),
        ServiceError::CipherWorkerInit(e) => cipher_error_status(subsystem, e),
        ServiceError::Cipher(e) => cipher_error_status(subsystem, e),
        ServiceError::CipherWorkerUnavailable => status_spec(
            subsystem,
            RpcCode::Unavailable,
            "cipher worker is unavailable"@,
        ),
        ServiceError::CipherOperation(e) => cipher_error_status(subsystem, e),
        ServiceError::Reflection(m) => status_spec(subsystem, RpcCode::Internal, m@),
        ServiceError::Incoming(m) => status_spec(subsystem, RpcCode::Unavailable, m@),
        ServiceError::Transport(m) => status_spec(subsystem, RpcCode::Unavailable, m@),
        ServiceError::TestServerReadySignal => status_spec(
            subsystem,
            RpcCode::Unavailable,
            "test server failed to signal readiness"@,
        ),
    }
}

/// An `InvalidArgument` status with the given message.
pub fn map_invalid_argument(subsystem: &str, message: String) -> (status: RpcStatus)
    ensures
        status@ == status_spec(subsystem@, RpcCode::InvalidArgument, message@),
{
    status_with_subsystem(subsystem, RpcCode::InvalidArgument, message)
}

/// The status for an upstream HTTP failure: 400 is an invalid argument, 401
/// and 403 a failed precondition, 404 not found, 429 resource exhaustion, any
/// server error (5xx) unavailability, and anything else unknown.
pub fn map_http_status(subsystem: &str, status: u16, message: &str) -> (r: RpcStatus)
    ensures
        r@ == status_spec(subsystem@, http_status_code(status), message@),
{
    let code = if status == 400 {
        RpcCode::InvalidArgument
    } else if status == 401 || status == 403 {
        RpcCode::FailedPrecondition
    } else if status == 404 {
        RpcCode::NotFound
    } else if status == 429 {
        RpcCode::ResourceExhausted
    } else if 500 <= status && status <= 599 {
        RpcCode::Unavailable
    } else {
        RpcCode::Unknown
    };
    status_with_subsystem(subsystem, code, String::from_str(message))
}

/// The status for a failure of the music catalogue client.
pub fn map_ytmusic_error(subsystem: &str, error: &YtMusicError) -> (r: RpcStatus)
    ensures
        r@ == ytmusic_error_status(subsystem@, *error),
{
    match error {
        YtMusicError::InvalidInput(m) => status_with_subsystem(
            subsystem,
            RpcCode::InvalidArgument,
            m.clone(),
        ),
        YtMusicError::AuthValidation(m) => status_with_subsystem(
            subsystem,
            RpcCode::FailedPrecondition,
            m.clone(),
        ),
        YtMusicError::AuthFileRead(m) => status_with_subsystem(
            subsystem,
            RpcCode::FailedPrecondition,
            m.clone(),
        ),
        YtMusicError::AuthFileDecode(m) => status_with_subsystem(
            subsystem,
            RpcCode::FailedPrecondition,
            m.clone(),
        ),
        YtMusicError::HttpClientBuild(m) => status_with_subsystem(
            subsystem,
            RpcCode::Internal,
            m.clone(),
        ),
        YtMusicError::HttpTransport(m) => status_with_subsystem(
            subsystem,
            RpcCode::Unavailable,
            m.clone(),
        ),
        YtMusicError::HttpStatus { status, message } => map_http_status(
            subsystem,
            *status,
            message.as_str(),
        ),
        YtMusicError::JsonDecode(m) => status_with_subsystem(
            subsystem,
            RpcCode::Internal,
            m.clone(),
        ),
        YtMusicError::MissingVisitorId(m) => status_with_subsystem(
            subsystem,
            RpcCode::Unavailable,
            m.clone(),
        ),
        YtMusicError::MissingBootstrapField(field) => status_with_subsystem(
            subsystem,
            RpcCode::Unavailable,
            concat("failed to bootstrap anonymous client config: missing ", field.as_str()),
        ),
        YtMusicError::Parse(m) => status_with_subsystem(subsystem, RpcCode::Internal, m.clone()),
        YtMusicError::UnsupportedFeature(m) => status_with_subsystem(
            subsystem,
            RpcCode::Unimplemented,
            m.clone(),
        ),
    }
}

/// The status for a failure of the signature cipher: a malformed cipher is
/// an invalid argument, a missing solver is unimplemented, a failed fetch or
/// runtime start is unavailability, and anything else is internal.
pub fn map_cipher_error(subsystem: &str, error: &CipherError) -> (r: RpcStatus)
    ensures
        r@ == cipher_error_status(subsystem@, *error),
{
    let code = match error.kind {
        CipherErrorKind::CipherParse => RpcCode::InvalidArgument,
        CipherErrorKind::NTransformUnavailable => RpcCode::Unimplemented,
        CipherErrorKind::SignatureSolverUnavailable => RpcCode::Unimplemented,
        CipherErrorKind::HomepageFetch => RpcCode::Unavailable,
        CipherErrorKind::PlayerFetch => RpcCode::Unavailable,
        CipherErrorKind::QuickJsRuntimeInitFailed => RpcCode::Unavailable,
        _ => RpcCode::Internal,
    };
    status_with_subsystem(subsystem, code, error.message.clone())
}

/// The status for any failure of the service, tagged with `subsystem`.
pub fn map_service_error(subsystem: &str, error: &ServiceError) -> (r: RpcStatus)
    ensures
        r@ == service_error_status(subsystem@, *error),
{
    match error {
        ServiceError::EnvVar { message, .. } => status_with_subsystem(
            subsystem,
            RpcCode::FailedPrecondition,
            message.clone(),
        ),
        ServiceError::BrowserAuthPathMissing(path) => status_with_subsystem(
            subsystem,
            RpcCode::FailedPrecondition,
            concat("browser auth file missing: ", path.as_str()),
        ),
        ServiceError::BrowserAuthPathNotFile(path) => status_with_subsystem(
            subsystem,
            RpcCode::FailedPrecondition,
            concat("browser auth path is not a file: ", path.as_str()),
        ),
        ServiceError::InvalidSocketAddress(m) => status_with_subsystem(
            subsystem,
            RpcCode::FailedPrecondition,
            m.clone(),
        ),
        ServiceError::InvalidRpcTimeoutMs { reason, .. } => status_with_subsystem(
            subsystem,
            RpcCode::FailedPrecondition,
            reason.clone(),
        ),
        ServiceError::ListenerBind(m) => status_with_subsystem(
            subsystem,
            RpcCode::Unavailable,
            m.clone(),
        ),
        ServiceError::ListenerLocalAddr(m) => status_with_subsystem(
            subsystem,
            RpcCode::Unavailable,
            m.clone(),
        ),
        ServiceError::BrowserAuthLoad(e) => map_ytmusic_error(subsystem, e),
        ServiceError::YtMusic(e) => map_ytmusic_error(subsystem, e),
        ServiceError::CipherWorkerThreadSpawn(m) => status_with_subsystem(
            subsystem,
            RpcCode::Unavailable,
            m.clone(),
        ),
        ServiceError::CipherWorkerRuntime(m) => status_with_subsystem(
            subsystem,
            RpcCode::Unavailable,
            m.clone(),
        ),
        ServiceError::CipherWorkerInit(e) => map_cipher_error(subsystem, e),
        ServiceError::Cipher(e) => map_cipher_error(subsystem, e),
        ServiceError::CipherWorkerUnavailable => status_with_subsystem(
            subsystem,
            RpcCode::Unavailable,
            String::from_str("cipher worker is unavailable"),
        ),
        ServiceError::CipherOperation(e) => map_cipher_error(subsystem, e),
        ServiceError::Reflection(m) => status_with_subsystem(subsystem, RpcCode::Internal, m.clone()),
        ServiceError::Incoming(m) => status_with_subsystem(
            subsystem,
            RpcCode::Unavailable,
            m.clone(),
        ),
        ServiceError::Transport(m) => status_with_subsystem(
            subsystem,
            RpcCode::Unavailable,
            m.clone(),
        ),
        ServiceError::TestServerReadySignal => status_with_subsystem(
            subsystem,
            RpcCode::Unavailable,
            String::from_str("test server failed to signal readiness"),
        ),
    }
}

/// Every failure is reported with a code other than OK, and carries the
/// subsystem metadata exactly when the subsystem name is a valid metadata
/// value.
pub proof fn lemma_failure_status_shape(subsystem: Seq<char>, error: ServiceError)
    ensures
        service_error_status(subsystem, error).code != RpcCode::Success,
        service_error_status(subsystem, error).subsystem == (if metadata_text_ok(subsystem) {
            Some(subsystem)
        } else {
            None
        }),
{
}

/// A catalogue or cipher failure that reaches the service wrapped as a
/// service failure is reported exactly as the wrapped failure on its own.
pub proof fn lemma_wrapped_failures_report_as_themselves(
    subsystem: Seq<char>,
    e: YtMusicError,
    c: CipherError,
)
    ensures
        service_error_status(subsystem, ServiceError::YtMusic(e)) == ytmusic_error_status(subsystem, e),
        service_error_status(subsystem, ServiceError::BrowserAuthLoad(e)) == ytmusic_error_status(
            subsystem,
            e,
        ),
        service_error_status(subsystem, ServiceError::Cipher(c)) == cipher_error_status(subsystem, c),
        service_error_status(subsystem, ServiceError::CipherWorkerInit(c)) == cipher_error_status(
            subsystem,
            c,
        ),
        service_error_status(subsystem, ServiceError::CipherOperation(c)) == cipher_error_status(
            subsystem,
            c,
        ),
{
}

/// Upstream HTTP statuses are reported by class: 400 as an invalid
/// argument, 401 and 403 as a failed precondition, 404 as not found, 429 as
/// resource exhaustion, every server error (500 to 599) as unavailability,
/// and anything else as unknown.
pub proof fn lemma_http_status_classes(status: u16)
    ensures
        status == 400 ==> http_status_code(status) == RpcCode::InvalidArgument,
        (status == 401 || status == 403) ==> http_status_code(status) == RpcCode::FailedPrecondition,
        status == 404 ==> http_status_code(status) == RpcCode::NotFound,
        status == 429 ==> http_status_code(status) == RpcCode::ResourceExhausted,
        500 <= status <= 599 ==> http_status_code(status) == RpcCode::Unavailable,
        !(status == 400 || status == 401 || status == 403 || status == 404 || status == 429 || (500
            <= status <= 599)) ==> http_status_code(status) == RpcCode::Unknown,
{
}

/// Catalogue failures are reported by what went wrong, with the failure's
/// own text as the message: refused input is an invalid argument; unusable
/// auth a failed precondition; a failed connection or client bootstrap
/// unavailability; a client that could not be built or an answer that could
/// not be read an internal failure; a missing feature unimplemented; an
/// upstream HTTP failure goes by its status class.
pub proof fn lemma_catalogue_failure_categories(subsystem: Seq<char>, e: YtMusicError)
    ensures
        e matches YtMusicError::InvalidInput(m) ==> ytmusic_error_status(subsystem, e).code
            == RpcCode::InvalidArgument && ytmusic_error_status(subsystem, e).message == m@,
        e matches YtMusicError::AuthValidation(m) ==> ytmusic_error_status(subsystem, e).code
            == RpcCode::FailedPrecondition && ytmusic_error_status(subsystem, e).message == m@,
        e matches YtMusicError::AuthFileRead(m) ==> ytmusic_error_status(subsystem, e).code
            == RpcCode::FailedPrecondition && ytmusic_error_status(subsystem, e).message == m@,
        e matches YtMusicError::AuthFileDecode(m) ==> ytmusic_error_status(subsystem, e).code
            == RpcCode::FailedPrecondition && ytmusic_error_status(subsystem, e).message == m@,
        e matches YtMusicError::HttpClientBuild(m) ==> ytmusic_error_status(subsystem, e).code
            == RpcCode::Internal && ytmusic_error_status(subsystem, e).message == m@,
        e matches YtMusicError::HttpTransport(m) ==> ytmusic_error_status(subsystem, e).code
            == RpcCode::Unavailable && ytmusic_error_status(subsystem, e).message == m@,
        e matches YtMusicError::HttpStatus { status, message } ==> ytmusic_error_status(
            subsystem,
            e,
        ).code == http_status_code(status) && ytmusic_error_status(subsystem, e).message
            == message@,
        e matches YtMusicError::JsonDecode(m) ==> ytmusic_error_status(subsystem, e).code
            == RpcCode::Internal && ytmusic_error_status(subsystem, e).message == m@,
        e matches YtMusicError::MissingVisitorId(m) ==> ytmusic_error_status(subsystem, e).code
            == RpcCode::Unavailable && ytmusic_error_status(subsystem, e).message == m@,
        e matches YtMusicError::MissingBootstrapField(field) ==> ytmusic_error_status(
            subsystem,
            e,
        ).code == RpcCode::Unavailable && ytmusic_error_status(subsystem, e).message
            == "failed to bootstrap anonymous client config: missing "@ + field@,
        e matches YtMusicError::Parse(m) ==> ytmusic_error_status(subsystem, e).code
            == RpcCode::Internal && ytmusic_error_status(subsystem, e).message == m@,
        e matches YtMusicError::UnsupportedFeature(m) ==> ytmusic_error_status(subsystem, e).code
            == RpcCode::Unimplemented && ytmusic_error_status(subsystem, e).message == m@,
{
}

/// Cipher failures are reported by kind, with the failure's own text as the
/// message: a malformed cipher is an invalid argument; a missing transform
/// or solver unimplemented; a failed page fetch or runtime start
/// unavailability; anything else an internal failure.
pub proof fn lemma_cipher_failure_categories(subsystem: Seq<char>, c: CipherError)
    ensures
        cipher_error_status(subsystem, c).message == c.message@,
        c.kind == CipherErrorKind::CipherParse ==> cipher_error_status(subsystem, c).code
            == RpcCode::InvalidArgument,
        (c.kind == CipherErrorKind::NTransformUnavailable || c.kind
            == CipherErrorKind::SignatureSolverUnavailable) ==> cipher_error_status(
            subsystem,
            c,
        ).code == RpcCode::Unimplemented,
        (c.kind == CipherErrorKind::HomepageFetch || c.kind == CipherErrorKind::PlayerFetch
            || c.kind == CipherErrorKind::QuickJsRuntimeInitFailed) ==> cipher_error_status(
            subsystem,
            c,
        ).code == RpcCode::Unavailable,
        (c.kind == CipherErrorKind::SignatureDecipherFailed || c.kind == CipherErrorKind::Other)
            ==> cipher_error_status(subsystem, c).code == RpcCode::Internal,
{
}

/// Failures of the service's own setup and transport are reported by kind:
/// bad configuration is a failed precondition, and a listener, worker or
/// transport that failed is unavailability; each keeps its text, and a
/// missing or non-file auth path names the path.
pub proof fn lemma_service_failure_categories(subsystem: Seq<char>, e: ServiceError)
    ensures
        e matches ServiceError::EnvVar { message, .. } ==> service_error_status(subsystem, e).code
            == RpcCode::FailedPrecondition && service_error_status(subsystem, e).message
            == message@,
        e matches ServiceError::BrowserAuthPathMissing(p) ==> service_error_status(
            subsystem,
            e,
        ).code == RpcCode::FailedPrecondition && service_error_status(subsystem, e).message
            == "browser auth file missing: "@ + p@,
        e matches ServiceError::BrowserAuthPathNotFile(p) ==> service_error_status(
            subsystem,
            e,
        ).code == RpcCode::FailedPrecondition && service_error_status(subsystem, e).message
            == "browser auth path is not a file: "@ + p@,
        e matches ServiceError::InvalidSocketAddress(m) ==> service_error_status(subsystem, e).code
            == RpcCode::FailedPrecondition && service_error_status(subsystem, e).message == m@,
        e matches ServiceError::InvalidRpcTimeoutMs { reason, .. } ==> service_error_status(
            subsystem,
            e,
        ).code == RpcCode::FailedPrecondition && service_error_status(subsystem, e).message
            == reason@,
        e matches ServiceError::ListenerBind(m) ==> service_error_status(subsystem, e).code
            == RpcCode::Unavailable && service_error_status(subsystem, e).message == m@,
        e matches ServiceError::ListenerLocalAddr(m) ==> service_error_status(subsystem, e).code
            == RpcCode::Unavailable && service_error_status(subsystem, e).message == m@,
        e matches ServiceError::CipherWorkerThreadSpawn(m) ==> service_error_status(
            subsystem,
            e,
        ).code == RpcCode::Unavailable && service_error_status(subsystem, e).message == m@,
        e matches ServiceError::CipherWorkerRuntime(m) ==> service_error_status(subsystem, e).code
            == RpcCode::Unavailable && service_error_status(subsystem, e).message == m@,
        e is CipherWorkerUnavailable ==> service_error_status(subsystem, e).code
            == RpcCode::Unavailable && service_error_status(subsystem, e).message
            == "cipher worker is unavailable"@,
        e matches ServiceError::Reflection(m) ==> service_error_status(subsystem, e).code
            == RpcCode::Internal && service_error_status(subsystem, e).message == m@,
        e matches ServiceError::Incoming(m) ==> service_error_status(subsystem, e).code
            == RpcCode::Unavailable && service_error_status(subsystem, e).message == m@,
        e matches ServiceError::Transport(m) ==> service_error_status(subsystem, e).code
            == RpcCode::Unavailable && service_error_status(subsystem, e).message == m@,
        e is TestServerReadySignal ==> service_error_status(subsystem, e).code
            == RpcCode::Unavailable && service_error_status(subsystem, e).message
            == "test server failed to signal readiness"@,
{
}

} // verus!
