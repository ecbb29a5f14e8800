//! How a client classifies the statuses it receives.

use vstd::prelude::*;

use crate::status::{is_visible_ascii_text, visible_ascii_text, RpcCode, RpcStatus, RpcStatusView};

pub use crate::wire_v2 as v2;

verus! {

/// A status received by a client.
#[derive(Debug)]
pub struct ClientStatus(RpcStatus);

impl View for ClientStatus {
    type V = RpcStatusView;

    closed spec fn view(&self) -> RpcStatusView {
        self.0@
    }
}

impl ClientStatus {
    /// Wraps a received status.
    pub fn from(status: RpcStatus) -> (r: ClientStatus)
        ensures
            r@ == status@,
    {
        ClientStatus(status)
    }

    /// The status code.
    pub fn code(&self) -> (r: RpcCode)
        ensures
            r == self@.code,
    {
        self.0.code
    }

    /// The status message.
    pub fn message(&self) -> (r: &str)
        ensures
            r@ == self@.message,
    {
        self.0.message.as_str()
    }

    /// The subsystem that the server named, if any, when it reads back as
    /// text: a value holding anything but tabs and printable ASCII is
    /// reported as absent.
    pub fn subsystem(&self) -> (r: Option<&str>)
        ensures
            match self@.subsystem {
                Some(t) => if visible_ascii_text(t) {
                    r matches Some(s) && s@ == t
                } else {
                    r is None
                },
                None => r is None,
            },
    {
        match &self.0.subsystem {
            Some(s) => {
                if is_visible_ascii_text(s.as_str()) {
                    Some(s.as_str())
                } else {
                    None
                }
            },
            None => None,
        }
    }

    /// Whether the request itself was refused.
    pub fn is_invalid_argument(&self) -> (r: bool)
        ensures
            r == (self@.code == RpcCode::InvalidArgument),
    {
        self.code() == RpcCode::InvalidArgument
    }

    /// Whether a precondition of the service (such as its auth) failed.
    pub fn is_failed_precondition(&self) -> (r: bool)
        ensures
            r == (self@.code == RpcCode::FailedPrecondition),
    {
        self.code() == RpcCode::FailedPrecondition
    }

    /// Whether the service or an upstream was unavailable.
    pub fn is_unavailable(&self) -> (r: bool)
        ensures
            r == (self@.code == RpcCode::Unavailable),
    {
        self.code() == RpcCode::Unavailable
    }

    /// Whether the service failed internally.
    pub fn is_internal(&self) -> (r: bool)
        ensures
            r == (self@.code == RpcCode::Internal),
    {
        self.code() == RpcCode::Internal
    }

    /// Whether the call is not implemented.
    pub fn is_unimplemented(&self) -> (r: bool)
        ensures
            r == (self@.code == RpcCode::Unimplemented),
    {
        self.code() == RpcCode::Unimplemented
    }
}

} // verus!
