//! The administrative reload of browser auth.

use vstd::prelude::*;

use crate::error::{map_service_error, service_error_status, ServiceError};
use crate::status::{RpcStatus, MUSIC_SUBSYSTEM};

verus! {

/// Marks the administrative surface, which offers nothing beyond the auth
/// reload.
pub const PLACEHOLDER_MESSAGE: &'static str = "admin service placeholder";

/// The administrative service.
pub struct AdminService;

impl AdminService {
    /// The status with which a failed reload is answered; the failure comes
    /// from loading browser auth into the music client, so it is reported
    /// under that subsystem.
    pub fn reload_failure_status(error: &ServiceError) -> (r: RpcStatus)
        ensures
            r@ == service_error_status(MUSIC_SUBSYSTEM@, *error),
    {
        map_service_error(MUSIC_SUBSYSTEM, error)
    }
}

} // verus!
