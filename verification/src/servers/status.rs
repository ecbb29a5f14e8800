//! The service-status report.

use vstd::prelude::*;

use crate::clock::{secs_since_unix_epoch, unix_secs, UnixTime};
use crate::wire_v2::GetStatusResponse;

verus! {

/// The status service: when the process started, where it listens, and
/// which build it is.
pub struct StatusService {
    pub started_at: UnixTime,
    pub listen_addr: String,
    pub version: String,
}

impl StatusService {
    /// The report: the build version and listener address as configured,
    /// the start time in whole seconds since the epoch (zero before it),
    /// both subsystems ready, and the lifecycle `serving`.
    pub fn get_status(&self) -> (r: GetStatusResponse)
        ensures
            r.version@ == self.version@,
            r.started_at_unix_seconds == unix_secs(self.started_at),
            r.listen_addr@ == self.listen_addr@,
            r.ytmusic_ready,
            r.cipher_ready,
            r.lifecycle@ == "serving"@,
    {
        GetStatusResponse {
            version: self.version.clone(),
            started_at_unix_seconds: secs_since_unix_epoch(&self.started_at),
            listen_addr: self.listen_addr.clone(),
            ytmusic_ready: true,
            cipher_ready: true,
            lifecycle: String::from_str("serving"),
        }
    }
}

} // verus!
