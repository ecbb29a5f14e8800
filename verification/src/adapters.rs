//! The seam between the music catalogue client and the service: every
//! upstream failure reaches the service as `ServiceError::YtMusic`.

use vstd::prelude::*;

use crate::error::{ServiceError, YtMusicError};

verus! {

/// Calls into the music catalogue client on behalf of the RPC handlers.
pub struct YtMusicAdapter;

impl YtMusicAdapter {
    /// The outcome of an upstream call as the service sees it: a result is
    /// passed through unchanged, a failure is wrapped as a catalogue failure.
    pub fn lift_upstream<T>(outcome: Result<T, YtMusicError>) -> (r: Result<T, ServiceError>)
        ensures
            match outcome {
                Ok(v) => r == Ok::<T, ServiceError>(v),
                Err(e) => r == Err::<T, ServiceError>(ServiceError::YtMusic(e)),
            },
    {
        match outcome {
            Ok(v) => Ok(v),
            Err(e) => Err(ServiceError::YtMusic(e)),
        }
    }
}

} // verus!
