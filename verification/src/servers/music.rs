//! The music catalogue service.

use vstd::prelude::*;

use crate::error::{map_service_error, service_error_status, ServiceError};
use crate::requests::{invalid_argument_view, required_non_empty};
use crate::status::{RpcStatus, MUSIC_SUBSYSTEM};
use crate::text::is_blank_text;

verus! {

/// A request for the metadata of one song.
#[derive(Debug)]
pub struct GetSongRequest {
    pub video_id: String,
}

/// The music catalogue service.
pub struct MusicService;

impl MusicService {
    /// Validates a song request: a blank video id is refused, any other is
    /// looked up unchanged.
    pub fn get_song_request(request: GetSongRequest) -> (r: Result<String, RpcStatus>)
        ensures
            is_blank_text(request.video_id@) ==> (r matches Err(status) && status@
                == invalid_argument_view("video_id must not be empty"@)),
            !is_blank_text(request.video_id@) ==> r == Ok::<String, RpcStatus>(request.video_id),
    {
        required_non_empty(request.video_id, "video_id must not be empty")
    }

    /// The status with which a failure behind a music request is answered,
    /// tagged with the music subsystem.
    pub fn failure_status(error: &ServiceError) -> (r: RpcStatus)
        ensures
            r@ == service_error_status(MUSIC_SUBSYSTEM@, *error),
    {
        map_service_error(MUSIC_SUBSYSTEM, error)
    }
}

} // verus!
