//! The signature-cipher service.

use vstd::prelude::*;

use crate::error::{map_service_error, service_error_status, ServiceError};
use crate::requests::{invalid_argument_view, required_non_empty};
use crate::status::{RpcStatus, CIPHER_SUBSYSTEM};
use crate::text::is_blank_text;

verus! {

/// A request to turn a stream's signature cipher into a playable URL.
#[derive(Debug)]
pub struct DecipherRequest {
    pub signature_cipher: String,
}

/// The signature-cipher service.
pub struct CipherService;

impl CipherService {
    /// Validates a decipher request: a blank signature cipher is refused,
    /// any other is handed to the cipher unchanged.
    pub fn decipher_request(request: DecipherRequest) -> (r: Result<String, RpcStatus>)
        ensures
            is_blank_text(request.signature_cipher@) ==> (r matches Err(status) && status@
                == invalid_argument_view("signature_cipher must not be empty"@)),
            !is_blank_text(request.signature_cipher@) ==> r == Ok::<String, RpcStatus>(
                request.signature_cipher,
            ),
    {
        required_non_empty(request.signature_cipher, "signature_cipher must not be empty")
    }

    /// The status with which a failure of the cipher is answered, tagged
    /// with the cipher subsystem.
    pub fn failure_status(error: &ServiceError) -> (r: RpcStatus)
        ensures
            r@ == service_error_status(CIPHER_SUBSYSTEM@, *error),
    {
        map_service_error(CIPHER_SUBSYSTEM, error)
    }
}

} // verus!
