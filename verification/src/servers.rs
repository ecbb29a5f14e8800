//! The request-side and failure-side decisions of the gRPC services.

pub mod admin;
pub mod cipher;
pub mod music;
pub mod status;
