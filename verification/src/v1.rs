//! The first revision of the service, which served the public API and the
//! administrative API on two listeners.

pub mod config;
