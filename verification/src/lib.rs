//! Verified core of the ytmusic gRPC service: request validation, status
//! mapping, configuration decisions, auth-context reload decisions and the
//! translation of upstream music models into wire messages.

pub mod status;
pub mod text;
pub mod error;
pub mod requests;
pub mod config;
pub mod clock;
pub mod auth;
pub mod seqmap;
pub mod catalogue;
pub mod wire;
pub mod mapping;
pub mod wire_v2;
pub mod music_mapping;
pub mod mapping_laws;
pub mod adapters;
pub mod servers;
pub mod client;
pub mod v1;
