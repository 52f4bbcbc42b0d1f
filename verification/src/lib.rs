//! Core logic of a minimal status/health HTTP service: configuration
//! resolution from environment values, classification of dependency liveness
//! probes, fixed-shape JSON response bodies, and the TLS-vs-plaintext
//! listener decision.

pub mod bootstrap;
pub mod config;
pub mod probe;
pub mod response;
pub mod status;
