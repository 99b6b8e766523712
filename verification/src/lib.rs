//! Credential and session security core for a small tournament-planning
//! web backend: validated value types, password hashing and verification,
//! authentication, session-bound identity, the password-change workflow,
//! and bounded retry-with-backoff for outbound email delivery.

pub mod authentication;
pub mod domain;
pub mod email_client;
pub mod error;
pub mod routes;
pub mod session_state;
pub mod telemetry;
pub mod utils;
