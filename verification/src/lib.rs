//! A verified core for an HTTP gateway that fronts a text-completion
//! provider: bearer-credential authentication, sliding-window rate
//! limiting over a TTL counter store, model allow-list validation,
//! and relay of upstream responses (single document or event stream).
//!
//! Network I/O (the HTTP server, the shared counter store, the upstream
//! client) lives outside this crate; the logic here is pure and carries
//! contracts for every public function.

pub mod auth;
pub mod conversion;
pub mod decimal;
pub mod errors;
pub mod limiter;
pub mod pipeline;
pub mod relay;
pub mod settings;
pub mod store;
