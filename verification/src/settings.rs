//! The gateway's configuration, constructed at startup and passed by
//! reference into each component; no component reads ambient state.
//!
//! Loading these values from the process environment is the job of the
//! unverified binary around this crate.

use vstd::prelude::*;
use crate::decimal::{spec_decimal, u64_to_decimal};

verus! {

/// The gateway's settings.
#[derive(Debug, Clone)]
pub struct Settings {
    /// The port to bind the http server to. Defaults to 4000.
    pub port: u16,
    /// The public url of the server. Defaults to http://localhost:4000.
    pub public_url: String,
    /// The host to allow for CORS. Defaults to localhost:3000.
    /// Set to "*" to allow all hosts.
    pub cors_host: String,
    /// The upstream provider's API key. Required.
    pub openai_api_key: String,
    /// The models to allow for chat completions. An empty list allows
    /// every model.
    pub allowed_models: Vec<String>,
    /// The upstream provider's organization ID. Optional.
    pub openai_org_id: Option<String>,
    /// The shared secret for HS256 token validation. Required.
    pub hs256_secret: String,
    /// The rate limit settings. When not set, rate limiting is disabled
    /// and every request passes the admission gate.
    pub rate_limit: Option<RateLimitSettings>,
}

/// Settings for the sliding-window rate limiter.
#[derive(Debug, Clone)]
pub struct RateLimitSettings {
    /// The number of requests allowed in the timeframe.
    pub limit: usize,
    /// How often the sliding window resets, in seconds.
    pub timeframe_seconds: usize,
    /// The address of the shared counter store.
    pub redis_url: String,
}

impl Settings {
    /// The address to bind the http server to: `0.0.0.0` with the
    /// configured port.
    pub fn bind_addr(&self) -> (r: String)
        ensures
            r@ == "0.0.0.0:"@ + spec_decimal(self.port as nat),
    {
        let mut s = "0.0.0.0:".to_owned();
        s.append(u64_to_decimal(self.port as u64).as_str());
        s
    }

    /// The port used when none is configured.
    pub fn default_port() -> (r: u16)
        ensures
            r == 4000,
    {
        4000
    }

    /// The public url used when none is configured: localhost at the
    /// default port.
    pub fn default_public_url() -> (r: String)
        ensures
            r@ == "http://localhost:"@ + spec_decimal(4000),
    {
        let mut s = "http://localhost:".to_owned();
        s.append(u64_to_decimal(Self::default_port() as u64).as_str());
        s
    }

    /// The CORS host used when none is configured.
    pub fn default_cors_host() -> (r: String)
        ensures
            r@ == "http://localhost:3000"@,
    {
        "http://localhost:3000".to_owned()
    }
}

} // verus!
