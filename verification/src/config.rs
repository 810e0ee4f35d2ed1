//! Runtime configuration: the deployment environment and the settings the
//! service starts with. Reading the process environment happens outside the
//! library; this module holds the shapes and the parsing rules.

use vstd::prelude::*;
use vstd::string::StringSliceAdditionalSpecFns;

use crate::text::{ascii_lower, eq_ignore_ascii};

verus! {

/// Deployment environment.
#[derive(Debug, Clone, Copy, PartialEq, Eq, Structural)]
pub enum Environment {
    Dev,
    Staging,
    Prod,
}

impl Environment {
    /// The environment a configuration value names, compared without regard
    /// to ASCII letter case; anything unrecognized means `Dev`.
    pub open spec fn spec_from_str(s: &str) -> Environment {
        let l = ascii_lower(s.spec_bytes());
        if l == ascii_lower("prod".spec_bytes()) || l == ascii_lower("production".spec_bytes()) {
            Environment::Prod
        } else if l == ascii_lower("staging".spec_bytes()) {
            Environment::Staging
        } else {
            Environment::Dev
        }
    }

    /// Parses an environment name: `prod`/`production` and `staging` in any
    /// ASCII letter case; everything else falls back to `Dev`.
    pub fn from_str(s: &str) -> (r: Self)
        ensures
            r == Environment::spec_from_str(s),
    {
        if eq_ignore_ascii(s, "prod") || eq_ignore_ascii(s, "production") {
            Environment::Prod
        } else if eq_ignore_ascii(s, "staging") {
            Environment::Staging
        } else {
            Environment::Dev
        }
    }

    /// Whether this is the development environment.
    pub fn is_dev(&self) -> (r: bool)
        ensures
            r == (*self == Environment::Dev),
    {
        match self {
            Environment::Dev => true,
            _ => false,
        }
    }

    /// Whether this is the production environment.
    pub fn is_prod(&self) -> (r: bool)
        ensures
            r == (*self == Environment::Prod),
    {
        match self {
            Environment::Prod => true,
            _ => false,
        }
    }
}

/// Service settings, assembled from the process environment by the host
/// program.
#[derive(Debug, Clone, PartialEq, Eq)]
pub struct Settings {
    pub env: Environment,
    pub server_addr: String,
    pub database_url: String,
    pub database_max_connections: u32,
    pub redis_url: String,
    pub redis_cache_ttl_seconds: u64,
    pub cors_allow_origins: Vec<String>,
    pub supabase_jwt_jwks_url: String,
    pub supabase_jwt_issuer: String,
    pub supabase_jwt_audience: String,
    pub jwks_cache_ttl_seconds: u64,
    pub ai_service_url: String,
    pub ai_service_token: String,
    pub ai_service_timeout_seconds: u64,
    pub supabase_url: String,
    pub supabase_anon_key: String,
    pub supabase_service_role_key: String,
}

} // verus!
