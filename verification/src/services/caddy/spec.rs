//! Caddy backend configuration and response wrappers.
use vstd::prelude::*;

verus! {

/// Caddy major version this library targets.
pub const SUPPORTED_CADDY_MAJOR: u64 = 2;

/// Where Caddy's admin API listens.
#[derive(Debug, Clone)]
pub enum CaddyAdminEndpoint {
    Http { base_url: String },
    UnixSocket { socket_path: String },
}

/// Caddy admin API configuration.
#[derive(Debug, Clone)]
pub struct CaddyAdminSpec {
    pub endpoint: CaddyAdminEndpoint,
}

impl CaddyAdminSpec {
    /// A spec for `endpoint`.
    pub fn new(endpoint: CaddyAdminEndpoint) -> (s: Self)
        ensures
            s.endpoint == endpoint,
    {
        CaddyAdminSpec { endpoint }
    }

    /// The default admin endpoint, `http://localhost:2019`.
    pub fn localhost_default() -> (s: Self)
        ensures
            s.endpoint matches CaddyAdminEndpoint::Http { base_url } && base_url@
                == "http://localhost:2019"@,
    {
        CaddyAdminSpec {
            endpoint: CaddyAdminEndpoint::Http { base_url: "http://localhost:2019".to_owned() },
        }
    }

    /// The admin API at an HTTP base URL.
    pub fn http(base_url: &str) -> (s: Self)
        ensures
            s.endpoint matches CaddyAdminEndpoint::Http { base_url: b } && b@ == base_url@,
    {
        CaddyAdminSpec { endpoint: CaddyAdminEndpoint::Http { base_url: base_url.to_owned() } }
    }

    /// The admin API on a Unix socket.
    pub fn unix_socket(socket_path: &str) -> (s: Self)
        ensures
            s.endpoint matches CaddyAdminEndpoint::UnixSocket { socket_path: p } && p@
                == socket_path@,
    {
        CaddyAdminSpec {
            endpoint: CaddyAdminEndpoint::UnixSocket { socket_path: socket_path.to_owned() },
        }
    }
}

/// Caddy CLI configuration.
#[derive(Debug, Clone)]
pub struct CaddyCliSpec {
    /// caddy executable name or path.
    pub binary: String,
}

impl CaddyCliSpec {
    /// The default CLI spec: `caddy`.
    pub fn new() -> (s: Self)
        ensures
            s.binary@ == "caddy"@,
    {
        CaddyCliSpec { binary: "caddy".to_owned() }
    }

    /// Set the caddy executable.
    pub fn binary(self, binary: &str) -> (s: Self)
        ensures
            s.binary@ == binary@,
    {
        CaddyCliSpec { binary: binary.to_owned() }
    }
}

/// Metadata describing which Caddy backend produced a response.
#[derive(Debug, Clone)]
pub enum CaddyBackendUsed {
    Http { base_url: String },
    UnixSocket { socket_path: String },
    Cli { binary: String },
}

/// Response wrapper for Caddy operations with data.
#[derive(Debug, Clone)]
pub struct CaddyResponse<T> {
    pub backend: CaddyBackendUsed,
    pub data: T,
}

/// Response wrapper for successful Caddy operations with no body.
#[derive(Debug, Clone)]
pub struct CaddyEmptyResponse {
    pub backend: CaddyBackendUsed,
}

/// The configuration ids Caddy reports.
#[derive(Debug, Clone)]
pub struct CaddyIdList {
    pub ids: Vec<String>,
}

/// What a Caddy CLI command printed.
#[derive(Debug, Clone)]
pub struct CaddyCliOutput {
    pub stdout: String,
    pub stderr: String,
}

} // verus!
