//! Caddy integration: the admin API (over HTTP or a Unix socket) and the
//! `caddy` command line.
pub mod admin;
pub mod cli;
pub mod spec;
pub mod types;

pub use admin::CaddyAdminClient;
pub use cli::CaddyCliClient;
pub use types::{CaddyConfig, CaddyHandler, CaddySiteConfig};
pub use spec::{
    CaddyAdminEndpoint, CaddyAdminSpec, CaddyBackendUsed, CaddyCliOutput, CaddyCliSpec,
    CaddyEmptyResponse, CaddyIdList, CaddyResponse, SUPPORTED_CADDY_MAJOR,
};
