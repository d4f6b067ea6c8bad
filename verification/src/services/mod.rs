//! Clients for local and system services: what to ask each service and how
//! to read what it answers.
pub mod caddy;
pub mod docker;
pub mod http;
pub mod ldap;
pub mod podman;
pub mod technitium;
pub mod systemd;
