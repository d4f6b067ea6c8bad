//! LDAP specification and configuration types.
use vstd::prelude::*;

use crate::data::time::Duration;

verus! {

/// LDAP client response wrapper for read/query operations.
#[derive(Debug, Clone)]
pub struct LdapResponse<T> {
    /// Response data
    pub data: T,
    /// Backend metadata (server type, TLS mode, auth method, timing)
    pub backend_used: LdapBackendUsed,
}

impl<T> LdapResponse<T> {
    /// A response with data and backend metadata.
    pub fn new(data: T, backend_used: LdapBackendUsed) -> (r: Self)
        ensures
            r.data == data,
            r.backend_used == backend_used,
    {
        LdapResponse { data, backend_used }
    }
}

/// LDAP response wrapper for mutation operations that return no body.
#[derive(Debug, Clone)]
pub struct LdapEmptyResponse {
    /// Backend metadata (server type, TLS mode, auth method, timing)
    pub backend_used: LdapBackendUsed,
}

impl LdapEmptyResponse {
    /// An empty response with backend metadata.
    pub fn new(backend_used: LdapBackendUsed) -> (r: Self)
        ensures
            r.backend_used == backend_used,
    {
        LdapEmptyResponse { backend_used }
    }
}

/// Backend metadata tracking.
#[derive(Debug, Clone)]
pub struct LdapBackendUsed {
    /// Detected LDAP server type.
    pub server_type: ServerType,
    /// TLS mode used for connection.
    pub tls_mode_used: TlsMode,
    /// Authentication method used.
    pub auth_method_used: String,
    /// Connection time in milliseconds.
    pub connection_time_ms: u64,
}

/// Detected LDAP server type.
#[derive(Debug, Clone, Copy, PartialEq, Eq, Structural)]
pub enum ServerType {
    /// OpenLDAP (slapd)
    OpenLDAP,
    /// 389 Directory Server
    DirectoryServer389,
    /// Microsoft Active Directory
    ActiveDirectory,
    /// Unknown or generic LDAP server
    Unknown,
}

impl ServerType {
    /// The server type's display name.
    pub fn to_string(&self) -> (s: String)
        ensures
            s@ == match self {
                ServerType::OpenLDAP => "OpenLDAP"@,
                ServerType::DirectoryServer389 => "389 Directory Server"@,
                ServerType::ActiveDirectory => "Active Directory"@,
                ServerType::Unknown => "Unknown"@,
            },
    {
        match self {
            ServerType::OpenLDAP => "OpenLDAP".to_owned(),
            ServerType::DirectoryServer389 => "389 Directory Server".to_owned(),
            ServerType::ActiveDirectory => "Active Directory".to_owned(),
            ServerType::Unknown => "Unknown".to_owned(),
        }
    }
}

/// TLS mode for LDAP connection.
#[derive(Debug, Clone, Copy, PartialEq, Eq, Structural)]
pub enum TlsMode {
    /// No encryption (development/local only)
    NoTls,
    /// StartTLS (upgrade after initial connection)
    StartTLS,
    /// LDAPS (implicit TLS from connection start)
    LDAPS,
}

impl TlsMode {
    /// The mode's display name.
    pub fn to_string(&self) -> (s: String)
        ensures
            s@ == match self {
                TlsMode::NoTls => "None"@,
                TlsMode::StartTLS => "StartTLS"@,
                TlsMode::LDAPS => "LDAPS"@,
            },
    {
        match self {
            TlsMode::NoTls => "None".to_owned(),
            TlsMode::StartTLS => "StartTLS".to_owned(),
            TlsMode::LDAPS => "LDAPS".to_owned(),
        }
    }
}

/// LDAP authentication method.
#[derive(Debug, Clone)]
pub enum LdapAuthMethod {
    /// Simple bind (DN + password).
    Simple {
        /// Bind DN (e.g., "cn=admin,dc=example,dc=com")
        bind_dn: String,
        /// Password (never logged)
        password: String,
    },
    /// Anonymous bind (no credentials).
    Anonymous,
}

/// The name of an authentication method.
pub open spec fn auth_method_name(a: LdapAuthMethod) -> Seq<char> {
    match a {
        LdapAuthMethod::Simple { .. } => "simple"@,
        LdapAuthMethod::Anonymous => "anonymous"@,
    }
}

impl LdapAuthMethod {
    /// The method's name: `simple` or `anonymous`.
    pub fn to_string(&self) -> (s: String)
        ensures
            s@ == auth_method_name(*self),
    {
        match self {
            LdapAuthMethod::Simple { .. } => "simple".to_owned(),
            LdapAuthMethod::Anonymous => "anonymous".to_owned(),
        }
    }
}

/// LDAP connection specification.
#[derive(Debug, Clone)]
pub struct LdapSpec {
    /// LDAP URI (ldap://, ldaps://, or ldapi://)
    pub uri: String,
    /// Authentication method
    pub auth: LdapAuthMethod,
    /// TLS mode
    pub tls_mode: TlsMode,
    /// CA certificate path or PEM (required in production)
    pub ca_certificate: Option<String>,
    /// Verify server certificate (true in production)
    pub verify_certificate: bool,
    /// Connection timeout
    pub connect_timeout: Duration,
    /// Operation timeout
    pub operation_timeout: Duration,
    /// Page size for paged results (default: 500)
    pub page_size: Option<usize>,
}

impl LdapSpec {
    /// A specification with defaults: no TLS, no CA certificate, no
    /// verification, 5 s to connect, 30 s per operation, pages of 500.
    pub fn new(uri: String, auth: LdapAuthMethod) -> (s: Self)
        ensures
            s.uri == uri,
            s.auth == auth,
            s.tls_mode == TlsMode::NoTls,
            s.ca_certificate is None,
            !s.verify_certificate,
            s.connect_timeout.secs_spec() == 5 && s.connect_timeout.nanos_spec() == 0,
            s.operation_timeout.secs_spec() == 30 && s.operation_timeout.nanos_spec() == 0,
            s.page_size == Some(500usize),
    {
        LdapSpec {
            uri,
            auth,
            tls_mode: TlsMode::NoTls,
            ca_certificate: None,
            verify_certificate: false,
            connect_timeout: Duration::from_secs(5),
            operation_timeout: Duration::from_secs(30),
            page_size: Some(500),
        }
    }

    /// Set TLS mode.
    pub fn with_tls_mode(self, tls_mode: TlsMode) -> (s: Self)
        ensures
            s == (LdapSpec { tls_mode, ..self }),
    {
        LdapSpec { tls_mode, ..self }
    }

    /// Set CA certificate path.
    pub fn with_ca_certificate(self, ca_cert: String) -> (s: Self)
        ensures
            s == (LdapSpec { ca_certificate: Some(ca_cert), ..self }),
    {
        LdapSpec { ca_certificate: Some(ca_cert), ..self }
    }

    /// Enable or disable certificate verification.
    pub fn with_verify_certificate(self, verify: bool) -> (s: Self)
        ensures
            s == (LdapSpec { verify_certificate: verify, ..self }),
    {
        LdapSpec { verify_certificate: verify, ..self }
    }

    /// Set connection timeout.
    pub fn with_connect_timeout(self, timeout: Duration) -> (s: Self)
        ensures
            s == (LdapSpec { connect_timeout: timeout, ..self }),
    {
        LdapSpec { connect_timeout: timeout, ..self }
    }

    /// Set operation timeout.
    pub fn with_operation_timeout(self, timeout: Duration) -> (s: Self)
        ensures
            s == (LdapSpec { operation_timeout: timeout, ..self }),
    {
        LdapSpec { operation_timeout: timeout, ..self }
    }

    /// Set page size for paged results.
    pub fn with_page_size(self, size: usize) -> (s: Self)
        ensures
            s == (LdapSpec { page_size: Some(size), ..self }),
    {
        LdapSpec { page_size: Some(size), ..self }
    }
}

} // verus!
