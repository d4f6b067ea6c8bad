//! Error type and result alias used by Veltrix helpers.
use vstd::prelude::*;
use vstd::std_specs::convert::FromSpecImpl;

use crate::text::{decimal, decimal_string, extend_chars, extend_str, string_of};

verus! {

/// `std::io::Error`, carried through unchanged inside [`VeltrixError::Io`].
#[verifier::external_type_specification]
#[verifier::external_body]
pub struct ExIoError(std::io::Error);

/// Result alias with [`VeltrixError`] as the error.
pub type Result<T> = std::result::Result<T, VeltrixError>;

/// Errors reported by Veltrix helpers.
#[derive(Debug)]
pub enum VeltrixError {
    /// I/O operation failed.
    Io { source: std::io::Error },
    /// Required environment variable is not set.
    EnvMissing { name: String },
    /// Environment variable holds an unusable value.
    EnvInvalid { name: String, reason: String },
    /// Config is invalid.
    ConfigInvalid { reason: String },
    /// Path is invalid for the requested operation.
    InvalidPath { path: String, reason: String },
    /// An input value failed validation.
    Validation { field: String, reason: String },
    /// Text could not be parsed.
    Parsing { reason: String },
    /// An external service reported a failure.
    Service { service: String, reason: String },
    /// A socket operation failed.
    Socket { reason: String },
    /// An HTTP request returned a failure status.
    Http { status: u16, reason: String },
    /// Authentication failed.
    Auth { reason: String },
}

/// The text of an I/O error (`Display` of `std::io::Error`).
#[verifier::external_body]
fn io_error_text(e: &std::io::Error) -> String {
    format!("{}", e)
}

impl VeltrixError {
    /// Required environment variable is not set.
    pub fn env_missing(name: &str) -> (e: Self)
        ensures
            e matches VeltrixError::EnvMissing { name: n } && n@ == name@,
    {
        VeltrixError::EnvMissing { name: name.to_owned() }
    }

    /// Environment variable holds an unusable value.
    pub fn env_invalid(name: &str, reason: &str) -> (e: Self)
        ensures
            e matches VeltrixError::EnvInvalid { name: n, reason: r } && n@ == name@ && r@
                == reason@,
    {
        VeltrixError::EnvInvalid { name: name.to_owned(), reason: reason.to_owned() }
    }

    /// Config is invalid.
    pub fn config_invalid(reason: &str) -> (e: Self)
        ensures
            e matches VeltrixError::ConfigInvalid { reason: r } && r@ == reason@,
    {
        VeltrixError::ConfigInvalid { reason: reason.to_owned() }
    }

    /// Path is invalid for the requested operation.
    pub fn invalid_path(path: &str, reason: &str) -> (e: Self)
        ensures
            e matches VeltrixError::InvalidPath { path: p, reason: r } && p@ == path@ && r@
                == reason@,
    {
        VeltrixError::InvalidPath { path: path.to_owned(), reason: reason.to_owned() }
    }

    /// An input value failed validation.
    pub fn validation(field: &str, reason: &str) -> (e: Self)
        ensures
            e matches VeltrixError::Validation { field: f, reason: r } && f@ == field@ && r@
                == reason@,
    {
        VeltrixError::Validation { field: field.to_owned(), reason: reason.to_owned() }
    }

    /// Text could not be parsed.
    pub fn parsing(reason: &str) -> (e: Self)
        ensures
            e matches VeltrixError::Parsing { reason: r } && r@ == reason@,
    {
        VeltrixError::Parsing { reason: reason.to_owned() }
    }

    /// An external service reported a failure.
    pub fn service(service: &str, reason: &str) -> (e: Self)
        ensures
            e matches VeltrixError::Service { service: s, reason: r } && s@ == service@ && r@
                == reason@,
    {
        VeltrixError::Service { service: service.to_owned(), reason: reason.to_owned() }
    }

    /// A socket operation failed.
    pub fn socket(reason: &str) -> (e: Self)
        ensures
            e matches VeltrixError::Socket { reason: r } && r@ == reason@,
    {
        VeltrixError::Socket { reason: reason.to_owned() }
    }

    /// An HTTP request returned a failure status.
    pub fn http(status: u16, reason: &str) -> (e: Self)
        ensures
            e matches VeltrixError::Http { status: s, reason: r } && s == status && r@ == reason@,
    {
        VeltrixError::Http { status, reason: reason.to_owned() }
    }

    /// Authentication failed.
    pub fn auth(reason: &str) -> (e: Self)
        ensures
            e matches VeltrixError::Auth { reason: r } && r@ == reason@,
    {
        VeltrixError::Auth { reason: reason.to_owned() }
    }

    /// Whether this is an I/O error.
    pub open spec fn is_io(&self) -> bool {
        self is Io
    }

    /// The message of every error other than [`VeltrixError::Io`].
    pub open spec fn message_spec(&self) -> Seq<char> {
        match self {
            VeltrixError::Io { .. } => "io failed: "@,
            VeltrixError::EnvMissing { name } => "missing environment variable `"@ + name@ + "`"@,
            VeltrixError::EnvInvalid { name, reason } => "invalid environment variable `"@
                + name@ + "`: "@ + reason@,
            VeltrixError::ConfigInvalid { reason } => "invalid config: "@ + reason@,
            VeltrixError::InvalidPath { path, reason } => "invalid path `"@ + path@ + "`: "@
                + reason@,
            VeltrixError::Validation { field, reason } => "invalid "@ + field@ + ": "@ + reason@,
            VeltrixError::Parsing { reason } => "parse error: "@ + reason@,
            VeltrixError::Service { service, reason } => service@ + " service failed: "@
                + reason@,
            VeltrixError::Socket { reason } => "socket error: "@ + reason@,
            VeltrixError::Http { status, reason } => "HTTP "@ + decimal(*status as nat) + ": "@
                + reason@,
            VeltrixError::Auth { reason } => "authentication failed: "@ + reason@,
        }
    }

    /// The human-readable message of this error.
    ///
    /// For an I/O error it is `io failed: ` followed by the I/O error's own text.
    pub fn to_string(&self) -> (s: String)
        ensures
            !self.is_io() ==> s@ == self.message_spec(),
            self.is_io() ==> crate::text::has_prefix(s@, "io failed: "@),
    {
        let mut v: Vec<char> = Vec::new();
        match self {
            VeltrixError::Io { source } => {
                extend_str(&mut v, "io failed: ");
                let t = io_error_text(source);
                extend_str(&mut v, t.as_str());
                proof {
                    assert(v@.subrange(0, "io failed: "@.len() as int) =~= "io failed: "@);
                }
            },
            VeltrixError::EnvMissing { name } => {
                extend_str(&mut v, "missing environment variable `");
                extend_str(&mut v, name.as_str());
                extend_str(&mut v, "`");
            },
            VeltrixError::EnvInvalid { name, reason } => {
                extend_str(&mut v, "invalid environment variable `");
                extend_str(&mut v, name.as_str());
                extend_str(&mut v, "`: ");
                extend_str(&mut v, reason.as_str());
            },
            VeltrixError::ConfigInvalid { reason } => {
                extend_str(&mut v, "invalid config: ");
                extend_str(&mut v, reason.as_str());
            },
            VeltrixError::InvalidPath { path, reason } => {
                extend_str(&mut v, "invalid path `");
                extend_str(&mut v, path.as_str());
                extend_str(&mut v, "`: ");
                extend_str(&mut v, reason.as_str());
            },
            VeltrixError::Validation { field, reason } => {
                extend_str(&mut v, "invalid ");
                extend_str(&mut v, field.as_str());
                extend_str(&mut v, ": ");
                extend_str(&mut v, reason.as_str());
            },
            VeltrixError::Parsing { reason } => {
                extend_str(&mut v, "parse error: ");
                extend_str(&mut v, reason.as_str());
            },
            VeltrixError::Service { service, reason } => {
                extend_str(&mut v, service.as_str());
                extend_str(&mut v, " service failed: ");
                extend_str(&mut v, reason.as_str());
            },
            VeltrixError::Socket { reason } => {
                extend_str(&mut v, "socket error: ");
                extend_str(&mut v, reason.as_str());
            },
            VeltrixError::Http { status, reason } => {
                extend_str(&mut v, "HTTP ");
                let st = decimal_string(*status as u64);
                extend_str(&mut v, st.as_str());
                extend_str(&mut v, ": ");
                extend_str(&mut v, reason.as_str());
            },
            VeltrixError::Auth { reason } => {
                extend_str(&mut v, "authentication failed: ");
                extend_str(&mut v, reason.as_str());
            },
        }
        string_of(v.as_slice())
    }
}

impl From<std::io::Error> for VeltrixError {
    fn from(source: std::io::Error) -> (e: Self) {
        VeltrixError::Io { source }
    }
}

impl FromSpecImpl<std::io::Error> for VeltrixError {
    open spec fn obeys_from_spec() -> bool {
        true
    }

    open spec fn from_spec(source: std::io::Error) -> Self {
        VeltrixError::Io { source }
    }
}

} // verus!
