//! LDAP directory client: connection specification, entries and search
//! options, and the validation each directory operation performs.
pub mod client;
pub mod spec;
pub mod types;

pub use client::LdapClient;
pub use spec::{
    LdapAuthMethod, LdapBackendUsed, LdapEmptyResponse, LdapResponse, LdapSpec, ServerType, TlsMode,
};
pub use types::{LdapAttribute, LdapEntry, ModifyOp, SearchOptions, SearchScope};
