//! LDAP client: the checks each directory operation makes on its input, URI
//! parsing, and RFC 4515 filter escaping.
//!
//! Directory traffic itself is not performed: a search that passes its
//! checks finds no entries, and a mutation that passes its checks succeeds.
use vstd::prelude::*;

use super::spec::{
    auth_method_name, LdapAuthMethod, LdapBackendUsed, LdapEmptyResponse, LdapResponse, LdapSpec,
    ServerType,
};
use super::types::{LdapEntry, ModifyOp, SearchOptions, SearchScope};
use crate::error::{Result, VeltrixError};
use crate::data::time::Duration;
use crate::os::clock::{elapsed_since, monotonic};
use crate::text::{
    chars_of, concat3, contains_char, decimal, decimal_string, extend_str, has_prefix, has_suffix,
    parse_uint, parse_uint_chars, slice_chars, split_chars, split_on, string_of,
};

verus! {

/// Host and port of an `ldap://` or `ldaps://` URI: the host is the text up
/// to the first `:`, the port the text after it up to the next `:` read as a
/// `u16`, or the scheme's default port (389, 636) when absent or unreadable.
pub open spec fn uri_parts(uri: Seq<char>) -> std::result::Result<(Seq<char>, nat), Seq<char>> {
    if has_prefix(uri, "ldap://"@) {
        Ok(host_port(uri.skip(7), 389))
    } else if has_prefix(uri, "ldaps://"@) {
        Ok(host_port(uri.skip(8), 636))
    } else {
        Err("URI must start with ldap:// or ldaps://"@)
    }
}

/// Host and port of the text after the scheme.
pub open spec fn host_port(rest: Seq<char>, default_port: nat) -> (Seq<char>, nat) {
    let parts = split_on(rest, ':');
    (
        parts[0],
        if parts.len() > 1 && parse_uint(parts[1], 65535) is Ok {
            parse_uint(parts[1], 65535)->Ok_0
        } else {
            default_port
        },
    )
}

/// The RFC 4515 escape of one character of a filter value.
pub open spec fn escape_char(c: char) -> Seq<char> {
    if c == '\\' {
        "\\5c"@
    } else if c == '*' {
        "\\2a"@
    } else if c == '(' {
        "\\28"@
    } else if c == ')' {
        "\\29"@
    } else if c == '\0' {
        "\\00"@
    } else {
        seq![c]
    }
}

/// A filter value with each special character escaped.
pub open spec fn escape_filter(s: Seq<char>) -> Seq<char>
    decreases s.len(),
{
    if s.len() == 0 {
        Seq::empty()
    } else {
        escape_filter(s.drop_last()) + escape_char(s.last())
    }
}

/// A filter is enclosed in parentheses.
pub open spec fn filter_enclosed(f: Seq<char>) -> bool {
    has_prefix(f, "("@) && has_suffix(f, ")"@)
}

/// A DN has the basic shape `attr=value,...`: an `=` and a `,`.
pub open spec fn dn_shaped(dn: Seq<char>) -> bool {
    dn.contains('=') && dn.contains(',')
}

/// A validation error on `field` with `reason`.
pub open spec fn is_validation(e: VeltrixError, field: Seq<char>, reason: Seq<char>) -> bool {
    e matches VeltrixError::Validation { field: f, reason: r } && f@ == field && r@ == reason
}

/// LDAP client for directory operations.
#[derive(Debug)]
pub struct LdapClient {
    spec: LdapSpec,
    backend_used: LdapBackendUsed,
    connected: bool,
}

fn copy_backend(b: &LdapBackendUsed) -> (r: LdapBackendUsed)
    ensures
        r == *b,
{
    LdapBackendUsed {
        server_type: b.server_type,
        tls_mode_used: b.tls_mode_used,
        auth_method_used: b.auth_method_used.clone(),
        connection_time_ms: b.connection_time_ms,
    }
}

/// Whole milliseconds of a duration, kept to its low 64 bits (what
/// `Duration::as_millis` gives, cast to `u64`).
fn millis_of(d: &Duration) -> (r: u64)
    ensures
        r == (d.secs_spec() * 1000 + d.nanos_spec() / 1_000_000) % 0x1_0000_0000_0000_0000,
{
    let secs = d.as_secs();
    let nanos = d.subsec_nanos();
    let total: u128 = (secs as u128) * 1000 + ((nanos / 1_000_000) as u128);
    let r = total as u64;
    assert(r == total % 0x1_0000_0000_0000_0000) by (bit_vector)
        requires
            r == total as u64,
    ;
    r
}

/// Whole milliseconds since `start`, as the monotonic clock reports them.
fn elapsed_ms(start: std::time::Instant) -> u64 {
    let d = elapsed_since(start);
    millis_of(&d)
}

impl LdapClient {
    /// The backend metadata always records the spec's TLS mode and
    /// authentication method.
    #[verifier::type_invariant]
    spec fn metadata_follows_spec(self) -> bool {
        &&& self.backend_used.tls_mode_used == self.spec.tls_mode
        &&& self.backend_used.auth_method_used@ == auth_method_name(self.spec.auth)
    }

    /// The specification the client was made with.
    pub closed spec fn spec_of(&self) -> LdapSpec {
        self.spec
    }

    /// Whether a bind has succeeded.
    pub closed spec fn connected_of(&self) -> bool {
        self.connected
    }

    /// The backend metadata the client reports.
    pub closed spec fn backend_of(&self) -> LdapBackendUsed {
        self.backend_used
    }

    /// A client for `spec`, not yet bound, on an unknown server type.
    pub fn new(spec: LdapSpec) -> (r: Result<Self>)
        ensures
            r matches Ok(c) && c.spec_of() == spec && !c.connected_of() && c.backend_of().server_type
                == ServerType::Unknown && c.backend_of().tls_mode_used == spec.tls_mode
                && c.backend_of().auth_method_used@ == auth_method_name(spec.auth)
                && c.backend_of().connection_time_ms == 0,
    {
        let backend_used = LdapBackendUsed {
            server_type: ServerType::Unknown,
            tls_mode_used: spec.tls_mode,
            auth_method_used: spec.auth.to_string(),
            connection_time_ms: 0,
        };
        Ok(LdapClient { spec, backend_used, connected: false })
    }

    /// The client specification.
    pub fn spec(&self) -> (s: &LdapSpec)
        ensures
            *s == self.spec_of(),
    {
        &self.spec
    }

    /// Whether a bind has succeeded.
    pub fn is_connected(&self) -> (b: bool)
        ensures
            b == self.connected_of(),
    {
        self.connected
    }

    /// Host and port of an `ldap://` or `ldaps://` URI.
    pub fn _parse_uri(&self, uri: &str) -> (r: Result<(String, u16)>)
        ensures
            match uri_parts(uri@) {
                Ok((h, p)) => r matches Ok((host, port)) && host@ == h && port as nat == p,
                Err(m) => r matches Err(e) && is_validation(e, "uri"@, m),
            },
    {
        let cs = chars_of(uri);
        let ldap = chars_of("ldap://");
        let ldaps = chars_of("ldaps://");
        proof {
            reveal_strlit("ldap://");
            reveal_strlit("ldaps://");
        }
        if crate::text::starts_with(cs.as_slice(), ldap.as_slice()) {
            let rest = slice_chars(cs.as_slice(), 7, cs.len());
            assert(rest@ =~= uri@.skip(7));
            let (h, p) = host_and_port(rest.as_slice(), 389);
            Ok((h, p))
        } else if crate::text::starts_with(cs.as_slice(), ldaps.as_slice()) {
            let rest = slice_chars(cs.as_slice(), 8, cs.len());
            assert(rest@ =~= uri@.skip(8));
            let (h, p) = host_and_port(rest.as_slice(), 636);
            Ok((h, p))
        } else {
            Err(VeltrixError::validation("uri", "URI must start with ldap:// or ldaps://"))
        }
    }

    /// Escapes a filter value (RFC 4515): `\`, `*`, `(`, `)` and NUL become
    /// `\5c`, `\2a`, `\28`, `\29` and `\00`.
    pub fn _escape_filter_value(&self, value: &str) -> (s: String)
        ensures
            s@ == escape_filter(value@),
    {
        let cs = chars_of(value);
        let mut out: Vec<char> = Vec::new();
        let mut i: usize = 0;
        while i < cs.len()
            invariant
                i <= cs.len(),
                cs@ == value@,
                out@ == escape_filter(cs@.take(i as int)),
            decreases cs.len() - i,
        {
            let c = cs[i];
            assert(cs@.take(i + 1).drop_last() =~= cs@.take(i as int));
            if c == '\\' {
                extend_str(&mut out, "\\5c");
            } else if c == '*' {
                extend_str(&mut out, "\\2a");
            } else if c == '(' {
                extend_str(&mut out, "\\28");
            } else if c == ')' {
                extend_str(&mut out, "\\29");
            } else if c == '\0' {
                extend_str(&mut out, "\\00");
            } else {
                out.push(c);
            }
            assert(out@ =~= escape_filter(cs@.take(i + 1)));
            i = i + 1;
        }
        assert(cs@.take(cs.len() as int) =~= cs@);
        string_of(out.as_slice())
    }

    fn bind_simple(&self, bind_dn: &str, password: &str) -> (r: Result<()>)
        ensures
            match uri_parts(self.spec_of().uri@) {
                Err(m) => r matches Err(e) && is_validation(e, "uri"@, m),
                Ok(_) => if bind_dn@.len() == 0 || password@.len() == 0 {
                    r matches Err(VeltrixError::Auth { reason }) && reason@
                        == "bind_dn and password cannot be empty"@
                } else {
                    r is Ok
                },
            },
    {
        match self._parse_uri(self.spec.uri.as_str()) {
            Err(e) => return Err(e),
            Ok(_) => {},
        }
        if bind_dn.is_empty() || password.is_empty() {
            return Err(VeltrixError::auth("bind_dn and password cannot be empty"));
        }
        Ok(())
    }

    /// Binds with the configured credentials: an anonymous bind always
    /// succeeds; a simple bind needs a readable URI and a non-empty DN and
    /// password. A successful bind marks the client connected.
    pub fn bind(&mut self) -> (r: Result<LdapResponse<()>>)
        ensures
            final(self).spec_of() == old(self).spec_of(),
            match old(self).spec_of().auth {
                LdapAuthMethod::Anonymous => r is Ok,
                LdapAuthMethod::Simple { bind_dn, password } => match uri_parts(
                    old(self).spec_of().uri@,
                ) {
                    Err(m) => r matches Err(e) && is_validation(e, "uri"@, m),
                    Ok(_) => if bind_dn@.len() == 0 || password@.len() == 0 {
                        r matches Err(VeltrixError::Auth { reason }) && reason@
                            == "bind_dn and password cannot be empty"@
                    } else {
                        r is Ok
                    },
                },
            },
            r is Ok ==> final(self).connected_of(),
            r is Err ==> *final(self) == *old(self),
            r matches Ok(resp) ==> resp.backend_used.auth_method_used@ == auth_method_name(
                old(self).spec_of().auth,
            ) && resp.backend_used.tls_mode_used == old(self).spec_of().tls_mode,
    {
        proof {
            use_type_invariant(&*self);
        }
        let start = monotonic();
        match &self.spec.auth {
            LdapAuthMethod::Simple { bind_dn, password } => {
                match self.bind_simple(bind_dn.as_str(), password.as_str()) {
                    Err(e) => return Err(e),
                    Ok(()) => {},
                }
            },
            LdapAuthMethod::Anonymous => {},
        }
        self.backend_used.connection_time_ms = elapsed_ms(start);
        self.connected = true;
        Ok(LdapResponse::new((), copy_backend(&self.backend_used)))
    }

    /// Verifies a user's credentials by binding as the user: the password
    /// and the DN must not be empty (checked in that order), and the URI
    /// must be readable.
    pub fn bind_as(&mut self, user_dn: &str, password: &str) -> (r: Result<LdapResponse<()>>)
        ensures
            final(self).spec_of() == old(self).spec_of(),
            final(self).connected_of() == old(self).connected_of(),
            password@.len() == 0 ==> (r matches Err(e) && is_validation(
                e,
                "password"@,
                "password cannot be empty"@,
            )),
            password@.len() > 0 && user_dn@.len() == 0 ==> (r matches Err(e) && is_validation(
                e,
                "user_dn"@,
                "user_dn cannot be empty"@,
            )),
            password@.len() > 0 && user_dn@.len() > 0 ==> match uri_parts(old(self).spec_of().uri@) {
                Err(m) => r matches Err(e) && is_validation(e, "uri"@, m),
                Ok(_) => r is Ok,
            },
    {
        proof {
            use_type_invariant(&*self);
        }
        let start = monotonic();
        if password.is_empty() {
            return Err(VeltrixError::validation("password", "password cannot be empty"));
        }
        if user_dn.is_empty() {
            return Err(VeltrixError::validation("user_dn", "user_dn cannot be empty"));
        }
        match self.bind_simple(user_dn, password) {
            Err(e) => return Err(e),
            Ok(()) => {},
        }
        self.backend_used.connection_time_ms = elapsed_ms(start);
        Ok(LdapResponse::new((), copy_backend(&self.backend_used)))
    }

    /// Searches with `options`: the filter must be enclosed in parentheses
    /// and the base DN must not be empty (checked in that order); a search
    /// that passes finds no entries.
    pub fn search(&mut self, options: SearchOptions) -> (r: Result<LdapResponse<Vec<LdapEntry>>>)
        ensures
            final(self).spec_of() == old(self).spec_of(),
            final(self).connected_of() == old(self).connected_of(),
            !filter_enclosed(options.filter@) ==> (r matches Err(e) && is_validation(
                e,
                "filter"@,
                "filter must be enclosed in parentheses"@,
            )),
            filter_enclosed(options.filter@) && options.base_dn@.len() == 0 ==> (r matches Err(e)
                && is_validation(e, "base_dn"@, "base_dn cannot be empty"@)),
            filter_enclosed(options.filter@) && options.base_dn@.len() > 0 ==> (r matches Ok(resp)
                && resp.data@.len() == 0),
    {
        proof {
            use_type_invariant(&*self);
        }
        let start = monotonic();
        let f = chars_of(options.filter.as_str());
        let open: [char; 1] = ['('];
        let close: [char; 1] = [')'];
        proof {
            reveal_strlit("(");
            reveal_strlit(")");
        }
        assert(open@ =~= "("@);
        assert(close@ =~= ")"@);
        if !crate::text::starts_with(f.as_slice(), &open) || !crate::text::ends_with(
            f.as_slice(),
            &close,
        ) {
            return Err(VeltrixError::validation("filter", "filter must be enclosed in parentheses"));
        }
        if options.base_dn.as_str().is_empty() {
            return Err(VeltrixError::validation("base_dn", "base_dn cannot be empty"));
        }
        let entries: Vec<LdapEntry> = Vec::new();
        self.backend_used.connection_time_ms = elapsed_ms(start);
        Ok(LdapResponse::new(entries, copy_backend(&self.backend_used)))
    }

    /// Reads the entry at `dn` (a base-scope search for any object class);
    /// the DN must not be empty.
    pub fn get_entry(&mut self, dn: &str) -> (r: Result<LdapResponse<Option<LdapEntry>>>)
        ensures
            final(self).spec_of() == old(self).spec_of(),
            final(self).connected_of() == old(self).connected_of(),
            dn@.len() == 0 ==> (r matches Err(e) && is_validation(e, "dn"@, "DN cannot be empty"@)),
            dn@.len() > 0 ==> (r matches Ok(resp) && resp.data is None),
    {
        if dn.is_empty() {
            return Err(VeltrixError::validation("dn", "DN cannot be empty"));
        }
        proof {
            use_type_invariant(&*self);
        }
        let start = monotonic();
        let options = SearchOptions::new(dn.to_owned(), "(objectClass=*)".to_owned()).with_scope(
            SearchScope::Base,
        );
        proof {
            reveal_strlit("(objectClass=*)");
            reveal_strlit("(");
            reveal_strlit(")");
        }
        assert(filter_enclosed("(objectClass=*)"@)) by {
            assert("(objectClass=*)"@.subrange(0, 1) =~= "("@);
            assert("(objectClass=*)"@.subrange(14, 15) =~= ")"@);
        }
        let result = match self.search(options) {
            Ok(r) => r,
            Err(e) => return Err(e),
        };
        let entry: Option<LdapEntry> = None;
        proof {
            use_type_invariant(&*self);
        }
        self.backend_used.connection_time_ms = elapsed_ms(start);
        Ok(LdapResponse::new(entry, result.backend_used))
    }

    fn lookup_filter(&self, attr: &str, value: &str) -> (f: String)
        ensures
            f@ == "("@ + attr@ + "="@ + escape_filter(value@) + ")"@,
            filter_enclosed(f@),
    {
        let escaped = self._escape_filter_value(value);
        let mut v: Vec<char> = Vec::new();
        extend_str(&mut v, "(");
        extend_str(&mut v, attr);
        extend_str(&mut v, "=");
        extend_str(&mut v, escaped.as_str());
        extend_str(&mut v, ")");
        proof {
            reveal_strlit("(");
            reveal_strlit(")");
        }
        assert(v@.subrange(0, 1) =~= "("@);
        assert(v@.subrange(v@.len() - 1, v@.len() as int) =~= ")"@);
        string_of(v.as_slice())
    }

    fn search_default(&mut self, filter: String) -> (r: Result<LdapResponse<Vec<LdapEntry>>>)
        requires
            filter_enclosed(filter@),
        ensures
            final(self).spec_of() == old(self).spec_of(),
            final(self).connected_of() == old(self).connected_of(),
            r matches Ok(resp) && resp.data@.len() == 0,
    {
        proof {
            reveal_strlit("dc=example,dc=com");
        }
        self.search(SearchOptions::new("dc=example,dc=com".to_owned(), filter))
    }

    /// Finds the user whose `uid` is `uid` (escaped) under the default base;
    /// the uid must not be empty.
    pub fn find_user_by_uid(&mut self, uid: &str) -> (r: Result<LdapResponse<Option<LdapEntry>>>)
        ensures
            final(self).spec_of() == old(self).spec_of(),
            final(self).connected_of() == old(self).connected_of(),
            uid@.len() == 0 ==> (r matches Err(e) && is_validation(e, "uid"@, "uid cannot be empty"@)),
            uid@.len() > 0 ==> (r matches Ok(resp) && resp.data is None),
    {
        if uid.is_empty() {
            return Err(VeltrixError::validation("uid", "uid cannot be empty"));
        }
        let f = self.lookup_filter("uid", uid);
        let result = match self.search_default(f) {
            Ok(r) => r,
            Err(e) => return Err(e),
        };
        Ok(LdapResponse::new(None, result.backend_used))
    }

    /// Finds the users whose `mail` is `mail` (escaped); the mail must not be
    /// empty.
    pub fn find_user_by_mail(&mut self, mail: &str) -> (r: Result<LdapResponse<Vec<LdapEntry>>>)
        ensures
            final(self).spec_of() == old(self).spec_of(),
            final(self).connected_of() == old(self).connected_of(),
            mail@.len() == 0 ==> (r matches Err(e) && is_validation(e, "mail"@, "mail cannot be empty"@)),
            mail@.len() > 0 ==> (r matches Ok(resp) && resp.data@.len() == 0),
    {
        if mail.is_empty() {
            return Err(VeltrixError::validation("mail", "mail cannot be empty"));
        }
        let f = self.lookup_filter("mail", mail);
        self.search_default(f)
    }

    /// Finds the members under a group DN (`(member=*)`); the DN must not be
    /// empty.
    pub fn find_users_in_group(&mut self, group_dn: &str) -> (r: Result<LdapResponse<Vec<LdapEntry>>>)
        ensures
            final(self).spec_of() == old(self).spec_of(),
            final(self).connected_of() == old(self).connected_of(),
            group_dn@.len() == 0 ==> (r matches Err(e) && is_validation(
                e,
                "group_dn"@,
                "group_dn cannot be empty"@,
            )),
            group_dn@.len() > 0 ==> (r matches Ok(resp) && resp.data@.len() == 0),
    {
        if group_dn.is_empty() {
            return Err(VeltrixError::validation("group_dn", "group_dn cannot be empty"));
        }
        proof {
            reveal_strlit("(member=*)");
            reveal_strlit("(");
            reveal_strlit(")");
        }
        assert(filter_enclosed("(member=*)"@)) by {
            assert("(member=*)"@.subrange(0, 1) =~= "("@);
            assert("(member=*)"@.subrange(9, 10) =~= ")"@);
        }
        self.search(SearchOptions::new(group_dn.to_owned(), "(member=*)".to_owned()))
    }

    /// Finds the group whose `cn` is `cn` (escaped); the cn must not be empty.
    pub fn find_group_by_cn(&mut self, cn: &str) -> (r: Result<LdapResponse<Option<LdapEntry>>>)
        ensures
            final(self).spec_of() == old(self).spec_of(),
            final(self).connected_of() == old(self).connected_of(),
            cn@.len() == 0 ==> (r matches Err(e) && is_validation(e, "cn"@, "cn cannot be empty"@)),
            cn@.len() > 0 ==> (r matches Ok(resp) && resp.data is None),
    {
        if cn.is_empty() {
            return Err(VeltrixError::validation("cn", "cn cannot be empty"));
        }
        let f = self.lookup_filter("cn", cn);
        let result = match self.search_default(f) {
            Ok(r) => r,
            Err(e) => return Err(e),
        };
        Ok(LdapResponse::new(None, result.backend_used))
    }

    /// Finds the groups that list `user_dn` (escaped) as a member; the DN
    /// must not be empty.
    pub fn find_groups_for_user(&mut self, user_dn: &str) -> (r: Result<LdapResponse<Vec<LdapEntry>>>)
        ensures
            final(self).spec_of() == old(self).spec_of(),
            final(self).connected_of() == old(self).connected_of(),
            user_dn@.len() == 0 ==> (r matches Err(e) && is_validation(
                e,
                "user_dn"@,
                "user_dn cannot be empty"@,
            )),
            user_dn@.len() > 0 ==> (r matches Ok(resp) && resp.data@.len() == 0),
    {
        if user_dn.is_empty() {
            return Err(VeltrixError::validation("user_dn", "user_dn cannot be empty"));
        }
        let f = self.lookup_filter("member", user_dn);
        self.search_default(f)
    }

    /// The `member` values of the group entry at `group_dn`; no entry means
    /// no members.
    pub fn get_group_members(&mut self, group_dn: &str) -> (r: Result<LdapResponse<Vec<String>>>)
        ensures
            final(self).spec_of() == old(self).spec_of(),
            final(self).connected_of() == old(self).connected_of(),
            group_dn@.len() == 0 ==> (r matches Err(e) && is_validation(e, "dn"@, "DN cannot be empty"@)),
            group_dn@.len() > 0 ==> (r matches Ok(resp) && resp.data@.len() == 0),
    {
        let result = match self.get_entry(group_dn) {
            Ok(r) => r,
            Err(e) => return Err(e),
        };
        let members: Vec<String> = match result.data {
            Some(entry) => match entry.get_strings("member") {
                Some(v) => v,
                None => Vec::new(),
            },
            None => Vec::new(),
        };
        Ok(LdapResponse::new(members, result.backend_used))
    }

    fn number_filter(attr: &str, n: u32) -> (f: String)
        ensures
            f@ == "("@ + attr@ + "="@ + decimal(n as nat) + ")"@,
            filter_enclosed(f@),
    {
        let mut v: Vec<char> = Vec::new();
        extend_str(&mut v, "(");
        extend_str(&mut v, attr);
        extend_str(&mut v, "=");
        crate::text::push_decimal(&mut v, n as u64);
        extend_str(&mut v, ")");
        proof {
            reveal_strlit("(");
            reveal_strlit(")");
        }
        assert(v@.subrange(0, 1) =~= "("@);
        assert(v@.subrange(v@.len() - 1, v@.len() as int) =~= ")"@);
        string_of(v.as_slice())
    }

    /// Finds the POSIX user with this `uidNumber`.
    pub fn find_posix_user_by_uid_number(&mut self, uid_number: u32) -> (r: Result<LdapResponse<Option<LdapEntry>>>)
        ensures
            final(self).spec_of() == old(self).spec_of(),
            final(self).connected_of() == old(self).connected_of(),
            r matches Ok(resp) && resp.data is None,
    {
        let f = Self::number_filter("uidNumber", uid_number);
        let result = match self.search_default(f) {
            Ok(r) => r,
            Err(e) => return Err(e),
        };
        Ok(LdapResponse::new(None, result.backend_used))
    }

    /// Finds the POSIX group with this `gidNumber`.
    pub fn find_posix_group_by_gid_number(&mut self, gid_number: u32) -> (r: Result<LdapResponse<Option<LdapEntry>>>)
        ensures
            final(self).spec_of() == old(self).spec_of(),
            final(self).connected_of() == old(self).connected_of(),
            r matches Ok(resp) && resp.data is None,
    {
        let f = Self::number_filter("gidNumber", gid_number);
        let result = match self.search_default(f) {
            Ok(r) => r,
            Err(e) => return Err(e),
        };
        Ok(LdapResponse::new(None, result.backend_used))
    }

    fn check_dn_shape(dn: &str) -> (r: Result<()>)
        ensures
            dn_shaped(dn@) ==> r is Ok,
            !dn_shaped(dn@) ==> (r matches Err(e) && is_validation(e, "dn"@, "invalid DN format"@)),
    {
        let cs = chars_of(dn);
        if !contains_char(cs.as_slice(), '=') || !contains_char(cs.as_slice(), ',') {
            return Err(VeltrixError::validation("dn", "invalid DN format"));
        }
        Ok(())
    }

    /// Adds an entry: the DN must not be empty, there must be attributes, and
    /// the DN must have the shape `attr=value,...` (checked in that order).
    pub fn add_entry(&mut self, dn: &str, attributes: &[(&str, &[&str])]) -> (r: Result<LdapEmptyResponse>)
        ensures
            *final(self) == *old(self),
            dn@.len() == 0 ==> (r matches Err(e) && is_validation(e, "dn"@, "DN cannot be empty"@)),
            dn@.len() > 0 && attributes@.len() == 0 ==> (r matches Err(e) && is_validation(
                e,
                "attributes"@,
                "at least one attribute required"@,
            )),
            dn@.len() > 0 && attributes@.len() > 0 ==> (if dn_shaped(dn@) {
                r matches Ok(resp) && resp.backend_used == old(self).backend_of()
            } else {
                r matches Err(e) && is_validation(e, "dn"@, "invalid DN format"@)
            }),
    {
        if dn.is_empty() {
            return Err(VeltrixError::validation("dn", "DN cannot be empty"));
        }
        if attributes.len() == 0 {
            return Err(VeltrixError::validation("attributes", "at least one attribute required"));
        }
        match Self::check_dn_shape(dn) {
            Err(e) => return Err(e),
            Ok(()) => {},
        }
        Ok(LdapEmptyResponse::new(copy_backend(&self.backend_used)))
    }

    /// Modifies an entry: the DN must not be empty, there must be changes,
    /// and the DN must have the shape `attr=value,...` (checked in that order).
    pub fn modify_entry(&mut self, dn: &str, changes: &[ModifyOp]) -> (r: Result<LdapEmptyResponse>)
        ensures
            *final(self) == *old(self),
            dn@.len() == 0 ==> (r matches Err(e) && is_validation(e, "dn"@, "DN cannot be empty"@)),
            dn@.len() > 0 && changes@.len() == 0 ==> (r matches Err(e) && is_validation(
                e,
                "changes"@,
                "at least one modification required"@,
            )),
            dn@.len() > 0 && changes@.len() > 0 ==> (if dn_shaped(dn@) {
                r matches Ok(resp) && resp.backend_used == old(self).backend_of()
            } else {
                r matches Err(e) && is_validation(e, "dn"@, "invalid DN format"@)
            }),
    {
        if dn.is_empty() {
            return Err(VeltrixError::validation("dn", "DN cannot be empty"));
        }
        if changes.len() == 0 {
            return Err(VeltrixError::validation("changes", "at least one modification required"));
        }
        match Self::check_dn_shape(dn) {
            Err(e) => return Err(e),
            Ok(()) => {},
        }
        Ok(LdapEmptyResponse::new(copy_backend(&self.backend_used)))
    }

    /// Deletes an entry: the DN must not be empty and must have the shape
    /// `attr=value,...`.
    pub fn delete_entry(&mut self, dn: &str) -> (r: Result<LdapEmptyResponse>)
        ensures
            *final(self) == *old(self),
            dn@.len() == 0 ==> (r matches Err(e) && is_validation(e, "dn"@, "DN cannot be empty"@)),
            dn@.len() > 0 ==> (if dn_shaped(dn@) {
                r matches Ok(resp) && resp.backend_used == old(self).backend_of()
            } else {
                r matches Err(e) && is_validation(e, "dn"@, "invalid DN format"@)
            }),
    {
        if dn.is_empty() {
            return Err(VeltrixError::validation("dn", "DN cannot be empty"));
        }
        match Self::check_dn_shape(dn) {
            Err(e) => return Err(e),
            Ok(()) => {},
        }
        Ok(LdapEmptyResponse::new(copy_backend(&self.backend_used)))
    }

    /// Renames or moves an entry: the old DN and the new RDN must not be
    /// empty (checked in that order).
    pub fn rename_entry(&mut self, old_dn: &str, new_rdn: &str, new_superior: Option<&str>) -> (r: Result<LdapEmptyResponse>)
        ensures
            *final(self) == *old(self),
            old_dn@.len() == 0 ==> (r matches Err(e) && is_validation(e, "old_dn"@, "DN cannot be empty"@)),
            old_dn@.len() > 0 && new_rdn@.len() == 0 ==> (r matches Err(e) && is_validation(
                e,
                "new_rdn"@,
                "RDN cannot be empty"@,
            )),
            old_dn@.len() > 0 && new_rdn@.len() > 0 ==> (r matches Ok(resp) && resp.backend_used
                == old(self).backend_of()),
    {
        if old_dn.is_empty() {
            return Err(VeltrixError::validation("old_dn", "DN cannot be empty"));
        }
        if new_rdn.is_empty() {
            return Err(VeltrixError::validation("new_rdn", "RDN cannot be empty"));
        }
        Ok(LdapEmptyResponse::new(copy_backend(&self.backend_used)))
    }

    /// Changes a user's own password: the DN must not be empty, then neither
    /// password may be.
    pub fn change_password(&mut self, user_dn: &str, old_password: &str, new_password: &str) -> (r: Result<LdapEmptyResponse>)
        ensures
            *final(self) == *old(self),
            user_dn@.len() == 0 ==> (r matches Err(e) && is_validation(e, "user_dn"@, "DN cannot be empty"@)),
            user_dn@.len() > 0 && (old_password@.len() == 0 || new_password@.len() == 0) ==> (
            r matches Err(e) && is_validation(e, "password"@, "passwords cannot be empty"@)),
            user_dn@.len() > 0 && old_password@.len() > 0 && new_password@.len() > 0 ==> (
            r matches Ok(resp) && resp.backend_used == old(self).backend_of()),
    {
        if user_dn.is_empty() {
            return Err(VeltrixError::validation("user_dn", "DN cannot be empty"));
        }
        if old_password.is_empty() || new_password.is_empty() {
            return Err(VeltrixError::validation("password", "passwords cannot be empty"));
        }
        Ok(LdapEmptyResponse::new(copy_backend(&self.backend_used)))
    }

    /// Sets a user's password (admin operation): the DN must not be empty,
    /// then the password may not be.
    pub fn set_password(&mut self, user_dn: &str, new_password: &str) -> (r: Result<LdapEmptyResponse>)
        ensures
            *final(self) == *old(self),
            user_dn@.len() == 0 ==> (r matches Err(e) && is_validation(e, "user_dn"@, "DN cannot be empty"@)),
            user_dn@.len() > 0 && new_password@.len() == 0 ==> (r matches Err(e) && is_validation(
                e,
                "password"@,
                "password cannot be empty"@,
            )),
            user_dn@.len() > 0 && new_password@.len() > 0 ==> (r matches Ok(resp)
                && resp.backend_used == old(self).backend_of()),
    {
        if user_dn.is_empty() {
            return Err(VeltrixError::validation("user_dn", "DN cannot be empty"));
        }
        if new_password.is_empty() {
            return Err(VeltrixError::validation("password", "password cannot be empty"));
        }
        Ok(LdapEmptyResponse::new(copy_backend(&self.backend_used)))
    }
}

fn host_and_port(rest: &[char], default_port: u16) -> (r: (String, u16))
    ensures
        r.0@ == host_port(rest@, default_port as nat).0,
        r.1 as nat == host_port(rest@, default_port as nat).1,
{
    let parts = split_chars(rest, ':');
    assert(crate::text::seqs_of(parts@) == split_on(rest@, ':'));
    assert(parts@[0]@ == split_on(rest@, ':')[0]);
    let host = string_of(parts[0].as_slice());
    let port: u16 = if parts.len() > 1 {
        assert(parts@[1]@ == split_on(rest@, ':')[1]);
        match parse_uint_chars(parts[1].as_slice(), 65535) {
            Ok(n) => n as u16,
            Err(_) => default_port,
        }
    } else {
        default_port
    };
    (host, port)
}

/// An escaped filter value holds none of the characters that are special in
/// a filter (`*`, `(`, `)`, NUL) as they are.
pub proof fn escaped_value_has_no_specials(s: Seq<char>)
    ensures
        forall|i: int|
            0 <= i < escape_filter(s).len() ==> {
                let c = #[trigger] escape_filter(s)[i];
                c != '*' && c != '(' && c != ')' && c != '\0'
            },
    decreases s.len(),
{
    reveal_strlit("\\5c");
    reveal_strlit("\\2a");
    reveal_strlit("\\28");
    reveal_strlit("\\29");
    reveal_strlit("\\00");
    if s.len() > 0 {
        escaped_value_has_no_specials(s.drop_last());
        let prev = escape_filter(s.drop_last());
        let tail = escape_char(s.last());
        assert forall|i: int| 0 <= i < escape_filter(s).len() implies {
            let c = #[trigger] escape_filter(s)[i];
            c != '*' && c != '(' && c != ')' && c != '\0'
        } by {
            if i < prev.len() {
                assert(escape_filter(s)[i] == prev[i]);
            } else {
                assert(escape_filter(s)[i] == tail[i - prev.len()]);
            }
        }
    }
}

} // verus!
