//! Technitium DNS Server: API configuration, response wrappers, and how an
//! API envelope's status is judged.
use vstd::prelude::*;

use crate::data::time::Duration;
use crate::error::{Result, VeltrixError};
use crate::services::caddy::admin::http_url;
use crate::services::caddy::types::{json_quoted, json_string};
use crate::services::systemd::cli::{opt_view, strip_suffixes};
use crate::text::{
    ascii_lower_seq, chars_of, concat2, concat3, extend_str, lossy_string, slice_chars, str_eq,
    string_of, utf8_lossy,
};

verus! {

/// Supported Technitium DNS Server HTTP API family.
pub const SUPPORTED_TECHNITIUM_API_VERSION: &'static str = "13.x HTTP API";

/// Authentication material for Technitium DNS Server API requests.
#[derive(Clone)]
pub enum TechnitiumAuth {
    /// No credentials are configured.
    Unauthenticated,
    /// Session token returned by login/session workflows.
    SessionToken { token: String },
    /// Caller-provided bearer token.
    BearerToken { token: String },
}

impl TechnitiumAuth {
    /// Session-token authentication.
    pub fn session_token(token: &str) -> (a: Self)
        ensures
            a matches TechnitiumAuth::SessionToken { token: t } && t@ == token@,
    {
        TechnitiumAuth::SessionToken { token: token.to_owned() }
    }

    /// Bearer-token authentication.
    pub fn bearer_token(token: &str) -> (a: Self)
        ensures
            a matches TechnitiumAuth::BearerToken { token: t } && t@ == token@,
    {
        TechnitiumAuth::BearerToken { token: token.to_owned() }
    }

    /// Whether this auth value carries credentials.
    pub fn is_authenticated(&self) -> (b: bool)
        ensures
            b == !(self is Unauthenticated),
    {
        match self {
            TechnitiumAuth::Unauthenticated => false,
            _ => true,
        }
    }

    /// A description that leaves tokens out.
    pub fn redacted(&self) -> (s: &'static str)
        ensures
            self is Unauthenticated ==> s@ == "None"@,
            self is SessionToken ==> s@ == "SessionToken { token: <redacted> }"@,
            self is BearerToken ==> s@ == "BearerToken { token: <redacted> }"@,
    {
        match self {
            TechnitiumAuth::Unauthenticated => "None",
            TechnitiumAuth::SessionToken { .. } => "SessionToken { token: <redacted> }",
            TechnitiumAuth::BearerToken { .. } => "BearerToken { token: <redacted> }",
        }
    }
}

/// Technitium HTTP API client configuration.
#[derive(Clone)]
pub struct TechnitiumHttpSpec {
    /// Base HTTP URL for the Technitium server.
    pub base_url: String,
    /// Authentication mode and token material.
    pub auth: TechnitiumAuth,
    /// Optional request timeout.
    pub timeout: Option<Duration>,
}

impl TechnitiumHttpSpec {
    /// A spec for `base_url` without credentials or timeout.
    pub fn new(base_url: &str) -> (s: Self)
        ensures
            s.base_url@ == base_url@,
            s.auth is Unauthenticated,
            s.timeout is None,
    {
        TechnitiumHttpSpec { base_url: base_url.to_owned(), auth: TechnitiumAuth::Unauthenticated, timeout: None }
    }

    /// Set the authentication mode.
    pub fn auth(self, auth: TechnitiumAuth) -> (s: Self)
        ensures
            s == (TechnitiumHttpSpec { auth, ..self }),
    {
        TechnitiumHttpSpec { auth, ..self }
    }

    /// Set the request timeout.
    pub fn timeout(self, timeout: Duration) -> (s: Self)
        ensures
            s == (TechnitiumHttpSpec { timeout: Some(timeout), ..self }),
    {
        TechnitiumHttpSpec { timeout: Some(timeout), ..self }
    }
}

/// Metadata describing which Technitium backend produced a response.
#[derive(Debug, Clone)]
pub enum TechnitiumBackendUsed {
    /// HTTP API backend metadata.
    Http { base_url: String },
}

/// Response wrapper for Technitium operations with data.
#[derive(Debug, Clone)]
pub struct TechnitiumResponse<T> {
    /// Backend metadata for this response.
    pub backend: TechnitiumBackendUsed,
    /// Response payload.
    pub data: T,
}

impl<T> TechnitiumResponse<T> {
    /// Wraps `data` with the backend that produced it.
    pub fn new(data: T, backend: TechnitiumBackendUsed) -> (r: Self)
        ensures
            r.data == data,
            r.backend == backend,
    {
        TechnitiumResponse { backend, data }
    }
}

/// Response wrapper for successful Technitium operations with no body.
#[derive(Debug, Clone)]
pub struct TechnitiumEmptyResponse {
    /// Backend metadata for this response.
    pub backend: TechnitiumBackendUsed,
}

impl TechnitiumEmptyResponse {
    /// An empty response from `backend`.
    pub fn new(backend: TechnitiumBackendUsed) -> (r: Self)
        ensures
            r.backend == backend,
    {
        TechnitiumEmptyResponse { backend }
    }
}

/// Explicit DNS record kinds targeted by the services contract.
#[derive(Debug, Clone, Copy, PartialEq, Eq, Structural)]
pub enum TechnitiumRecordType {
    A,
    AAAA,
    CNAME,
    MX,
    TXT,
    NS,
    SRV,
    CAA,
    PTR,
}

/// Whether an envelope status counts as success, case aside.
pub open spec fn status_is_success(status: Seq<char>) -> bool {
    let n = ascii_lower_seq(status);
    n == "ok"@ || n == "success"@ || n == "successful"@
}

/// Judges an API envelope by its `status` and `errorMessage` fields: no
/// status, or `ok`, `success` or `successful` in any ASCII case, is success;
/// any other status is a `technitium` service error carrying the error
/// message, or else naming the status.
pub fn ensure_envelope_success(status: Option<&str>, error_message: Option<&str>) -> (r: Result<()>)
    ensures
        status is None ==> r is Ok,
        status matches Some(s) ==> (if status_is_success(s@) {
            r is Ok
        } else {
            r matches Err(VeltrixError::Service { service, reason }) && service@ == "technitium"@
                && reason@ == match error_message {
                Some(m) => m@,
                None => "Technitium returned status `"@ + s@ + "`"@,
            }
        }),
{
    match status {
        None => Ok(()),
        Some(s) => {
            let cs = chars_of(s);
            let mut lower: Vec<char> = Vec::new();
            let mut i: usize = 0;
            while i < cs.len()
                invariant
                    i <= cs.len(),
                    cs@ == s@,
                    lower@ == ascii_lower_seq(s@).take(i as int),
                decreases cs.len() - i,
            {
                let c = cs[i];
                let l = if 'A' <= c && c <= 'Z' {
                    ((c as u32 - 'A' as u32 + 'a' as u32) as u8) as char
                } else {
                    c
                };
                lower.push(l);
                assert(lower@ =~= ascii_lower_seq(s@).take(i + 1));
                i = i + 1;
            }
            assert(ascii_lower_seq(s@).take(cs.len() as int) =~= ascii_lower_seq(s@));
            let n = string_of(lower.as_slice());
            if str_eq(n.as_str(), "ok") || str_eq(n.as_str(), "success") || str_eq(
                n.as_str(),
                "successful",
            ) {
                return Ok(());
            }
            match error_message {
                Some(m) => Err(VeltrixError::service("technitium", m)),
                None => {
                    let r = concat3("Technitium returned status `", s, "`");
                    Err(VeltrixError::service("technitium", r.as_str()))
                },
            }
        },
    }
}


impl TechnitiumRecordType {
    /// The record type's name as the API spells it.
    pub open spec fn name(self) -> Seq<char> {
        match self {
            TechnitiumRecordType::A => "A"@,
            TechnitiumRecordType::AAAA => "AAAA"@,
            TechnitiumRecordType::CNAME => "CNAME"@,
            TechnitiumRecordType::MX => "MX"@,
            TechnitiumRecordType::TXT => "TXT"@,
            TechnitiumRecordType::NS => "NS"@,
            TechnitiumRecordType::SRV => "SRV"@,
            TechnitiumRecordType::CAA => "CAA"@,
            TechnitiumRecordType::PTR => "PTR"@,
        }
    }

    /// The record type's name as the API spells it.
    pub fn as_str(&self) -> (s: &'static str)
        ensures
            s@ == self.name(),
    {
        match self {
            TechnitiumRecordType::A => "A",
            TechnitiumRecordType::AAAA => "AAAA",
            TechnitiumRecordType::CNAME => "CNAME",
            TechnitiumRecordType::MX => "MX",
            TechnitiumRecordType::TXT => "TXT",
            TechnitiumRecordType::NS => "NS",
            TechnitiumRecordType::SRV => "SRV",
            TechnitiumRecordType::CAA => "CAA",
            TechnitiumRecordType::PTR => "PTR",
        }
    }
}

/// `s` without its leading `c` characters (`str::trim_start_matches`).
pub open spec fn strip_leading(s: Seq<char>, c: char) -> Seq<char>
    decreases s.len(),
{
    if s.len() > 0 && s[0] == c {
        strip_leading(s.drop_first(), c)
    } else {
        s
    }
}

fn strip_leading_chars(a: &[char], c: char) -> (r: Vec<char>)
    ensures
        r@ == strip_leading(a@, c),
{
    let mut i: usize = 0;
    assert(a@.skip(0) =~= a@);
    while i < a.len() && a[i] == c
        invariant
            i <= a.len(),
            strip_leading(a@.skip(i as int), c) == strip_leading(a@, c),
        decreases a.len() - i,
    {
        assert(a@.skip(i as int).drop_first() =~= a@.skip(i + 1));
        i = i + 1;
    }
    let r = slice_chars(a, i, a.len());
    assert(r@ =~= a@.skip(i as int));
    r
}

/// The URL text of `path` on a Technitium server: the base URL without its
/// trailing slashes, one slash, then the path without its leading slashes.
pub open spec fn api_url_text(base_url: Seq<char>, path: Seq<char>) -> Seq<char> {
    strip_suffixes(base_url, "/"@) + "/"@ + strip_leading(path, '/')
}

/// The URL text of `path` on the Technitium server at `base_url`.
pub fn api_url(base_url: &str, path: &str) -> (s: String)
    ensures
        s@ == api_url_text(base_url@, path@),
{
    let p = chars_of(path);
    let tail = strip_leading_chars(p.as_slice(), '/');
    let mut v: Vec<char> = Vec::new();
    v.push('/');
    crate::text::extend_chars(&mut v, tail.as_slice());
    let rel = string_of(v.as_slice());
    let s = http_url(base_url, rel.as_str());
    proof {
        reveal_strlit("/");
    }
    assert(s@ =~= api_url_text(base_url@, path@));
    s
}

/// The base URL loses all of its trailing slashes.
proof fn lemma_no_trailing_slash(s: Seq<char>)
    ensures
        !crate::text::has_suffix(strip_suffixes(s, "/"@), "/"@),
    decreases s.len(),
{
    reveal_strlit("/");
    if crate::text::has_suffix(s, "/"@) {
        lemma_no_trailing_slash(s.take(s.len() - 1));
    }
}

/// The path loses all of its leading slashes.
proof fn lemma_no_leading_slash(s: Seq<char>)
    ensures
        strip_leading(s, '/').len() == 0 || strip_leading(s, '/')[0] != '/',
    decreases s.len(),
{
    if s.len() > 0 && s[0] == '/' {
        lemma_no_leading_slash(s.drop_first());
    }
}

/// A Technitium API URL joins the base and the path with exactly one slash:
/// the base part ends in no slash and the path part starts with none,
/// however many the base URL and path carried.
pub proof fn api_url_joins_with_one_slash(base_url: Seq<char>, path: Seq<char>)
    ensures
        api_url_text(base_url, path) == strip_suffixes(base_url, "/"@) + "/"@ + strip_leading(path, '/'),
        !crate::text::has_suffix(strip_suffixes(base_url, "/"@), "/"@),
        strip_leading(path, '/').len() == 0 || strip_leading(path, '/')[0] != '/',
{
    lemma_no_trailing_slash(base_url);
    lemma_no_leading_slash(path);
}

/// What `url::Url::parse` makes of a text: the serialization of the parsed
/// URL, or the message of the parse error.
pub uninterp spec fn parsed_url(text: Seq<char>) -> core::result::Result<Seq<char>, Seq<char>>;

/// `reqwest::Url::parse` (the `url` crate's parser): the parsed URL's
/// serialization, or the parse error's message, as `parsed_url` names them.
#[verifier::external_body]
fn parse_url(text: &str) -> (r: core::result::Result<String, String>)
    ensures
        match r {
            Ok(u) => parsed_url(text@) == Ok::<Seq<char>, Seq<char>>(u@),
            Err(e) => parsed_url(text@) == Err::<Seq<char>, Seq<char>>(e@),
        },
{
    match reqwest::Url::parse(text) {
        Ok(u) => Ok(String::from(u)),
        Err(e) => Err(e.to_string()),
    }
}

/// What a URL parse gives the client: the URL, or a `base_url` validation
/// error that carries the parse error's message.
pub fn url_outcome(parsed: core::result::Result<String, String>) -> (r: Result<String>)
    ensures
        match parsed {
            Ok(u) => r matches Ok(v) && v@ == u@,
            Err(e) => r matches Err(VeltrixError::Validation { field, reason }) && field@
                == "base_url"@ && reason@ == "invalid Technitium URL: "@ + e@,
        },
{
    match parsed {
        Ok(u) => Ok(u),
        Err(e) => {
            let m = concat2("invalid Technitium URL: ", e.as_str());
            Err(VeltrixError::validation("base_url", m.as_str()))
        },
    }
}

/// The parsed URL of `path` on the Technitium server at `base_url`.
pub fn technitium_url(base_url: &str, path: &str) -> (r: Result<String>)
    ensures
        match parsed_url(api_url_text(base_url@, path@)) {
            Ok(u) => r matches Ok(v) && v@ == u,
            Err(e) => r matches Err(VeltrixError::Validation { field, reason }) && field@
                == "base_url"@ && reason@ == "invalid Technitium URL: "@ + e,
        },
{
    let text = api_url(base_url, path);
    let parsed = parse_url(text.as_str());
    url_outcome(parsed)
}

/// A response status outside 200..300 is an HTTP error carrying the body.
pub fn check_status(status_code: u16, body: &[u8]) -> (r: Result<()>)
    ensures
        200 <= status_code < 300 ==> r is Ok,
        !(200 <= status_code < 300) ==> (r matches Err(VeltrixError::Http { status, reason })
            && status == status_code && reason@ == "technitium HTTP response body: "@
            + utf8_lossy(body@)),
{
    if 200 <= status_code && status_code < 300 {
        Ok(())
    } else {
        let b = lossy_string(body);
        let m = concat2("technitium HTTP response body: ", b.as_str());
        Err(VeltrixError::http(status_code, m.as_str()))
    }
}

/// An endpoint that owes a payload must not answer with an empty body.
pub fn require_body(body: &[u8]) -> (r: Result<()>)
    ensures
        body@.len() > 0 ==> r is Ok,
        body@.len() == 0 ==> (r matches Err(VeltrixError::Service { service, reason })
            && service@ == "technitium"@ && reason@
            == "Technitium endpoint returned an empty body"@),
{
    if body.len() == 0 {
        Err(VeltrixError::service("technitium", "Technitium endpoint returned an empty body"))
    } else {
        Ok(())
    }
}

/// The payload of a decoded envelope: the envelope's status is judged first,
/// then a missing payload is a parsing error.
pub fn envelope_payload<T>(status: Option<&str>, error_message: Option<&str>, response: Option<T>) -> (r: Result<T>)
    ensures
        match status {
            Some(s) if !status_is_success(s@) => r matches Err(VeltrixError::Service { service, reason })
                && service@ == "technitium"@ && reason@ == match error_message {
                Some(m) => m@,
                None => "Technitium returned status `"@ + s@ + "`"@,
            },
            _ => match response {
                Some(v) => r == Ok::<T, VeltrixError>(v),
                None => r matches Err(VeltrixError::Parsing { reason }) && reason@
                    == "Technitium response envelope did not contain a response payload"@,
            },
        },
{
    match ensure_envelope_success(status, error_message) {
        Err(e) => Err(e),
        Ok(()) => match response {
            Some(v) => Ok(v),
            None => Err(
                VeltrixError::parsing(
                    "Technitium response envelope did not contain a response payload",
                ),
            ),
        },
    }
}

/// One call of the Technitium HTTP API: method, path, query pairs, bearer
/// token and JSON body.
#[derive(Debug, Clone)]
pub struct TechnitiumRequest {
    /// HTTP method.
    pub method: String,
    /// API path.
    pub path: String,
    /// Query pairs in order, the session token last where there is one.
    pub query: Vec<(String, String)>,
    /// Bearer token for the `Authorization` header.
    pub bearer_token: Option<String>,
    /// JSON request body.
    pub json_body: Option<String>,
}

/// The plain content of a request.
pub struct TechnitiumRequestView {
    pub method: Seq<char>,
    pub path: Seq<char>,
    pub query: Seq<(Seq<char>, Seq<char>)>,
    pub bearer_token: Option<Seq<char>>,
    pub json_body: Option<Seq<char>>,
}

/// The text of each pair of strings.
pub open spec fn pairs_view(v: Seq<(String, String)>) -> Seq<(Seq<char>, Seq<char>)> {
    v.map_values(|p: (String, String)| (p.0@, p.1@))
}

impl View for TechnitiumRequest {
    type V = TechnitiumRequestView;

    open spec fn view(&self) -> TechnitiumRequestView {
        TechnitiumRequestView {
            method: self.method@,
            path: self.path@,
            query: pairs_view(self.query@),
            bearer_token: opt_view(self.bearer_token),
            json_body: opt_view(self.json_body),
        }
    }
}

/// The query pair that a session token adds.
pub open spec fn token_query(auth: TechnitiumAuth) -> Seq<(Seq<char>, Seq<char>)> {
    match auth {
        TechnitiumAuth::SessionToken { token } => seq![("token"@, token@)],
        _ => seq![],
    }
}

/// The bearer token that goes into the `Authorization` header.
pub open spec fn bearer_of(auth: TechnitiumAuth) -> Option<Seq<char>> {
    match auth {
        TechnitiumAuth::BearerToken { token } => Some(token@),
        _ => None,
    }
}

/// A call made with `spec`'s credentials: a session token goes last into the
/// query, a bearer token into the header.
pub open spec fn api_call(
    spec: TechnitiumHttpSpec,
    method: Seq<char>,
    path: Seq<char>,
    query: Seq<(Seq<char>, Seq<char>)>,
    body: Option<Seq<char>>,
) -> TechnitiumRequestView {
    TechnitiumRequestView {
        method,
        path,
        query: query + token_query(spec.auth),
        bearer_token: bearer_of(spec.auth),
        json_body: body,
    }
}

/// The optional `type` pair of a zone creation.
pub open spec fn zone_type_query(zone_type: Option<&str>) -> Seq<(Seq<char>, Seq<char>)> {
    match zone_type {
        Some(t) => seq![("type"@, t@)],
        None => seq![],
    }
}

/// The text of each pair of string slices.
pub open spec fn str_pairs_view(v: Seq<(&str, &str)>) -> Seq<(Seq<char>, Seq<char>)> {
    v.map_values(|p: (&str, &str)| (p.0@, p.1@))
}

/// The login body: the user name and password, each under both of the
/// names that server versions read (keys in sorted order).
pub open spec fn login_body(user: Seq<char>, pass: Seq<char>) -> Seq<char> {
    "{\"pass\":"@ + json_string(pass) + ",\"password\":"@ + json_string(pass) + ",\"user\":"@
        + json_string(user) + ",\"username\":"@ + json_string(user) + "}"@
}

/// The body that adds one record to a zone.
pub open spec fn add_record_body(zone: Seq<char>, record_json: Seq<char>) -> Seq<char> {
    "{\"record\":"@ + record_json + ",\"zone\":"@ + json_string(zone) + "}"@
}

/// The body that imports a zone file.
pub open spec fn import_zone_body(zone: Seq<char>, zone_file: Seq<char>) -> Seq<char> {
    "{\"zone\":"@ + json_string(zone) + ",\"zoneFile\":"@ + json_string(zone_file) + "}"@
}

/// The body that applies several records to a zone.
pub open spec fn bulk_records_body(zone: Seq<char>, records_json: Seq<char>) -> Seq<char> {
    "{\"records\":"@ + records_json + ",\"zone\":"@ + json_string(zone) + "}"@
}

fn pair(k: &str, v: &str) -> (p: (String, String))
    ensures
        p.0@ == k@,
        p.1@ == v@,
{
    (k.to_owned(), v.to_owned())
}

/// Technitium DNS Server HTTP API client: the calls it makes, each as a
/// request for the transport to send.
#[derive(Clone)]
pub struct TechnitiumClient {
    spec: TechnitiumHttpSpec,
}

impl TechnitiumClient {
    /// The configuration this client was made with.
    pub closed spec fn config(&self) -> TechnitiumHttpSpec {
        self.spec
    }

    /// A client for `spec`.
    pub fn new(spec: TechnitiumHttpSpec) -> (c: Self)
        ensures
            c.config() == spec,
    {
        TechnitiumClient { spec }
    }

    /// A client without credentials.
    pub fn unauthenticated(base_url: &str) -> (c: Self)
        ensures
            c.config().base_url@ == base_url@,
            c.config().auth is Unauthenticated,
            c.config().timeout is None,
    {
        TechnitiumClient { spec: TechnitiumHttpSpec::new(base_url) }
    }

    /// The client configuration.
    pub fn spec(&self) -> (s: &TechnitiumHttpSpec)
        ensures
            *s == self.config(),
    {
        &self.spec
    }

    fn call(&self, method: &str, path: &str, query: Vec<(String, String)>, body: Option<String>) -> (r: TechnitiumRequest)
        ensures
            r@ == api_call(self.config(), method@, path@, pairs_view(query@), opt_view(body)),
    {
        let mut q = query;
        let ghost q0 = q@;
        let bearer_token = match &self.spec.auth {
            TechnitiumAuth::SessionToken { token } => {
                q.push(pair("token", token.as_str()));
                None
            },
            TechnitiumAuth::BearerToken { token } => Some(token.clone()),
            TechnitiumAuth::Unauthenticated => None,
        };
        proof {
            reveal_strlit("token");
        }
        assert(pairs_view(q@) =~= pairs_view(q0) + token_query(self.spec.auth));
        TechnitiumRequest {
            method: method.to_owned(),
            path: path.to_owned(),
            query: q,
            bearer_token,
            json_body: body,
        }
    }

    /// `POST /api/user/login` with the user name and password.
    pub fn login(&self, username: &str, password: &str) -> (r: TechnitiumRequest)
        ensures
            r@ == api_call(self.config(), "POST"@, "/api/user/login"@, seq![], Some(login_body(username@, password@))),
    {
        let u = json_quoted(username);
        let p = json_quoted(password);
        let mut v: Vec<char> = Vec::new();
        extend_str(&mut v, "{\"pass\":");
        extend_str(&mut v, p.as_str());
        extend_str(&mut v, ",\"password\":");
        extend_str(&mut v, p.as_str());
        extend_str(&mut v, ",\"user\":");
        extend_str(&mut v, u.as_str());
        extend_str(&mut v, ",\"username\":");
        extend_str(&mut v, u.as_str());
        extend_str(&mut v, "}");
        let body = string_of(v.as_slice());
        assert(body@ =~= login_body(username@, password@));
        let r = self.call("POST", "/api/user/login", Vec::new(), Some(body));
        assert(pairs_view(Seq::<(String, String)>::empty()) =~= seq![]);
        r
    }

    fn get(&self, path: &str, query: Vec<(String, String)>) -> (r: TechnitiumRequest)
        ensures
            r@ == api_call(self.config(), "GET"@, path@, pairs_view(query@), None),
    {
        self.call("GET", path, query, None)
    }

    fn get_plain(&self, path: &str) -> (r: TechnitiumRequest)
        ensures
            r@ == api_call(self.config(), "GET"@, path@, seq![], None),
    {
        let r = self.get(path, Vec::new());
        assert(pairs_view(Seq::<(String, String)>::empty()) =~= seq![]);
        r
    }

    fn post(&self, path: &str, body: String) -> (r: TechnitiumRequest)
        ensures
            r@ == api_call(self.config(), "POST"@, path@, seq![], Some(body@)),
    {
        let r = self.call("POST", path, Vec::new(), Some(body));
        assert(pairs_view(Seq::<(String, String)>::empty()) =~= seq![]);
        r
    }

    /// `GET /api/server/status`.
    pub fn status(&self) -> (r: TechnitiumRequest)
        ensures
            r@ == api_call(self.config(), "GET"@, "/api/server/status"@, seq![], None),
    {
        self.get_plain("/api/server/status")
    }

    /// `GET /api/zones/list`.
    pub fn zones(&self) -> (r: TechnitiumRequest)
        ensures
            r@ == api_call(self.config(), "GET"@, "/api/zones/list"@, seq![], None),
    {
        self.get_plain("/api/zones/list")
    }

    /// `GET /api/zones/create` for `zone`, with its type where one is given.
    pub fn create_zone(&self, zone: &str, zone_type: Option<&str>) -> (r: TechnitiumRequest)
        ensures
            r@ == api_call(self.config(), "GET"@, "/api/zones/create"@,
                seq![("zone"@, zone@)] + zone_type_query(zone_type), None),
    {
        let mut q: Vec<(String, String)> = Vec::new();
        q.push(pair("zone", zone));
        match zone_type {
            Some(t) => {
                q.push(pair("type", t));
            },
            None => {},
        }
        proof {
            reveal_strlit("zone");
            reveal_strlit("type");
        }
        assert(pairs_view(q@) =~= seq![("zone"@, zone@)] + zone_type_query(zone_type));
        self.get("/api/zones/create", q)
    }

    /// `GET /api/zones/update` for `zone` with further key/value pairs.
    pub fn update_zone(&self, zone: &str, params: &[(&str, &str)]) -> (r: TechnitiumRequest)
        ensures
            r@ == api_call(self.config(), "GET"@, "/api/zones/update"@,
                seq![("zone"@, zone@)] + str_pairs_view(params@), None),
    {
        let mut q: Vec<(String, String)> = Vec::new();
        q.push(pair("zone", zone));
        let mut i: usize = 0;
        proof {
            reveal_strlit("zone");
        }
        assert(pairs_view(q@) =~= seq![("zone"@, zone@)] + str_pairs_view(params@.take(0)));
        while i < params.len()
            invariant
                i <= params.len(),
                pairs_view(q@) =~= seq![("zone"@, zone@)] + str_pairs_view(params@.take(i as int)),
            decreases params.len() - i,
        {
            let (k, v) = params[i];
            let ghost before = q@;
            q.push(pair(k, v));
            assert(pairs_view(q@) =~= pairs_view(before).push((k@, v@)));
            assert(params@.take(i + 1) =~= params@.take(i as int).push(params@[i as int]));
            assert(str_pairs_view(params@.take(i + 1)) =~= str_pairs_view(params@.take(i as int)).push(
                (k@, v@),
            ));
            assert(pairs_view(q@) =~= seq![("zone"@, zone@)] + str_pairs_view(params@.take(i + 1)));
            i = i + 1;
        }
        assert(params@.take(params.len() as int) =~= params@);
        self.get("/api/zones/update", q)
    }

    /// `GET /api/zones/delete` for `zone`.
    pub fn delete_zone(&self, zone: &str) -> (r: TechnitiumRequest)
        ensures
            r@ == api_call(self.config(), "GET"@, "/api/zones/delete"@, seq![("zone"@, zone@)], None),
    {
        self.zone_call("/api/zones/delete", zone)
    }

    fn zone_call(&self, path: &str, zone: &str) -> (r: TechnitiumRequest)
        ensures
            r@ == api_call(self.config(), "GET"@, path@, seq![("zone"@, zone@)], None),
    {
        let mut q: Vec<(String, String)> = Vec::new();
        q.push(pair("zone", zone));
        proof {
            reveal_strlit("zone");
        }
        assert(pairs_view(q@) =~= seq![("zone"@, zone@)]);
        self.get(path, q)
    }

    /// `GET /api/zones/records/list` for `zone`.
    pub fn records(&self, zone: &str) -> (r: TechnitiumRequest)
        ensures
            r@ == api_call(self.config(), "GET"@, "/api/zones/records/list"@, seq![("zone"@, zone@)], None),
    {
        self.zone_call("/api/zones/records/list", zone)
    }

    /// `POST /api/zones/records/add` with `zone` and the record's JSON.
    pub fn add_record(&self, zone: &str, record_json: &str) -> (r: TechnitiumRequest)
        ensures
            r@ == api_call(self.config(), "POST"@, "/api/zones/records/add"@, seq![],
                Some(add_record_body(zone@, record_json@))),
    {
        let z = json_quoted(zone);
        let mut v: Vec<char> = Vec::new();
        extend_str(&mut v, "{\"record\":");
        extend_str(&mut v, record_json);
        extend_str(&mut v, ",\"zone\":");
        extend_str(&mut v, z.as_str());
        extend_str(&mut v, "}");
        let body = string_of(v.as_slice());
        assert(body@ =~= add_record_body(zone@, record_json@));
        self.post("/api/zones/records/add", body)
    }

    /// `GET /api/zones/records/delete` for a record of `zone` by type and name.
    pub fn delete_record(&self, zone: &str, record_type: TechnitiumRecordType, name: &str) -> (r: TechnitiumRequest)
        ensures
            r@ == api_call(self.config(), "GET"@, "/api/zones/records/delete"@,
                seq![("zone"@, zone@), ("type"@, record_type.name()), ("name"@, name@)], None),
    {
        let mut q: Vec<(String, String)> = Vec::new();
        q.push(pair("zone", zone));
        q.push(pair("type", record_type.as_str()));
        q.push(pair("name", name));
        proof {
            reveal_strlit("zone");
            reveal_strlit("type");
            reveal_strlit("name");
        }
        assert(pairs_view(q@) =~= seq![("zone"@, zone@), ("type"@, record_type.name()), ("name"@, name@)]);
        self.get("/api/zones/records/delete", q)
    }

    /// `GET /api/settings/get`.
    pub fn settings(&self) -> (r: TechnitiumRequest)
        ensures
            r@ == api_call(self.config(), "GET"@, "/api/settings/get"@, seq![], None),
    {
        self.get_plain("/api/settings/get")
    }

    /// `POST /api/settings/set` with the settings' JSON.
    pub fn update_settings(&self, settings_json: &str) -> (r: TechnitiumRequest)
        ensures
            r@ == api_call(self.config(), "POST"@, "/api/settings/set"@, seq![], Some(settings_json@)),
    {
        self.post("/api/settings/set", settings_json.to_owned())
    }

    /// `GET /api/resolve` for a name and record type.
    pub fn resolve(&self, name: &str, record_type: TechnitiumRecordType) -> (r: TechnitiumRequest)
        ensures
            r@ == api_call(self.config(), "GET"@, "/api/resolve"@,
                seq![("domain"@, name@), ("type"@, record_type.name())], None),
    {
        let mut q: Vec<(String, String)> = Vec::new();
        q.push(pair("domain", name));
        q.push(pair("type", record_type.as_str()));
        proof {
            reveal_strlit("domain");
            reveal_strlit("type");
        }
        assert(pairs_view(q@) =~= seq![("domain"@, name@), ("type"@, record_type.name())]);
        self.get("/api/resolve", q)
    }

    /// `GET /api/logs/list`.
    pub fn logs(&self) -> (r: TechnitiumRequest)
        ensures
            r@ == api_call(self.config(), "GET"@, "/api/logs/list"@, seq![], None),
    {
        self.get_plain("/api/logs/list")
    }

    /// `GET /api/stats/get`.
    pub fn stats(&self) -> (r: TechnitiumRequest)
        ensures
            r@ == api_call(self.config(), "GET"@, "/api/stats/get"@, seq![], None),
    {
        self.get_plain("/api/stats/get")
    }

    /// `GET /api/blocklist/list`.
    pub fn blocklist(&self) -> (r: TechnitiumRequest)
        ensures
            r@ == api_call(self.config(), "GET"@, "/api/blocklist/list"@, seq![], None),
    {
        self.get_plain("/api/blocklist/list")
    }

    /// `GET /api/blocklist/add` for a domain or pattern.
    pub fn add_blocklist_entry(&self, entry: &str) -> (r: TechnitiumRequest)
        ensures
            r@ == api_call(self.config(), "GET"@, "/api/blocklist/add"@, seq![("domain"@, entry@)], None),
    {
        let mut q: Vec<(String, String)> = Vec::new();
        q.push(pair("domain", entry));
        proof {
            reveal_strlit("domain");
        }
        assert(pairs_view(q@) =~= seq![("domain"@, entry@)]);
        self.get("/api/blocklist/add", q)
    }

    /// `POST /api/zones/import` with `zone` and the zone file's text.
    pub fn import_zone(&self, zone: &str, zone_file: &str) -> (r: TechnitiumRequest)
        ensures
            r@ == api_call(self.config(), "POST"@, "/api/zones/import"@, seq![],
                Some(import_zone_body(zone@, zone_file@))),
    {
        let z = json_quoted(zone);
        let f = json_quoted(zone_file);
        let mut v: Vec<char> = Vec::new();
        extend_str(&mut v, "{\"zone\":");
        extend_str(&mut v, z.as_str());
        extend_str(&mut v, ",\"zoneFile\":");
        extend_str(&mut v, f.as_str());
        extend_str(&mut v, "}");
        let body = string_of(v.as_slice());
        assert(body@ =~= import_zone_body(zone@, zone_file@));
        self.post("/api/zones/import", body)
    }

    /// `POST /api/zones/records/bulk` with `zone` and the records' JSON array.
    pub fn bulk_records(&self, zone: &str, records_json: &str) -> (r: TechnitiumRequest)
        ensures
            r@ == api_call(self.config(), "POST"@, "/api/zones/records/bulk"@, seq![],
                Some(bulk_records_body(zone@, records_json@))),
    {
        let z = json_quoted(zone);
        let mut v: Vec<char> = Vec::new();
        extend_str(&mut v, "{\"records\":");
        extend_str(&mut v, records_json);
        extend_str(&mut v, ",\"zone\":");
        extend_str(&mut v, z.as_str());
        extend_str(&mut v, "}");
        let body = string_of(v.as_slice());
        assert(body@ =~= bulk_records_body(zone@, records_json@));
        self.post("/api/zones/records/bulk", body)
    }

    /// The backend recorded in this client's responses.
    pub fn backend_used(&self) -> (b: TechnitiumBackendUsed)
        ensures
            b matches TechnitiumBackendUsed::Http { base_url } && base_url@ == self.config().base_url@,
    {
        TechnitiumBackendUsed::Http { base_url: self.spec.base_url.clone() }
    }
}

} // verus!
