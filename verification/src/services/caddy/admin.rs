//! The Caddy admin API client: which calls it makes, where they go, and how
//! a raw HTTP response is read.
use vstd::prelude::*;

use super::spec::{CaddyAdminEndpoint, CaddyAdminSpec, CaddyBackendUsed};
use crate::error::{Result, VeltrixError};
use crate::services::docker::status_code_of;
use crate::services::http::{header_end_of, line_end_of, request_bytes, request_head, split_response};
use crate::services::systemd::cli::strip_suffixes;
use crate::text::{
    chars_of, concat2, extend_str, int_error_message, int_error_text, lossy_string, parse_uint,
    parse_uint_chars, seqs_of, split_whitespace_chars, string_of, utf8_lossy, words,
};

verus! {

/// A successful raw HTTP response: its status code and body.
#[derive(Debug, Clone)]
pub struct HttpRawResponse {
    pub status_code: u16,
    pub body: Vec<u8>,
}

/// One admin API call: its HTTP method and path.
#[derive(Debug, Clone)]
pub struct CaddyAdminCall {
    pub method: String,
    pub path: String,
}

/// Why a status line has no readable status code: no second word, or a
/// second word that is not a `u16`.
pub open spec fn status_line_error(line: Seq<char>) -> Seq<char> {
    if words(line).len() < 2 {
        "invalid HTTP status line: "@ + line
    } else {
        match parse_uint(words(line)[1], 65535) {
            Err(k) => "invalid HTTP status code: "@ + int_error_text(k),
            Ok(_) => Seq::empty(),
        }
    }
}

/// Reads the status code of a status line, with Caddy's error messages: a
/// line without a second word, or a second word that is not a `u16`.
pub fn parse_status_code(status_line: &str) -> (r: Result<u16>)
    ensures
        words(status_line@).len() < 2 ==> (r matches Err(VeltrixError::ConfigInvalid { reason })
            && reason@ == "invalid HTTP status line: "@ + status_line@),
        words(status_line@).len() >= 2 ==> match parse_uint(words(status_line@)[1], 65535) {
            Ok(n) => r matches Ok(c) && c as nat == n,
            Err(k) => r matches Err(VeltrixError::ConfigInvalid { reason }) && reason@
                == "invalid HTTP status code: "@ + int_error_text(k),
        },
{
    let cs = chars_of(status_line);
    let ws = split_whitespace_chars(cs.as_slice());
    assert(seqs_of(ws@) == words(status_line@));
    if ws.len() < 2 {
        let m = concat2("invalid HTTP status line: ", status_line);
        return Err(VeltrixError::config_invalid(m.as_str()));
    }
    assert(ws@[1]@ == words(status_line@)[1]);
    match parse_uint_chars(ws[1].as_slice(), 65535) {
        Ok(n) => Ok(n as u16),
        Err(k) => {
            let m = concat2("invalid HTTP status code: ", int_error_message(k));
            Err(VeltrixError::config_invalid(m.as_str()))
        },
    }
}

fn failed(context: &str, line: &str, body: &[u8]) -> (e: VeltrixError)
    ensures
        e matches VeltrixError::ConfigInvalid { reason } && reason@ == context@
            + " request failed: "@ + line@ + "; body: "@ + utf8_lossy(body@),
{
    let b = lossy_string(body);
    let mut v: Vec<char> = Vec::new();
    extend_str(&mut v, context);
    extend_str(&mut v, " request failed: ");
    extend_str(&mut v, line);
    extend_str(&mut v, "; body: ");
    extend_str(&mut v, b.as_str());
    let m = string_of(v.as_slice());
    VeltrixError::config_invalid(m.as_str())
}

/// Reads a raw response from the admin socket: it must have an end of
/// headers, a readable status code, and a 2xx status.
pub fn parse_http_response(response: &[u8], context: &str) -> (r: Result<HttpRawResponse>)
    ensures
        header_end_of(response@) is None ==> (r matches Err(VeltrixError::ConfigInvalid { reason })
            && reason@ == "invalid HTTP response from "@ + context@),
        header_end_of(response@) matches Some(h) ==> ({
            let line = utf8_lossy(response@.take(h).take(line_end_of(response@.take(h))));
            let body = response@.skip(h + 4);
            &&& (status_code_of(line) matches Some(n) ==> (if 200 <= n < 300 {
                r matches Ok(raw) && raw.status_code as nat == n && raw.body@ == body
            } else {
                r matches Err(VeltrixError::ConfigInvalid { reason }) && reason@ == context@
                    + " request failed: "@ + line + "; body: "@ + utf8_lossy(body)
            }))
            &&& status_code_of(line) is None ==> (r matches Err(VeltrixError::ConfigInvalid { reason })
                && reason@ == status_line_error(line))
        }),
{
    match split_response(response) {
        None => {
            let m = concat2("invalid HTTP response from ", context);
            Err(VeltrixError::config_invalid(m.as_str()))
        },
        Some((status, body)) => {
            let line = lossy_string(status.as_slice());
            let code = match parse_status_code(line.as_str()) {
                Ok(c) => c,
                Err(e) => return Err(e),
            };
            if code < 200 || code >= 300 {
                return Err(failed(context, line.as_str(), body.as_slice()));
            }
            Ok(HttpRawResponse { status_code: code, body })
        },
    }
}

/// An HTTP status must be 2xx; otherwise the failure names the status and
/// the body.
pub fn check_http_status(status_code: u16, body: &[u8]) -> (r: Result<()>)
    ensures
        200 <= status_code < 300 ==> r is Ok,
        !(200 <= status_code < 300) ==> (r matches Err(VeltrixError::ConfigInvalid { reason })
            && reason@ == "caddy HTTP request failed: status "@ + crate::text::decimal(
            status_code as nat,
        ) + "; body: "@ + utf8_lossy(body@)),
{
    if 200 <= status_code && status_code < 300 {
        return Ok(());
    }
    let b = lossy_string(body);
    let mut v: Vec<char> = Vec::new();
    extend_str(&mut v, "caddy HTTP request failed: status ");
    crate::text::push_decimal(&mut v, status_code as u64);
    extend_str(&mut v, "; body: ");
    extend_str(&mut v, b.as_str());
    let m = string_of(v.as_slice());
    Err(VeltrixError::config_invalid(m.as_str()))
}

/// The admin HTTP methods this client sends.
pub open spec fn supported_method(m: Seq<char>) -> bool {
    m == "GET"@ || m == "POST"@ || m == "PUT"@ || m == "PATCH"@ || m == "DELETE"@
}

/// Only GET, POST, PUT, PATCH and DELETE are sent over HTTP.
pub fn check_http_method(method: &str) -> (r: Result<()>)
    ensures
        supported_method(method@) ==> r is Ok,
        !supported_method(method@) ==> (r matches Err(VeltrixError::ConfigInvalid { reason })
            && reason@ == "unsupported caddy HTTP method: "@ + method@),
{
    if crate::text::str_eq(method, "GET") || crate::text::str_eq(method, "POST")
        || crate::text::str_eq(method, "PUT") || crate::text::str_eq(method, "PATCH")
        || crate::text::str_eq(method, "DELETE") {
        Ok(())
    } else {
        let m = concat2("unsupported caddy HTTP method: ", method);
        Err(VeltrixError::config_invalid(m.as_str()))
    }
}

/// A JSON answer needs a body; an empty one is an error naming the path.
pub fn json_body(path: &str, body: &[u8]) -> (r: Result<()>)
    ensures
        body@.len() > 0 ==> r is Ok,
        body@.len() == 0 ==> (r matches Err(VeltrixError::ConfigInvalid { reason }) && reason@
            == "caddy endpoint returned empty body: "@ + path@),
{
    if body.len() == 0 {
        let m = concat2("caddy endpoint returned empty body: ", path);
        Err(VeltrixError::config_invalid(m.as_str()))
    } else {
        Ok(())
    }
}

/// The URL of `path` on an HTTP admin endpoint: the base URL without its
/// trailing slashes, then the path.
pub fn http_url(base_url: &str, path: &str) -> (s: String)
    ensures
        s@ == strip_suffixes(base_url@, "/"@) + path@,
{
    let b = chars_of(base_url);
    let mut k: usize = b.len();
    proof {
        reveal_strlit("/");
    }
    assert(b@.take(k as int) =~= b@);
    while k > 0 && b[k - 1] == '/'
        invariant
            k <= b.len(),
            b@ == base_url@,
            strip_suffixes(base_url@, "/"@) == strip_suffixes(b@.take(k as int), "/"@),
        decreases k,
    {
        proof {
            reveal_strlit("/");
        }
        assert(crate::text::has_suffix(b@.take(k as int), "/"@)) by {
            assert(b@.take(k as int).subrange(k - 1, k as int) =~= "/"@);
        }
        assert(b@.take(k as int).take(k - 1) =~= b@.take(k - 1));
        k = k - 1;
    }
    proof {
        reveal_strlit("/");
        if k > 0 {
            assert(!crate::text::has_suffix(b@.take(k as int), "/"@)) by {
                if crate::text::has_suffix(b@.take(k as int), "/"@) {
                    assert(b@.take(k as int).subrange(k - 1, k as int)[0] == b@[k - 1]);
                }
            }
        }
    }
    let mut v = crate::text::slice_chars(b.as_slice(), 0, k);
    extend_str(&mut v, path);
    string_of(v.as_slice())
}

/// Caddy admin API client.
#[derive(Debug, Clone)]
pub struct CaddyAdminClient {
    spec: CaddyAdminSpec,
}

impl CaddyAdminClient {
    /// The configuration this client was made with.
    pub closed spec fn admin_spec(&self) -> CaddyAdminSpec {
        self.spec
    }

    /// A client for `spec`.
    pub fn new(spec: CaddyAdminSpec) -> (c: Self)
        ensures
            c.admin_spec() == spec,
    {
        CaddyAdminClient { spec }
    }

    /// A client for the default endpoint, `http://localhost:2019`.
    pub fn localhost_default() -> (c: Self)
        ensures
            c.admin_spec().endpoint matches CaddyAdminEndpoint::Http { base_url } && base_url@
                == "http://localhost:2019"@,
    {
        Self::new(CaddyAdminSpec::localhost_default())
    }

    /// The underlying spec.
    pub fn spec(&self) -> (s: &CaddyAdminSpec)
        ensures
            *s == self.admin_spec(),
    {
        &self.spec
    }

    /// The backend recorded in this client's responses: the endpoint it talks to.
    pub fn backend_used(&self) -> (b: CaddyBackendUsed)
        ensures
            self.admin_spec().endpoint matches CaddyAdminEndpoint::Http { base_url } ==> (
            b matches CaddyBackendUsed::Http { base_url: u } && u@ == base_url@),
            self.admin_spec().endpoint matches CaddyAdminEndpoint::UnixSocket { socket_path } ==> (
            b matches CaddyBackendUsed::UnixSocket { socket_path: p } && p@ == socket_path@),
    {
        match &self.spec.endpoint {
            CaddyAdminEndpoint::Http { base_url } => CaddyBackendUsed::Http {
                base_url: base_url.clone(),
            },
            CaddyAdminEndpoint::UnixSocket { socket_path } => CaddyBackendUsed::UnixSocket {
                socket_path: socket_path.clone(),
            },
        }
    }

    fn call(method: &str, path: &str) -> (c: CaddyAdminCall)
        ensures
            c.method@ == method@,
            c.path@ == path@,
    {
        CaddyAdminCall { method: method.to_owned(), path: path.to_owned() }
    }

    /// `GET /config/`: the running configuration.
    pub fn config(&self) -> (c: CaddyAdminCall)
        ensures
            c.method@ == "GET"@,
            c.path@ == "/config/"@,
    {
        Self::call("GET", "/config/")
    }

    /// `POST /load` with a configuration as the JSON body.
    pub fn load_config(&self) -> (c: CaddyAdminCall)
        ensures
            c.method@ == "POST"@,
            c.path@ == "/load"@,
    {
        Self::call("POST", "/load")
    }

    /// `POST /stop`.
    pub fn stop(&self) -> (c: CaddyAdminCall)
        ensures
            c.method@ == "POST"@,
            c.path@ == "/stop"@,
    {
        Self::call("POST", "/stop")
    }

    /// `GET /id/`.
    pub fn id_list(&self) -> (c: CaddyAdminCall)
        ensures
            c.method@ == "GET"@,
            c.path@ == "/id/"@,
    {
        Self::call("GET", "/id/")
    }

    /// `GET /pki/ca/<ca_id>`.
    pub fn pki_ca(&self, ca_id: &str) -> (c: CaddyAdminCall)
        ensures
            c.method@ == "GET"@,
            c.path@ == "/pki/ca/"@ + ca_id@,
    {
        let p = concat2("/pki/ca/", ca_id);
        Self::call("GET", p.as_str())
    }

    /// The bytes of a call over the admin Unix socket.
    pub fn unix_request(call: &CaddyAdminCall, body: Option<&[u8]>) -> (r: Vec<u8>)
        ensures
            r@ == vstd::utf8::encode_utf8(
                request_head(
                    call.method@,
                    call.path@,
                    "caddy"@,
                    match body {
                        Some(b) => b@.len(),
                        None => 0,
                    },
                ),
            ) + match body {
                Some(b) => b@,
                None => Seq::empty(),
            },
    {
        request_bytes(call.method.as_str(), call.path.as_str(), "caddy", body)
    }
}

} // verus!
