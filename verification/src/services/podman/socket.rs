//! The Libpod API client over Podman's Unix socket: request bytes and how a
//! response is read.
use vstd::prelude::*;

use super::spec::{PodmanBackendUsed, PodmanSocketSpec, PodmanUser};
use crate::error::{Result, VeltrixError};
use crate::services::http::{
    contains_str, contains_text, header_end_of, line_end_of, request_bytes, request_head,
    split_response,
};
use crate::text::{concat2, concat3, extend_str, lossy_string, string_of, utf8_lossy};

verus! {

/// Whether a status line reports 200, 201 or 204.
pub open spec fn status_accepted(line: Seq<char>) -> bool {
    contains_text(line, " 200 "@) || contains_text(line, " 201 "@) || contains_text(line, " 204 "@)
}

/// Whether a status line reports 200, 201 or 204.
pub fn status_line_accepted(line: &str) -> (b: bool)
    ensures
        b == status_accepted(line@),
{
    contains_str(line, " 200 ") || contains_str(line, " 201 ") || contains_str(line, " 204 ")
}

/// The body of a Podman socket response, or why it is refused: no end of
/// headers, or a status other than 200, 201 or 204.
pub fn socket_response(response: &[u8]) -> (r: Result<Vec<u8>>)
    ensures
        match header_end_of(response@) {
            None => r matches Err(VeltrixError::ConfigInvalid { reason }) && reason@
                == "invalid HTTP response from podman socket"@,
            Some(h) => {
                let line = utf8_lossy(response@.take(h).take(line_end_of(response@.take(h))));
                let body = response@.skip(h + 4);
                if status_accepted(line) {
                    r matches Ok(b) && b@ == body
                } else {
                    r matches Err(VeltrixError::ConfigInvalid { reason }) && reason@
                        == "podman socket request failed: "@ + line + "; body: "@ + utf8_lossy(body)
                }
            },
        },
{
    match split_response(response) {
        None => Err(VeltrixError::config_invalid("invalid HTTP response from podman socket")),
        Some((status, body)) => {
            let line = lossy_string(status.as_slice());
            if status_line_accepted(line.as_str()) {
                Ok(body)
            } else {
                let b = lossy_string(body.as_slice());
                let mut v: Vec<char> = Vec::new();
                extend_str(&mut v, "podman socket request failed: ");
                extend_str(&mut v, line.as_str());
                extend_str(&mut v, "; body: ");
                extend_str(&mut v, b.as_str());
                let m = string_of(v.as_slice());
                Err(VeltrixError::config_invalid(m.as_str()))
            }
        },
    }
}

/// `endpoint` under the Libpod API version prefix.
pub open spec fn libpod_path(endpoint: Seq<char>) -> Seq<char> {
    "/v5.0.0"@ + endpoint
}

/// A JSON body is required: an empty one is an error naming the path.
pub fn json_body(path: &str, body: &[u8]) -> (r: Result<()>)
    ensures
        body@.len() > 0 ==> r is Ok,
        body@.len() == 0 ==> (r matches Err(VeltrixError::ConfigInvalid { reason }) && reason@
            == "podman endpoint returned empty body: "@ + path@),
{
    if body.len() == 0 {
        let m = concat2("podman endpoint returned empty body: ", path);
        Err(VeltrixError::config_invalid(m.as_str()))
    } else {
        Ok(())
    }
}

/// Libpod API client over a Unix socket.
#[derive(Debug, Clone)]
pub struct PodmanSocketClient {
    spec: PodmanSocketSpec,
}

impl PodmanSocketClient {
    /// The configuration this client was made with.
    pub closed spec fn config(&self) -> PodmanSocketSpec {
        self.spec
    }

    /// A client for `spec`.
    pub fn new(spec: PodmanSocketSpec) -> (c: Self)
        ensures
            c.config() == spec,
    {
        PodmanSocketClient { spec }
    }

    /// The underlying spec.
    pub fn spec(&self) -> (s: &PodmanSocketSpec)
        ensures
            *s == self.config(),
    {
        &self.spec
    }

    /// A request to the Libpod API for `endpoint`: the request path and bytes.
    pub fn request(&self, method: &str, endpoint: &str) -> (r: (String, Vec<u8>))
        ensures
            r.0@ == libpod_path(endpoint@),
            r.1@ == vstd::utf8::encode_utf8(request_head(method@, libpod_path(endpoint@), "podman"@, 0)),
    {
        let path = concat2("/v5.0.0", endpoint);
        let bytes = request_bytes(method, path.as_str(), "podman", None);
        assert(bytes@ =~= vstd::utf8::encode_utf8(
            request_head(method@, libpod_path(endpoint@), "podman"@, 0),
        ));
        (path, bytes)
    }

    /// `GET /libpod/info`.
    pub fn info(&self) -> (r: (String, Vec<u8>))
        ensures
            r.0@ == libpod_path("/libpod/info"@),
            r.1@ == vstd::utf8::encode_utf8(request_head("GET"@, libpod_path("/libpod/info"@), "podman"@, 0)),
    {
        self.request("GET", "/libpod/info")
    }

    /// `GET /libpod/version`.
    pub fn version(&self) -> (r: (String, Vec<u8>))
        ensures
            r.0@ == libpod_path("/libpod/version"@),
            r.1@ == vstd::utf8::encode_utf8(request_head("GET"@, libpod_path("/libpod/version"@), "podman"@, 0)),
    {
        self.request("GET", "/libpod/version")
    }

    /// `GET /libpod/containers/json?all=true`.
    pub fn containers(&self) -> (r: (String, Vec<u8>))
        ensures
            r.0@ == libpod_path("/libpod/containers/json?all=true"@),
            r.1@ == vstd::utf8::encode_utf8(
                request_head("GET"@, libpod_path("/libpod/containers/json?all=true"@), "podman"@, 0),
            ),
    {
        self.request("GET", "/libpod/containers/json?all=true")
    }

    /// `POST /libpod/containers/<id>/start`.
    pub fn start_container(&self, id: &str) -> (r: (String, Vec<u8>))
        ensures
            r.0@ == libpod_path("/libpod/containers/"@ + id@ + "/start"@),
            r.1@ == vstd::utf8::encode_utf8(
                request_head("POST"@, libpod_path("/libpod/containers/"@ + id@ + "/start"@), "podman"@, 0),
            ),
    {
        let e = concat3("/libpod/containers/", id, "/start");
        self.request("POST", e.as_str())
    }

    /// `POST /libpod/containers/<id>/stop`.
    pub fn stop_container(&self, id: &str) -> (r: (String, Vec<u8>))
        ensures
            r.0@ == libpod_path("/libpod/containers/"@ + id@ + "/stop"@),
            r.1@ == vstd::utf8::encode_utf8(
                request_head("POST"@, libpod_path("/libpod/containers/"@ + id@ + "/stop"@), "podman"@, 0),
            ),
    {
        let e = concat3("/libpod/containers/", id, "/stop");
        self.request("POST", e.as_str())
    }

    /// The backend recorded in this client's responses.
    pub fn backend_used(&self) -> (b: PodmanBackendUsed)
        ensures
            b matches PodmanBackendUsed::Socket { socket_path, user } && socket_path@
                == self.config().socket_path@ && user == self.config().user,
    {
        PodmanBackendUsed::Socket {
            socket_path: self.spec.socket_path.clone(),
            user: copy_user(&self.spec.user),
        }
    }
}

fn copy_user(u: &Option<PodmanUser>) -> (r: Option<PodmanUser>)
    ensures
        r == *u,
{
    match u {
        Some(x) => Some(
            PodmanUser {
                uid: x.uid,
                gid: x.gid,
                username: match &x.username {
                    Some(n) => Some(n.clone()),
                    None => None,
                },
            },
        ),
        None => None,
    }
}


/// A status line whose status code is 200, 201 or 204 is accepted, whatever
/// protocol version comes before the code and whatever reason phrase after.
pub proof fn success_codes_are_accepted(version: Seq<char>, reason: Seq<char>)
    ensures
        status_accepted(version + " 200 "@ + reason),
        status_accepted(version + " 201 "@ + reason),
        status_accepted(version + " 204 "@ + reason),
{
    reveal_strlit(" 200 ");
    reveal_strlit(" 201 ");
    reveal_strlit(" 204 ");
    let i = version.len() as int;
    assert((version + " 200 "@ + reason).subrange(i, i + 5) =~= " 200 "@);
    assert(crate::services::http::occurs_at(version + " 200 "@ + reason, " 200 "@, i));
    assert((version + " 201 "@ + reason).subrange(i, i + 5) =~= " 201 "@);
    assert(crate::services::http::occurs_at(version + " 201 "@ + reason, " 201 "@, i));
    assert((version + " 204 "@ + reason).subrange(i, i + 5) =~= " 204 "@);
    assert(crate::services::http::occurs_at(version + " 204 "@ + reason, " 204 "@, i));
}

} // verus!
