//! Docker integration: backend specs, response wrappers, and the Engine API
//! over Docker's Unix socket.
use vstd::prelude::*;

use crate::error::{Result, VeltrixError};
use crate::services::http::{
    header_end_of, line_end_of, request_bytes, request_head, split_response,
};
use crate::services::podman::socket::{status_accepted, status_line_accepted};
use crate::os::process::strings_view;
use crate::text::{
    chars_of, concat2, lines, nonblank, nonblank_lines, concat3, extend_str, lossy_string, parse_uint, parse_uint_chars,
    seqs_of, split_whitespace_chars, string_of, utf8_error_text, utf8_lossy, utf8_string, words,
};

verus! {

/// Docker Engine API version used in socket request paths.
pub const SUPPORTED_DOCKER_API_VERSION: &'static str = "1.40";

/// Docker backend specification for CLI-based execution.
#[derive(Debug, Clone)]
pub struct DockerCliSpec {
    pub binary: String,
    pub sudo: bool,
}

impl DockerCliSpec {
    /// The default CLI spec: `docker`, without sudo.
    pub fn new() -> (s: Self)
        ensures
            s.binary@ == "docker"@,
            !s.sudo,
    {
        DockerCliSpec { binary: "docker".to_owned(), sudo: false }
    }

    /// Set the docker executable.
    pub fn binary(self, binary: &str) -> (s: Self)
        ensures
            s.binary@ == binary@,
            s.sudo == self.sudo,
    {
        DockerCliSpec { binary: binary.to_owned(), ..self }
    }

    /// Run docker through sudo.
    pub fn sudo(self) -> (s: Self)
        ensures
            s == (DockerCliSpec { sudo: true, ..self }),
    {
        DockerCliSpec { sudo: true, ..self }
    }
}

impl Default for DockerCliSpec {
    fn default() -> (s: Self)
        ensures
            s.binary@ == "docker"@,
            !s.sudo,
    {
        DockerCliSpec::new()
    }
}

/// Docker backend specification for Unix socket-based API access.
#[derive(Debug, Clone)]
pub struct DockerSocketSpec {
    pub socket_path: String,
}

impl DockerSocketSpec {
    /// The default socket, `/var/run/docker.sock`.
    pub fn new() -> (s: Self)
        ensures
            s.socket_path@ == "/var/run/docker.sock"@,
    {
        DockerSocketSpec { socket_path: "/var/run/docker.sock".to_owned() }
    }

    /// Use the socket at `path`.
    pub fn socket_path(self, path: &str) -> (s: Self)
        ensures
            s.socket_path@ == path@,
    {
        DockerSocketSpec { socket_path: path.to_owned() }
    }
}

/// Docker Compose specification for compose-based operations.
#[derive(Debug, Clone)]
pub struct DockerComposeSpec {
    pub binary: String,
    pub compose_file: Option<String>,
}

impl DockerComposeSpec {
    /// The default Compose spec: `docker-compose`, no compose file.
    pub fn new() -> (s: Self)
        ensures
            s.binary@ == "docker-compose"@,
            s.compose_file is None,
    {
        DockerComposeSpec { binary: "docker-compose".to_owned(), compose_file: None }
    }

    /// Set the compose executable.
    pub fn binary(self, binary: &str) -> (s: Self)
        ensures
            s.binary@ == binary@,
            s.compose_file == self.compose_file,
    {
        DockerComposeSpec { binary: binary.to_owned(), ..self }
    }

    /// Set the compose file.
    pub fn compose_file(self, file: &str) -> (s: Self)
        ensures
            s.binary == self.binary,
            s.compose_file matches Some(f) && f@ == file@,
    {
        DockerComposeSpec { compose_file: Some(file.to_owned()), ..self }
    }
}

impl Default for DockerComposeSpec {
    fn default() -> (s: Self)
        ensures
            s.binary@ == "docker-compose"@,
            s.compose_file is None,
    {
        DockerComposeSpec::new()
    }
}

/// Metadata describing which Docker backend was used for a response.
#[derive(Debug, Clone)]
pub enum DockerBackendUsed {
    Cli { binary: String, sudo: bool },
    Socket { socket_path: String },
    Compose { binary: String, compose_file: Option<String> },
}

/// Standard response wrapper for Docker API calls.
#[derive(Debug, Clone)]
pub struct DockerResponse<T> {
    pub data: T,
    pub backend: DockerBackendUsed,
}

impl<T> DockerResponse<T> {
    /// Wraps `data` with the backend that produced it.
    pub fn new(data: T, backend: DockerBackendUsed) -> (r: Self)
        ensures
            r.data == data,
            r.backend == backend,
    {
        DockerResponse { data, backend }
    }
}

/// Empty response for successful operations with no body (e.g., stop, remove).
#[derive(Debug, Clone)]
pub struct DockerEmptyResponse {
    pub backend: DockerBackendUsed,
}

impl DockerEmptyResponse {
    /// An empty response from `backend`.
    pub fn new(backend: DockerBackendUsed) -> (r: Self)
        ensures
            r.backend == backend,
    {
        DockerEmptyResponse { backend }
    }
}

/// Container log output.
#[derive(Debug, Clone)]
pub struct DockerLogs {
    pub output: String,
}

/// The error every not yet supported Docker CLI operation gives.
pub open spec fn not_implemented_error(e: VeltrixError) -> bool {
    e matches VeltrixError::Service { service, reason } && service@ == "docker"@ && reason@
        == "Docker v1 API not yet implemented (v0.5.0 target)"@
}

fn not_implemented() -> (e: VeltrixError)
    ensures
        not_implemented_error(e),
{
    VeltrixError::service("docker", "Docker v1 API not yet implemented (v0.5.0 target)")
}

/// Docker CLI client.
#[derive(Debug, Clone)]
pub struct DockerCliClient {
    spec: DockerCliSpec,
}

impl DockerCliClient {
    /// The configuration this client was made with.
    pub closed spec fn config(&self) -> DockerCliSpec {
        self.spec
    }

    /// A client for `spec`.
    pub fn new(spec: DockerCliSpec) -> (c: Self)
        ensures
            c.config() == spec,
    {
        DockerCliClient { spec }
    }

    /// The underlying spec.
    pub fn spec(&self) -> (s: &DockerCliSpec)
        ensures
            *s == self.config(),
    {
        &self.spec
    }

    /// Docker version information: not supported by the CLI client yet.
    pub fn version(&self) -> (r: Result<()>)
        ensures
            r matches Err(e) && not_implemented_error(e),
    {
        Err(not_implemented())
    }

    /// Docker system information: not supported by the CLI client yet.
    pub fn info(&self) -> (r: Result<()>)
        ensures
            r matches Err(e) && not_implemented_error(e),
    {
        Err(not_implemented())
    }

    /// Container listing: not supported by the CLI client yet.
    pub fn containers(&self) -> (r: Result<()>)
        ensures
            r matches Err(e) && not_implemented_error(e),
    {
        Err(not_implemented())
    }
}

/// `endpoint` under the Engine API version prefix.
pub open spec fn versioned(endpoint: Seq<char>) -> Seq<char> {
    "/v1.40"@ + endpoint
}

/// `endpoint` under the Engine API version prefix.
pub fn versioned_path(endpoint: &str) -> (s: String)
    ensures
        s@ == versioned(endpoint@),
{
    concat2("/v1.40", endpoint)
}

/// The bytes a URL query component may hold as they are.
pub open spec fn is_unreserved(b: u8) -> bool {
    (65 <= b <= 90) || (97 <= b <= 122) || (48 <= b <= 57) || b == 45 || b == 46 || b == 95
        || b == 126
}

/// The uppercase hexadecimal digit for a value below 16.
pub open spec fn hex_digit(d: nat) -> char {
    if d < 10 {
        ((d + 48) as u8) as char
    } else {
        ((d + 55) as u8) as char
    }
}

/// Percent-encoding of bytes: unreserved bytes as they are, every other
/// byte as `%` and two uppercase hexadecimal digits.
pub open spec fn percent_encode(bs: Seq<u8>) -> Seq<char>
    decreases bs.len(),
{
    if bs.len() == 0 {
        Seq::empty()
    } else {
        let b = bs.last();
        percent_encode(bs.drop_last()) + if is_unreserved(b) {
            seq![b as char]
        } else {
            seq!['%', hex_digit((b / 16) as nat), hex_digit((b % 16) as nat)]
        }
    }
}

fn hex_char(d: u8) -> (c: char)
    requires
        d < 16,
    ensures
        c == hex_digit(d as nat),
{
    if d < 10 {
        (d + 48u8) as char
    } else {
        (d + 55u8) as char
    }
}

/// Percent-encodes the UTF-8 bytes of a query component.
pub fn encode_query_component(value: &str) -> (s: String)
    ensures
        s@ == percent_encode(vstd::utf8::encode_utf8(value@)),
{
    let bytes = value.as_bytes();
    let mut out: Vec<char> = Vec::new();
    let mut i: usize = 0;
    while i < bytes.len()
        invariant
            i <= bytes@.len(),
            bytes@ == vstd::utf8::encode_utf8(value@),
            out@ == percent_encode(bytes@.take(i as int)),
        decreases bytes.len() - i,
    {
        let b = bytes[i];
        assert(bytes@.take(i + 1).drop_last() =~= bytes@.take(i as int));
        if (65 <= b && b <= 90) || (97 <= b && b <= 122) || (48 <= b && b <= 57) || b == 45 || b == 46
            || b == 95 || b == 126 {
            out.push(b as char);
        } else {
            out.push('%');
            out.push(hex_char(b / 16));
            out.push(hex_char(b % 16));
        }
        assert(out@ =~= percent_encode(bytes@.take(i + 1)));
        i = i + 1;
    }
    assert(bytes@.take(bytes.len() as int) =~= bytes@);
    string_of(out.as_slice())
}

/// The status code in a status line: its second word read as a `u16`.
pub open spec fn status_code_of(line: Seq<char>) -> Option<nat> {
    if words(line).len() > 1 && parse_uint(words(line)[1], 65535) is Ok {
        Some(parse_uint(words(line)[1], 65535)->Ok_0)
    } else {
        None
    }
}

/// Reads the status code of a status line.
pub fn parse_status_code(status_line: &str) -> (r: Option<u16>)
    ensures
        match status_code_of(status_line@) {
            Some(n) => r matches Some(c) && c as nat == n,
            None => r is None,
        },
{
    let cs = chars_of(status_line);
    let ws = split_whitespace_chars(cs.as_slice());
    assert(seqs_of(ws@) == words(status_line@));
    if ws.len() < 2 {
        return None;
    }
    assert(ws@[1]@ == words(status_line@)[1]);
    match parse_uint_chars(ws[1].as_slice(), 65535) {
        Ok(n) => Some(n as u16),
        Err(_) => None,
    }
}

/// The body of a Docker socket response, or why it is refused: no end of
/// headers (a parse error), or a status other than 200, 201 or 204 (an HTTP
/// error with the status code, or 0 when there is none).
pub fn socket_response(response: &[u8]) -> (r: Result<Vec<u8>>)
    ensures
        match header_end_of(response@) {
            None => r matches Err(VeltrixError::Parsing { reason }) && reason@
                == "invalid HTTP response from docker socket"@,
            Some(h) => {
                let line = utf8_lossy(response@.take(h).take(line_end_of(response@.take(h))));
                let body = response@.skip(h + 4);
                if status_accepted(line) {
                    r matches Ok(b) && b@ == body
                } else {
                    r matches Err(VeltrixError::Http { status, reason }) && status as nat == (
                    match status_code_of(line) {
                        Some(n) => n,
                        None => 0,
                    }) && reason@ == "docker socket request failed: "@ + line + "; body: "@
                        + utf8_lossy(body)
                }
            },
        },
{
    match split_response(response) {
        None => Err(VeltrixError::parsing("invalid HTTP response from docker socket")),
        Some((status, body)) => {
            let line = lossy_string(status.as_slice());
            if status_line_accepted(line.as_str()) {
                Ok(body)
            } else {
                Err(refused(line.as_str(), body.as_slice()))
            }
        },
    }
}

fn refused(line: &str, body: &[u8]) -> (e: VeltrixError)
    ensures
        e matches VeltrixError::Http { status, reason } && status as nat == (match status_code_of(
            line@,
        ) {
            Some(n) => n,
            None => 0,
        }) && reason@ == "docker socket request failed: "@ + line@ + "; body: "@ + utf8_lossy(body@),
{
    let code = match parse_status_code(line) {
        Some(c) => c,
        None => 0,
    };
    let b = lossy_string(body);
    let mut v: Vec<char> = Vec::new();
    extend_str(&mut v, "docker socket request failed: ");
    extend_str(&mut v, line);
    extend_str(&mut v, "; body: ");
    extend_str(&mut v, b.as_str());
    let m = string_of(v.as_slice());
    VeltrixError::http(code, m.as_str())
}

/// The bytes of an Engine API request.
pub open spec fn engine_request(method: Seq<char>, endpoint: Seq<char>, body: Seq<u8>) -> Seq<u8> {
    vstd::utf8::encode_utf8(request_head(method, versioned(endpoint), "docker"@, body.len()))
        + body
}

/// Docker Engine API client over a Unix socket.
#[derive(Debug, Clone)]
pub struct DockerSocketClient {
    spec: DockerSocketSpec,
}

impl DockerSocketClient {
    /// The configuration this client was made with.
    pub closed spec fn config(&self) -> DockerSocketSpec {
        self.spec
    }

    /// A client for `spec`.
    pub fn new(spec: DockerSocketSpec) -> (c: Self)
        ensures
            c.config() == spec,
    {
        DockerSocketClient { spec }
    }

    /// The underlying spec.
    pub fn spec(&self) -> (s: &DockerSocketSpec)
        ensures
            *s == self.config(),
    {
        &self.spec
    }

    /// The backend recorded in this client's responses.
    pub fn backend_used(&self) -> (b: DockerBackendUsed)
        ensures
            b matches DockerBackendUsed::Socket { socket_path } && socket_path@
                == self.config().socket_path@,
    {
        DockerBackendUsed::Socket { socket_path: self.spec.socket_path.clone() }
    }

    /// The request bytes for `method` on `endpoint`, under the API version
    /// prefix, with an optional JSON body.
    pub fn request(&self, method: &str, endpoint: &str, body: Option<&[u8]>) -> (r: Vec<u8>)
        ensures
            r@ == engine_request(
                method@,
                endpoint@,
                match body {
                    Some(b) => b@,
                    None => Seq::empty(),
                },
            ),
    {
        let path = versioned_path(endpoint);
        request_bytes(method, path.as_str(), "docker", body)
    }

    /// The endpoint that creates a container, named when a name is given.
    pub fn create_container_endpoint(name: Option<&str>) -> (s: String)
        ensures
            name matches Some(n) ==> s@ == "/containers/create?name="@ + percent_encode(
                vstd::utf8::encode_utf8(n@),
            ),
            name is None ==> s@ == "/containers/create"@,
    {
        match name {
            Some(n) => {
                let e = encode_query_component(n);
                concat2("/containers/create?name=", e.as_str())
            },
            None => "/containers/create".to_owned(),
        }
    }

    /// The endpoint that pulls an image.
    pub fn pull_image_endpoint(image: &str) -> (s: String)
        ensures
            s@ == "/images/create?fromImage="@ + percent_encode(vstd::utf8::encode_utf8(image@)),
    {
        let e = encode_query_component(image);
        concat2("/images/create?fromImage=", e.as_str())
    }

    /// The endpoint of one container resource, `/containers/<id><suffix>`.
    pub fn container_endpoint(id: &str, suffix: &str) -> (s: String)
        ensures
            s@ == "/containers/"@ + id@ + suffix@,
    {
        concat3("/containers/", id, suffix)
    }
}

/// One Engine API call: its method and its endpoint before the version
/// prefix.
#[derive(Debug, Clone)]
pub struct DockerCall {
    pub method: String,
    pub endpoint: String,
}

fn docker_call(method: &str, endpoint: &str) -> (c: DockerCall)
    ensures
        c.method@ == method@,
        c.endpoint@ == endpoint@,
{
    DockerCall { method: method.to_owned(), endpoint: endpoint.to_owned() }
}

/// The text of a logs response: the body must be UTF-8, else a parse error
/// names the decoding error.
pub fn logs_from_body(body: Vec<u8>) -> (r: Result<DockerLogs>)
    ensures
        vstd::utf8::valid_utf8(body@) ==> (r matches Ok(l) && l.output@ == vstd::utf8::decode_utf8(body@)),
        !vstd::utf8::valid_utf8(body@) ==> (r matches Err(VeltrixError::Parsing { reason }) && reason@
            == "invalid docker logs: "@ + utf8_error_text(body@)),
{
    let ghost b = body@;
    match utf8_string(body) {
        Ok(output) => Ok(DockerLogs { output }),
        Err(m) => {
            let reason = concat2("invalid docker logs: ", m.as_str());
            Err(VeltrixError::parsing(reason.as_str()))
        },
    }
}

impl DockerSocketClient {
    /// The request bytes of a call, with an optional JSON body.
    pub fn call_request(&self, call: &DockerCall, body: Option<&[u8]>) -> (r: Vec<u8>)
        ensures
            r@ == engine_request(
                call.method@,
                call.endpoint@,
                match body {
                    Some(b) => b@,
                    None => Seq::empty(),
                },
            ),
    {
        self.request(call.method.as_str(), call.endpoint.as_str(), body)
    }

    /// `GET /containers/json?all=true`.
    pub fn list_containers_api(&self) -> (c: DockerCall)
        ensures
            c.method@ == "GET"@,
            c.endpoint@ == "/containers/json?all=true"@,
    {
        docker_call("GET", "/containers/json?all=true")
    }

    /// `GET /containers/<id>/json`.
    pub fn inspect_container_api(&self, id: &str) -> (c: DockerCall)
        ensures
            c.method@ == "GET"@,
            c.endpoint@ == "/containers/"@ + id@ + "/json"@,
    {
        let e = Self::container_endpoint(id, "/json");
        docker_call("GET", e.as_str())
    }

    /// `POST /containers/create`, with the name as a query value when given;
    /// the container's JSON is the body.
    pub fn create_container_api(&self, name: Option<&str>) -> (c: DockerCall)
        ensures
            c.method@ == "POST"@,
            name matches Some(n) ==> c.endpoint@ == "/containers/create?name="@ + percent_encode(
                vstd::utf8::encode_utf8(n@),
            ),
            name is None ==> c.endpoint@ == "/containers/create"@,
    {
        let e = Self::create_container_endpoint(name);
        docker_call("POST", e.as_str())
    }

    /// `POST /containers/<id>/start`.
    pub fn start_container_api(&self, id: &str) -> (c: DockerCall)
        ensures
            c.method@ == "POST"@,
            c.endpoint@ == "/containers/"@ + id@ + "/start"@,
    {
        let e = Self::container_endpoint(id, "/start");
        docker_call("POST", e.as_str())
    }

    /// `POST /containers/<id>/stop`.
    pub fn stop_container_api(&self, id: &str) -> (c: DockerCall)
        ensures
            c.method@ == "POST"@,
            c.endpoint@ == "/containers/"@ + id@ + "/stop"@,
    {
        let e = Self::container_endpoint(id, "/stop");
        docker_call("POST", e.as_str())
    }

    /// `DELETE /containers/<id>`.
    pub fn remove_container_api(&self, id: &str) -> (c: DockerCall)
        ensures
            c.method@ == "DELETE"@,
            c.endpoint@ == "/containers/"@ + id@,
    {
        let e = concat2("/containers/", id);
        docker_call("DELETE", e.as_str())
    }

    /// `GET /containers/<id>/logs?stdout=true&stderr=true`.
    pub fn container_logs_api(&self, id: &str) -> (c: DockerCall)
        ensures
            c.method@ == "GET"@,
            c.endpoint@ == "/containers/"@ + id@ + "/logs?stdout=true&stderr=true"@,
    {
        let e = Self::container_endpoint(id, "/logs?stdout=true&stderr=true");
        docker_call("GET", e.as_str())
    }

    /// `GET /images/json`.
    pub fn list_images_api(&self) -> (c: DockerCall)
        ensures
            c.method@ == "GET"@,
            c.endpoint@ == "/images/json"@,
    {
        docker_call("GET", "/images/json")
    }

    /// `GET /images/<image>/json`.
    pub fn inspect_image_api(&self, image: &str) -> (c: DockerCall)
        ensures
            c.method@ == "GET"@,
            c.endpoint@ == "/images/"@ + image@ + "/json"@,
    {
        let e = concat3("/images/", image, "/json");
        docker_call("GET", e.as_str())
    }

    /// `POST /images/create?fromImage=<image>`; the reply is a stream of
    /// JSON progress reports.
    pub fn pull_image_api(&self, image: &str) -> (c: DockerCall)
        ensures
            c.method@ == "POST"@,
            c.endpoint@ == "/images/create?fromImage="@ + percent_encode(vstd::utf8::encode_utf8(image@)),
    {
        let e = Self::pull_image_endpoint(image);
        docker_call("POST", e.as_str())
    }

    /// `GET /networks`.
    pub fn list_networks_api(&self) -> (c: DockerCall)
        ensures
            c.method@ == "GET"@,
            c.endpoint@ == "/networks"@,
    {
        docker_call("GET", "/networks")
    }

    /// `POST /networks/create`; the network's JSON is the body.
    pub fn create_network_api(&self) -> (c: DockerCall)
        ensures
            c.method@ == "POST"@,
            c.endpoint@ == "/networks/create"@,
    {
        docker_call("POST", "/networks/create")
    }

    /// `GET /networks/<network>`.
    pub fn inspect_network_api(&self, network: &str) -> (c: DockerCall)
        ensures
            c.method@ == "GET"@,
            c.endpoint@ == "/networks/"@ + network@,
    {
        let e = concat2("/networks/", network);
        docker_call("GET", e.as_str())
    }

    /// `DELETE /networks/<network>`.
    pub fn remove_network_api(&self, network: &str) -> (c: DockerCall)
        ensures
            c.method@ == "DELETE"@,
            c.endpoint@ == "/networks/"@ + network@,
    {
        let e = concat2("/networks/", network);
        docker_call("DELETE", e.as_str())
    }

    /// `POST /networks/<network>/connect`; the connection's JSON is the body.
    pub fn connect_network_api(&self, network: &str) -> (c: DockerCall)
        ensures
            c.method@ == "POST"@,
            c.endpoint@ == "/networks/"@ + network@ + "/connect"@,
    {
        let e = concat3("/networks/", network, "/connect");
        docker_call("POST", e.as_str())
    }

    /// `GET /volumes`; the volumes are the reply's `Volumes` list.
    pub fn list_volumes_api(&self) -> (c: DockerCall)
        ensures
            c.method@ == "GET"@,
            c.endpoint@ == "/volumes"@,
    {
        docker_call("GET", "/volumes")
    }

    /// `POST /volumes/create`; the volume's JSON is the body.
    pub fn create_volume_api(&self) -> (c: DockerCall)
        ensures
            c.method@ == "POST"@,
            c.endpoint@ == "/volumes/create"@,
    {
        docker_call("POST", "/volumes/create")
    }

    /// `GET /volumes/<volume>`.
    pub fn inspect_volume_api(&self, volume: &str) -> (c: DockerCall)
        ensures
            c.method@ == "GET"@,
            c.endpoint@ == "/volumes/"@ + volume@,
    {
        let e = concat2("/volumes/", volume);
        docker_call("GET", e.as_str())
    }

    /// `DELETE /volumes/<volume>`.
    pub fn remove_volume_api(&self, volume: &str) -> (c: DockerCall)
        ensures
            c.method@ == "DELETE"@,
            c.endpoint@ == "/volumes/"@ + volume@,
    {
        let e = concat2("/volumes/", volume);
        docker_call("DELETE", e.as_str())
    }
}

/// The JSON documents of a line-delimited reply (a pull's progress
/// reports): the lines of its text that hold more than whitespace.
pub fn json_lines(body: &[u8]) -> (r: Vec<String>)
    ensures
        strings_view(r@) == nonblank(lines(utf8_lossy(body@))),
{
    let text = lossy_string(body);
    nonblank_lines(text.as_str())
}

/// The characters a percent-encoded component may hold: unreserved ASCII,
/// `%`, and uppercase hexadecimal digits.
pub open spec fn query_safe(c: char) -> bool {
    ('A' <= c <= 'Z') || ('a' <= c <= 'z') || ('0' <= c <= '9') || c == '-' || c == '.' || c == '_'
        || c == '~' || c == '%'
}

/// Percent-encoding leaves only unreserved characters, `%` and hexadecimal
/// digits, so the result is safe inside a URL query.
pub proof fn percent_encoding_is_query_safe(bs: Seq<u8>)
    ensures
        forall|i: int| 0 <= i < percent_encode(bs).len() ==> query_safe(#[trigger] percent_encode(bs)[i]),
    decreases bs.len(),
{
    if bs.len() > 0 {
        percent_encoding_is_query_safe(bs.drop_last());
        let prev = percent_encode(bs.drop_last());
        let b = bs.last();
        let tail = if is_unreserved(b) {
            seq![b as char]
        } else {
            seq!['%', hex_digit((b / 16) as nat), hex_digit((b % 16) as nat)]
        };
        assert(percent_encode(bs) == prev + tail);
        assert forall|i: int| 0 <= i < tail.len() implies query_safe(#[trigger] tail[i]) by {
            if !is_unreserved(b) && i > 0 {
                let d: nat = if i == 1 { (b / 16) as nat } else { (b % 16) as nat };
                assert(d < 16);
                assert(tail[i] == hex_digit(d));
            }
        }
        assert forall|i: int| 0 <= i < percent_encode(bs).len() implies query_safe(
            #[trigger] percent_encode(bs)[i],
        ) by {
            if i < prev.len() {
                assert(percent_encode(bs)[i] == prev[i]);
            } else {
                assert(percent_encode(bs)[i] == tail[i - prev.len()]);
            }
        }
    }
}

} // verus!
