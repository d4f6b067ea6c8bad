use veltrix::error::VeltrixError;
use veltrix::os::process::CmdOutput;
use veltrix::services::caddy::admin::{check_http_method, http_url, parse_http_response};
use veltrix::services::caddy::cli::cli_output;
use veltrix::services::caddy::{CaddyAdminClient, CaddyCliClient, CaddyCliSpec};
use veltrix::services::docker::{
    encode_query_component, json_lines, logs_from_body, parse_status_code, socket_response, DockerCliClient,
    DockerCliSpec, DockerSocketClient, DockerSocketSpec,
};
use veltrix::services::http::request_bytes;
use veltrix::services::ldap::{LdapAttribute, LdapAuthMethod, LdapClient, LdapEntry, LdapSpec};
use veltrix::services::podman::cli::base_cmd;
use veltrix::services::podman::socket::socket_response as podman_socket_response;
use veltrix::services::podman::{
    PodmanCliSpec, PodmanLabel, PodmanLabels, PodmanSocketSpec, QuadletUnit, QuadletUnitKind,
};
use veltrix::services::systemd::cli::{parse_dependencies, parse_unit_files, property};
use veltrix::services::systemd::dbus::{parse_list_units, quoted_strings};
use veltrix::services::systemd::{
    SystemdCliClient, SystemdCliSpec, SystemdDbusClient, SystemdDbusSpec, SystemdResourceLimit,
};
use veltrix::services::technitium::{
    check_status, ensure_envelope_success, envelope_payload, require_body, technitium_url,
    TechnitiumAuth, TechnitiumBackendUsed, TechnitiumClient, TechnitiumHttpSpec,
    TechnitiumRecordType,
};

#[test]
fn systemd_commands_target_the_configured_manager() {
    let client = SystemdCliClient::new(SystemdCliSpec::new().user().sudo());
    let start = client.start_unit("demo.service");
    assert_eq!(start.program, "systemctl");
    assert_eq!(start.args, vec!["--user", "start", "demo.service"]);
    assert!(start.sudo);
    let journal = client.journal("demo.service", Some(20));
    assert_eq!(journal.program, "journalctl");
    assert_eq!(journal.args, vec!["--user", "-u", "demo.service", "--no-pager", "-n", "20"]);
    let since = SystemdCliClient::new(SystemdCliSpec::new()).journal_since("a", "today", Some("now"));
    assert_eq!(since.args, vec!["-u", "a", "--since", "today", "--no-pager", "--until", "now"]);
    let limits = SystemdCliClient::new(SystemdCliSpec::new()).set_resource_limits(
        "a",
        vec![SystemdResourceLimit::new("MemoryMax", "1G"), SystemdResourceLimit::new("CPUQuota", "50%")],
    );
    assert_eq!(limits.args, vec!["set-property", "a", "MemoryMax=1G", "CPUQuota=50%"]);
    let deploy = client.deploy_unit("demo.service");
    assert_eq!(deploy.len(), 3);
    assert_eq!(deploy[2].args, vec!["--user", "restart", "demo.service"]);
}

#[test]
fn systemd_output_parsers() {
    assert_eq!(property("A=1\nB=x=y\n", "B").as_deref(), Some("x=y"));
    assert_eq!(property("A=1\n", "C"), None);
    let deps = parse_dependencies("demo.service\n  a.target\n\n  b.socket  \n");
    let names: Vec<&str> = deps.iter().map(|d| d.unit.as_str()).collect();
    assert_eq!(names, vec!["demo.service", "a.target", "b.socket"]);
    let files = parse_unit_files("UNIT FILE STATE\na.service enabled enabled\nb.timer\n\nlisted.\n");
    assert_eq!(files.len(), 2);
    assert_eq!(files[0].name, "a.service");
    assert_eq!(files[0].state.as_deref(), Some("enabled"));
    assert_eq!(files[1].state, None);
    assert_eq!(SystemdCliClient::template_instance("db@@.service.service", "x"), "db@x.service");
}

#[test]
fn busctl_output_parsers() {
    assert_eq!(quoted_strings(r#"a "x\"y" b "" "z""#), vec!["x\"y", "", "z"]);
    let err = parse_list_units(r#""a" "b""#).unwrap_err();
    assert_eq!(
        err.to_string(),
        "parse error: unexpected systemd ListUnits D-Bus output: 2 quoted fields"
    );
    assert!(parse_list_units("no quotes").unwrap().is_empty());
    let dbus = SystemdDbusClient::new(SystemdDbusSpec::new());
    assert!(dbus.is_enabled(Some("enabled-runtime")));
    assert!(!dbus.is_enabled(Some("disabled")));
    let start = dbus.start_unit("demo.service");
    assert_eq!(
        start.args,
        vec![
            "call",
            "org.freedesktop.systemd1",
            "/org/freedesktop/systemd1",
            "org.freedesktop.systemd1.Manager",
            "StartUnit",
            "ss",
            "demo.service",
            "replace"
        ]
    );
}

#[test]
fn podman_labels_pair_and_validate() {
    let labels = PodmanLabels::new()
        .label(PodmanLabel::new("a", "1").unwrap())
        .label(PodmanLabel::new("b", "2").unwrap());
    let args = labels.to_cli_args();
    assert_eq!(args.len(), 2 * labels.as_slice().len());
    assert_eq!(args, vec!["--label", "a=1", "--label", "b=2"]);
    assert!(PodmanLabels::new().is_empty());
    let blank = PodmanLabel::new("  ", "v").unwrap_err();
    assert_eq!(blank.to_string(), "invalid key: label field must not be empty");
    let nul = PodmanLabel::new("k", "a\0b").unwrap_err();
    assert_eq!(nul.to_string(), "invalid value: label field must not contain NUL bytes");
    let newline = PodmanLabel::new("k", "a\nb").unwrap_err();
    assert_eq!(newline.to_string(), "invalid value: label field must not contain newlines");
    assert!(PodmanLabel::new("k", "a=b").is_ok());
    let pairs = PodmanLabels::from_pairs(vec![("ok".into(), "1".into()), ("bad=".into(), "2".into())]);
    assert!(pairs.unwrap_err().to_string().contains("label key must not contain '='"));
}

#[test]
fn quadlet_sections_render_in_name_order() {
    let unit = QuadletUnit::new(QuadletUnitKind::Volume, "data")
        .entry("Volume", "Driver", "local")
        .entry("Install", "WantedBy", "default.target")
        .entry("Volume", "Label", "x=y");
    assert_eq!(
        unit.render(),
        "[Install]\nWantedBy=default.target\n\n[Volume]\nDriver=local\nLabel=x=y\n\n"
    );
    assert_eq!(unit.file_name(), "data.volume");
    assert_eq!(QuadletUnit::pod("p").render(), "");
}

#[test]
fn podman_specs_and_socket_responses() {
    let spec = PodmanCliSpec::new().binary("/usr/bin/podman").sudo().uid(1000);
    let cmd = base_cmd(&spec);
    assert_eq!(cmd.program, "/usr/bin/podman");
    assert!(cmd.sudo);
    assert_eq!(cmd.uid, Some(1000));
    let rootless = PodmanSocketSpec::rootless_from_env(Some("/run/user/1000")).unwrap();
    assert_eq!(rootless.socket_path, "/run/user/1000/podman/podman.sock");
    assert_eq!(
        PodmanSocketSpec::rootless_from_env(None).unwrap_err().to_string(),
        "missing environment variable `XDG_RUNTIME_DIR`"
    );
    let body = podman_socket_response(b"HTTP/1.1 200 OK\r\nX: y\r\n\r\n{}").unwrap();
    assert_eq!(body, b"{}");
    let refused = podman_socket_response(b"HTTP/1.1 404 Not Found\r\n\r\nnope").unwrap_err();
    assert_eq!(
        refused.to_string(),
        "invalid config: podman socket request failed: HTTP/1.1 404 Not Found; body: nope"
    );
    assert!(podman_socket_response(b"HTTP/1.1 200 OK\r\n").is_err());
}

#[test]
fn docker_socket_and_encoding() {
    let encoded = encode_query_component("a b/ü~");
    assert_eq!(encoded, "a%20b%2F%C3%BC~");
    assert!(encoded.chars().all(|c| c.is_ascii_alphanumeric() || "-._~%".contains(c)));
    assert_eq!(parse_status_code("HTTP/1.1 204 No Content"), Some(204));
    assert_eq!(parse_status_code("HTTP/1.1"), None);
    match socket_response(b"HTTP/1.1 500 Oops\r\n\r\nbad").unwrap_err() {
        VeltrixError::Http { status, reason } => {
            assert_eq!(status, 500);
            assert_eq!(reason, "docker socket request failed: HTTP/1.1 500 Oops; body: bad");
        }
        other => panic!("unexpected {other:?}"),
    }
    let client = DockerSocketClient::new(DockerSocketSpec::new());
    let req = client.request("GET", "/containers/json", None);
    assert!(req.starts_with(b"GET /v1.40/containers/json HTTP/1.1\r\nHost: docker\r\n"));
    assert!(req.ends_with(b"Content-Length: 0\r\nConnection: close\r\n\r\n"));
    let cli = DockerCliClient::new(DockerCliSpec::new());
    assert_eq!(
        cli.version().unwrap_err().to_string(),
        "docker service failed: Docker v1 API not yet implemented (v0.5.0 target)"
    );
    let with_body = request_bytes("POST", "/x", "h", Some(b"{}"));
    assert!(with_body.ends_with(b"Content-Length: 2\r\nConnection: close\r\n\r\n{}"));
}

#[test]
fn caddy_admin_and_cli() {
    assert_eq!(http_url("http://localhost:2019//", "/config/"), "http://localhost:2019/config/");
    assert!(check_http_method("PATCH").is_ok());
    assert_eq!(
        check_http_method("TRACE").unwrap_err().to_string(),
        "invalid config: unsupported caddy HTTP method: TRACE"
    );
    let raw = parse_http_response(b"HTTP/1.1 200 OK\r\n\r\n{\"ids\":[]}", "caddy unix socket").unwrap();
    assert_eq!(raw.status_code, 200);
    assert_eq!(raw.body, b"{\"ids\":[]}");
    let err = parse_http_response(b"HTTP/1.1 abc\r\n\r\n", "caddy unix socket").unwrap_err();
    assert_eq!(err.to_string(), "invalid config: invalid HTTP status code: invalid digit found in string");
    let err = parse_http_response(b"garbage", "ctx").unwrap_err();
    assert_eq!(err.to_string(), "invalid config: invalid HTTP response from ctx");
    let admin = CaddyAdminClient::localhost_default();
    let call = admin.pki_ca("local");
    assert_eq!(call.method, "GET");
    assert_eq!(call.path, "/pki/ca/local");
    let bytes = CaddyAdminClient::unix_request(&call, None);
    assert!(bytes.starts_with(b"GET /pki/ca/local HTTP/1.1\r\nHost: caddy\r\n"));
    let cli = CaddyCliClient::new(CaddyCliSpec::new());
    let cmd = cli.fmt(&["--overwrite"]);
    assert_eq!(cmd.program, "caddy");
    assert_eq!(cmd.args, vec!["fmt", "--overwrite"]);
    let out = cli_output(CmdOutput { success: true, stdout: b"ok".to_vec(), stderr: b"warn".to_vec() })
        .unwrap();
    assert_eq!(out.stdout, "ok");
    assert_eq!(out.stderr, "warn");
    let failed = cli_output(CmdOutput { success: false, stdout: vec![], stderr: b" no \n".to_vec() })
        .unwrap_err();
    assert_eq!(failed.to_string(), "caddy service failed: no");
}

#[test]
fn ldap_rules() {
    let spec = LdapSpec::new("ldap://dir.example:99999".into(), LdapAuthMethod::Anonymous);
    let mut client = LdapClient::new(spec).unwrap();
    assert_eq!(client._parse_uri("ldap://dir.example:99999").unwrap(), ("dir.example".to_string(), 389));
    assert_eq!(client._parse_uri("ldaps://h:10:20").unwrap(), ("h".to_string(), 10));
    assert!(client._parse_uri("http://x").is_err());
    let escaped = client._escape_filter_value("a\\b*(c)\0");
    assert_eq!(escaped, "a\\5cb\\2a\\28c\\29\\00");
    assert!(!escaped.contains('*') && !escaped.contains('(') && !escaped.contains(')'));
    assert!(client.bind().is_ok());
    assert!(client.is_connected());
    assert_eq!(
        client.delete_entry("nodn").unwrap_err().to_string(),
        "invalid dn: invalid DN format"
    );
    assert!(client.delete_entry("cn=a,dc=b").is_ok());
    assert!(client.find_user_by_mail("a@b").unwrap().data.is_empty());
    let simple = LdapSpec::new(
        "ldap://h".into(),
        LdapAuthMethod::Simple { bind_dn: "".into(), password: "x".into() },
    );
    let mut bad = LdapClient::new(simple).unwrap();
    assert_eq!(
        bad.bind().unwrap_err().to_string(),
        "authentication failed: bind_dn and password cannot be empty"
    );
    assert!(!bad.is_connected());
}

#[test]
fn ldap_entries_store_attributes_by_lowercase_name() {
    let attr = LdapAttribute::new("CN".into(), vec![b"one".to_vec(), vec![0xff], b"two".to_vec()]);
    assert_eq!(attr.name, "cn");
    let mut entry = LdapEntry::new("cn=x".into());
    entry.insert_attribute(attr.name.clone(), attr);
    assert_eq!(entry.get_string("Cn").as_deref(), Some("one"));
    assert_eq!(entry.get_strings("CN").unwrap(), vec!["one", "two"]);
    assert_eq!(entry.get_all_bytes("cn").unwrap().len(), 3);
    entry.insert_attribute("cn".into(), LdapAttribute::from_strings("cn".into(), vec!["three".into()]));
    assert_eq!(entry.get_bytes("cn").unwrap(), b"three");
    assert_eq!(entry.attributes.len(), 1);
}

#[test]
fn technitium_envelopes() {
    assert!(ensure_envelope_success(None, None).is_ok());
    assert!(ensure_envelope_success(Some("OK"), None).is_ok());
    assert!(ensure_envelope_success(Some("Successful"), None).is_ok());
    assert_eq!(
        ensure_envelope_success(Some("error"), Some("bad token")).unwrap_err().to_string(),
        "technitium service failed: bad token"
    );
    assert_eq!(
        ensure_envelope_success(Some("weird"), None).unwrap_err().to_string(),
        "technitium service failed: Technitium returned status `weird`"
    );
}

#[test]
fn builds_api_urls_without_double_slashes() {
    let url = technitium_url("http://localhost:5380/", "/api/zones/list").unwrap();
    assert_eq!(url.as_str(), "http://localhost:5380/api/zones/list");
}

#[test]
fn technitium_url_errors_name_the_base_url() {
    let err = technitium_url("not a url", "/api").unwrap_err();
    assert!(matches!(err, VeltrixError::Validation { ref field, .. } if field == "base_url"));
    assert!(err.to_string().contains("invalid Technitium URL: "));
}

#[test]
fn technitium_session_tokens_go_into_the_query() {
    let spec = TechnitiumHttpSpec::new("http://dns:5380").auth(TechnitiumAuth::session_token("tok"));
    let client = TechnitiumClient::new(spec);
    let r = client.delete_record("example.com", TechnitiumRecordType::AAAA, "www");
    assert_eq!(r.method, "GET");
    assert_eq!(r.path, "/api/zones/records/delete");
    assert_eq!(
        r.query,
        vec![
            ("zone".to_string(), "example.com".to_string()),
            ("type".to_string(), "AAAA".to_string()),
            ("name".to_string(), "www".to_string()),
            ("token".to_string(), "tok".to_string()),
        ]
    );
    assert_eq!(r.bearer_token, None);
    assert_eq!(r.json_body, None);
}

#[test]
fn technitium_bearer_tokens_go_into_the_header() {
    let spec = TechnitiumHttpSpec::new("http://dns:5380").auth(TechnitiumAuth::bearer_token("b"));
    let client = TechnitiumClient::new(spec);
    let r = client.create_zone("example.com", Some("Primary"));
    assert_eq!(
        r.query,
        vec![
            ("zone".to_string(), "example.com".to_string()),
            ("type".to_string(), "Primary".to_string())
        ]
    );
    assert_eq!(r.bearer_token.as_deref(), Some("b"));
    let u = client.update_zone("z", &[("a", "1"), ("b", "2")]);
    assert_eq!(u.path, "/api/zones/update");
    assert_eq!(u.query.len(), 3);
    assert_eq!(u.query[2], ("b".to_string(), "2".to_string()));
}

#[test]
fn technitium_json_bodies() {
    let client = TechnitiumClient::unauthenticated("http://dns:5380");
    let login = client.login("admin", "p\"w");
    assert_eq!(login.method, "POST");
    assert_eq!(
        login.json_body.as_deref(),
        Some(r#"{"pass":"p\"w","password":"p\"w","user":"admin","username":"admin"}"#)
    );
    assert!(login.query.is_empty());
    let add = client.add_record("example.com", r#"{"name":"www","type":"A"}"#);
    assert_eq!(
        add.json_body.as_deref(),
        Some(r#"{"record":{"name":"www","type":"A"},"zone":"example.com"}"#)
    );
    let import = client.import_zone("z", "a\nb");
    assert_eq!(import.json_body.as_deref(), Some(r#"{"zone":"z","zoneFile":"a\nb"}"#));
    let bulk = client.bulk_records("z", "[]");
    assert_eq!(bulk.json_body.as_deref(), Some(r#"{"records":[],"zone":"z"}"#));
    let TechnitiumBackendUsed::Http { base_url } = client.backend_used();
    assert_eq!(base_url, "http://dns:5380");
}

#[test]
fn technitium_responses() {
    assert!(check_status(204, b"").is_ok());
    let err = check_status(401, b"denied").unwrap_err();
    assert!(matches!(err, VeltrixError::Http { status: 401, ref reason } if reason == "technitium HTTP response body: denied"));
    assert!(require_body(b"{}").is_ok());
    assert_eq!(
        require_body(b"").unwrap_err().to_string(),
        "technitium service failed: Technitium endpoint returned an empty body"
    );
    assert_eq!(envelope_payload(Some("ok"), None, Some(7)).unwrap(), 7);
    assert!(matches!(
        envelope_payload::<u8>(Some("ok"), None, None),
        Err(VeltrixError::Parsing { .. })
    ));
    assert_eq!(
        envelope_payload(Some("error"), Some("bad token"), Some(1)).unwrap_err().to_string(),
        "technitium service failed: bad token"
    );
}

#[test]
fn docker_api_calls_name_their_endpoints() {
    let client = DockerSocketClient::new(DockerSocketSpec::new());
    let create = client.create_container_api(Some("web app"));
    assert_eq!(create.method, "POST");
    assert_eq!(create.endpoint, "/containers/create?name=web%20app");
    assert_eq!(client.create_container_api(None).endpoint, "/containers/create");
    let logs = client.container_logs_api("abc");
    assert_eq!(logs.endpoint, "/containers/abc/logs?stdout=true&stderr=true");
    let rm = client.remove_volume_api("data");
    assert_eq!((rm.method.as_str(), rm.endpoint.as_str()), ("DELETE", "/volumes/data"));
    let connect = client.connect_network_api("web");
    assert_eq!(connect.endpoint, "/networks/web/connect");
    let bytes = client.call_request(&client.list_containers_api(), None);
    let text = String::from_utf8(bytes).unwrap();
    assert!(text.starts_with("GET /v1.40/containers/json?all=true HTTP/1.1\r\nHost: docker\r\n"));
    assert!(text.ends_with("Content-Length: 0\r\nConnection: close\r\n\r\n"));
}

#[test]
fn docker_logs_must_be_utf8() {
    assert_eq!(logs_from_body(b"hello\n".to_vec()).unwrap().output, "hello\n");
    let err = logs_from_body(vec![0xff, 0xfe]).unwrap_err();
    assert!(err.to_string().starts_with("parse error: invalid docker logs: "));
}

#[test]
fn pull_reports_are_read_line_by_line() {
    let body = b"{\"status\":\"pulling\",\"id\":\"layer\"}\n  \n{\"status\":\"done\"}";
    let lines = json_lines(body);
    assert_eq!(lines.len(), 2);
    let first: serde_json::Value = serde_json::from_str(&lines[0]).unwrap();
    assert_eq!(first["id"], "layer");
    let second: serde_json::Value = serde_json::from_str(&lines[1]).unwrap();
    assert_eq!(second["status"], "done");
}

#[test]
fn default_specs_match_new() {
    assert_eq!(DockerCliSpec::default().binary, "docker");
    assert!(!DockerCliSpec::default().sudo);
    assert_eq!(veltrix::services::docker::DockerComposeSpec::default().binary, "docker-compose");
    assert_eq!(PodmanCliSpec::default().binary, "podman");
    assert_eq!(PodmanCliSpec::default().uid, None);
}

/// The status and error message of a Technitium envelope, and its payload.
fn envelope_fields(body: &[u8]) -> (Option<String>, Option<String>, Option<serde_json::Value>) {
    let v: serde_json::Value = serde_json::from_slice(body).unwrap();
    (
        v.get("status").and_then(|s| s.as_str()).map(str::to_owned),
        v.get("errorMessage").and_then(|s| s.as_str()).map(str::to_owned),
        v.get("response").cloned(),
    )
}

fn parse_response_body(body: &[u8]) -> veltrix::Result<serde_json::Value> {
    require_body(body)?;
    let (status, message, response) = envelope_fields(body);
    envelope_payload(status.as_deref(), message.as_deref(), response)
}

fn parse_empty_body(body: &[u8]) -> veltrix::Result<()> {
    if body.is_empty() {
        return Ok(());
    }
    let (status, message, _) = envelope_fields(body);
    ensure_envelope_success(status.as_deref(), message.as_deref())
}

#[test]
fn parses_response_envelope() {
    let body = br#"{"status":"ok","response":{"version":"13.2"}}"#;
    let status = parse_response_body(body).unwrap();
    assert_eq!(status["version"].as_str(), Some("13.2"));
}

#[test]
fn reports_service_error_from_envelope() {
    let body = br#"{"status":"error","errorMessage":"bad token"}"#;
    let err = parse_empty_body(body).unwrap_err();
    assert_eq!(err.to_string(), "technitium service failed: bad token");
}

#[test]
fn technitium_urls_join_with_one_slash() {
    let url = technitium_url("http://dns:5380///", "///api/zones/list").unwrap();
    assert_eq!(url, "http://dns:5380/api/zones/list");
    let plain = technitium_url("http://dns:5380", "api/stats/get").unwrap();
    assert_eq!(plain, "http://dns:5380/api/stats/get");
}
