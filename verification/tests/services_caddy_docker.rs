use veltrix::services::caddy::cli::prefixed_args;
use veltrix::services::docker::{encode_query_component, versioned_path};

fn strings(values: &[&str]) -> Vec<String> {
    values.iter().map(|value| (*value).to_string()).collect()
}

#[test]
fn caddy_cli_prefixes_cover_v0_5_workflows() {
    assert_eq!(
        prefixed_args(&["validate"], &["--config", "Caddyfile"]),
        strings(&["validate", "--config", "Caddyfile"])
    );
    assert_eq!(
        prefixed_args(&["reload"], &["--adapter", "caddyfile"]),
        strings(&["reload", "--adapter", "caddyfile"])
    );
    assert_eq!(
        prefixed_args(&["adapt"], &["--config", "Caddyfile"]),
        strings(&["adapt", "--config", "Caddyfile"])
    );
}

#[test]
fn versioned_paths_include_configured_engine_api_version() {
    assert_eq!(versioned_path("/containers/json"), "/v1.40/containers/json");
    assert_eq!(
        versioned_path("/networks/web/connect"),
        "/v1.40/networks/web/connect"
    );
}

#[test]
fn query_encoding_handles_image_names() {
    assert_eq!(
        encode_query_component("docker.io/library/alpine:latest"),
        "docker.io%2Flibrary%2Falpine%3Alatest"
    );
}

/// A line-delimited JSON reply, one decoded document per non-blank line.
fn parse_json_lines(body: &[u8]) -> Vec<serde_json::Value> {
    veltrix::services::docker::json_lines(body)
        .iter()
        .map(|line| serde_json::from_str(line).unwrap())
        .collect()
}

#[test]
fn json_line_parser_handles_pull_reports() {
    let body = br#"{"status":"pulling","id":"layer"}
{"status":"done"}"#;
    let parsed = parse_json_lines(body);

    assert_eq!(parsed.len(), 2);
    assert_eq!(parsed[0]["id"].as_str(), Some("layer"));
}
