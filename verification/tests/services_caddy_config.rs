use serde_json::Value;
use veltrix::services::caddy::{CaddyConfig, CaddySiteConfig};

fn document(config: &CaddyConfig) -> Value {
    serde_json::from_str(&config.json).expect("config is JSON")
}

#[test]
fn local_https_file_server_uses_internal_issuer() {
    let config =
        CaddyConfig::local_https_file_server("localhost", "/srv/www").expect("valid config");
    let doc = document(&config);

    let http = doc["apps"].get("http").expect("http app exists");
    let tls = doc["apps"].get("tls").expect("tls app exists");

    assert_eq!(http["servers"]["srv0"]["listen"][0], ":443");
    assert_eq!(
        http["servers"]["srv0"]["routes"][0]["handle"][0]["handler"],
        "file_server"
    );
    assert_eq!(
        tls["automation"]["policies"][0]["issuers"][0]["module"],
        "internal"
    );
}

#[test]
fn reverse_proxy_config_renders_upstreams() {
    let config = CaddyConfig::reverse_proxy(
        "app.local",
        vec!["127.0.0.1:3000".to_string(), "127.0.0.1:3001".to_string()],
    )
    .expect("valid config");
    let doc = document(&config);
    let http = doc["apps"].get("http").expect("http app exists");
    let handler = &http["servers"]["srv0"]["routes"][0]["handle"][0];

    assert_eq!(http["servers"]["srv0"]["listen"][0], ":80");
    assert_eq!(handler["handler"], "reverse_proxy");
    assert_eq!(handler["upstreams"][0]["dial"], "127.0.0.1:3000");
    assert_eq!(handler["upstreams"][1]["dial"], "127.0.0.1:3001");
}

#[test]
fn empty_site_config_is_rejected() {
    let err = CaddySiteConfig::http("app.local")
        .to_config()
        .expect_err("handlers are required");

    assert!(err.to_string().contains("handlers"));
}
