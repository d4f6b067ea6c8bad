use veltrix::services::podman::{
    PodmanAutoUpdatePolicy, PodmanLabel, PodmanLabels, QuadletUnit, QuadletUnitKind,
};

#[test]
fn label_formats_for_podman() {
    let label = PodmanLabel::new("com.example.role", "web").expect("label is valid");

    assert_eq!(label.key(), "com.example.role");
    assert_eq!(label.value(), "web");
    assert_eq!(label.as_label_arg(), "com.example.role=web");
    assert_eq!(label.to_string(), "com.example.role=web");
}

#[test]
fn label_collection_builds_cli_args() {
    let labels = PodmanLabels::from_pairs(vec![
        ("com.example.role".to_string(), "web".to_string()),
        ("com.example.env".to_string(), "dev".to_string()),
    ])
    .expect("labels are valid")
    .auto_update(PodmanAutoUpdatePolicy::Registry);

    assert_eq!(
        labels.to_cli_args(),
        [
            "--label",
            "com.example.role=web",
            "--label",
            "com.example.env=dev",
            "--label",
            "io.containers.autoupdate=registry",
        ]
    );
}

#[test]
fn invalid_label_key_is_rejected() {
    let err = PodmanLabel::new("bad=key", "value").expect_err("key is invalid");

    assert!(err.to_string().contains("label key"));
}

#[test]
fn auto_update_label_values_match_podman() {
    assert_eq!(
        PodmanAutoUpdatePolicy::Registry.as_label_value(),
        "registry"
    );
    assert_eq!(
        PodmanAutoUpdatePolicy::Local.as_label_arg(),
        "io.containers.autoupdate=local"
    );
}

#[test]
fn container_quadlet_renders_expected_file() {
    let unit = QuadletUnit::container("web", "docker.io/library/caddy:latest")
        .entry("Container", "PublishPort", "8080:80")
        .label(PodmanLabel::new("com.example.role", "web").expect("label is valid"))
        .auto_update(PodmanAutoUpdatePolicy::Registry)
        .entry("Service", "Restart", "always");

    let rendered = unit.render();

    assert_eq!(unit.file_name(), "web.container");
    assert!(rendered.contains("[Container]\n"));
    assert!(rendered.contains("Image=docker.io/library/caddy:latest\n"));
    assert!(rendered.contains("PublishPort=8080:80\n"));
    assert!(rendered.contains("Label=com.example.role=web\n"));
    assert!(rendered.contains("Label=io.containers.autoupdate=registry\n"));
    assert!(rendered.contains("[Service]\nRestart=always\n"));
}

#[test]
fn kube_quadlet_uses_kube_section() {
    let unit = QuadletUnit::kube("stack", "/srv/stack.yaml");

    assert_eq!(unit.kind(), QuadletUnitKind::Kube);
    assert_eq!(unit.file_name(), "stack.kube");
    assert!(unit.render().contains("[Kube]\nYaml=/srv/stack.yaml\n"));
}
