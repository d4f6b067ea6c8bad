use veltrix::services::systemd::cli::parse_status;
use veltrix::services::systemd::dbus::{
    parse_busctl_object_path, parse_busctl_string_property, parse_list_units,
};
use veltrix::services::systemd::types::SystemdJournalEntry;
use veltrix::services::systemd::{SystemdCliClient, SystemdResourceLimit};
use veltrix::text::nonblank_lines;

/// Journal records as `journalctl -o json` prints them: one JSON object per
/// non-blank line, read into the entry's fields.
fn parse_journal_entries(output: &str) -> Vec<SystemdJournalEntry> {
    nonblank_lines(output)
        .iter()
        .map(|line| {
            let fields: std::collections::BTreeMap<String, serde_json::Value> =
                serde_json::from_str(line).unwrap();
            SystemdJournalEntry::from_fields(
                fields
                    .into_iter()
                    .map(|(k, v)| match v {
                        serde_json::Value::String(s) => (k, s),
                        other => (k, other.to_string()),
                    })
                    .collect(),
            )
        })
        .collect()
}

#[test]
fn parses_systemd_show_output() {
    let status = parse_status(
        "demo.service",
        "Description=Demo\nLoadState=loaded\nActiveState=active\nSubState=running\n",
    );
    assert_eq!(status.active_state.as_deref(), Some("active"));
    assert_eq!(status.description.as_deref(), Some("Demo"));
}

#[test]
fn builds_template_instance_names() {
    assert_eq!(
        SystemdCliClient::template_instance("worker@.service", "blue"),
        "worker@blue.service"
    );
    assert_eq!(
        SystemdCliClient::template_instance("worker", "blue"),
        "worker@blue.service"
    );
}

#[test]
fn resource_limit_formats_assignment() {
    assert_eq!(
        SystemdResourceLimit::new("MemoryMax", "512M").assignment(),
        "MemoryMax=512M"
    );
}

#[test]
fn parses_busctl_object_paths() {
    assert_eq!(
        parse_busctl_object_path(r#"o "/org/freedesktop/systemd1/job/42""#).unwrap(),
        "/org/freedesktop/systemd1/job/42"
    );
    assert_eq!(
        parse_busctl_object_path(r#"/org/freedesktop/systemd1/unit/demo_2eservice"#).unwrap(),
        "/org/freedesktop/systemd1/unit/demo_2eservice"
    );
}

#[test]
fn parses_busctl_string_properties() {
    assert_eq!(
        parse_busctl_string_property(r#"s "active""#).as_deref(),
        Some("active")
    );
    assert_eq!(parse_busctl_string_property(r#"s """#), None);
}

#[test]
fn parses_list_units_output() {
    let units = parse_list_units(
        r#"a(ssssssouso) 1 "demo.service" "Demo Service" "loaded" "active" "running" "" /org/freedesktop/systemd1/unit/demo_2eservice 0 "" /"#,
    )
    .unwrap();

    assert_eq!(units.len(), 1);
    assert_eq!(units[0].unit, "demo.service");
    assert_eq!(units[0].description.as_deref(), Some("Demo Service"));
    assert_eq!(units[0].load_state.as_deref(), Some("loaded"));
    assert_eq!(units[0].active_state.as_deref(), Some("active"));
    assert_eq!(units[0].sub_state.as_deref(), Some("running"));
}

#[test]
fn parses_structured_journal_entries() {
    let entries = parse_journal_entries(
        r#"{"MESSAGE":"started","_SYSTEMD_UNIT":"demo.service","PRIORITY":"6","__REALTIME_TIMESTAMP":"1710000000000000"}"#,
    );

    assert_eq!(entries.len(), 1);
    assert_eq!(entries[0].message.as_deref(), Some("started"));
    assert_eq!(entries[0].unit.as_deref(), Some("demo.service"));
    assert_eq!(entries[0].priority.as_deref(), Some("6"));
}
