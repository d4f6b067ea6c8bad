use veltrix::data::bools::{enabled_disabled, is_true, on_off, pass_fail, yes_no};
use veltrix::data::time::{format_duration, parse_duration, Duration};
use veltrix::error::VeltrixError;
use veltrix::os::clock::{
    duration_from_timespec, timestamp_from_epoch_distance, uptime_from_text,
};
use veltrix::os::process::{command_output, CmdOutput, CmdSpec};
use veltrix::os::unistd::{
    home_dir_from, hostname_step, is_effective_root, is_root, probe_alive, resolve_owner, Gid,
    HostnameStep, Uid,
};

#[test]
fn formatted_durations_parse_back_to_their_seconds() {
    for n in [0u64, 1, 59, 60, 61, 3599, 3600, 3605, 3660, 3723, 86_400, 1_000_000] {
        let text = format_duration(Duration::from_secs(n));
        assert_eq!(parse_duration(&text).unwrap().as_secs(), n, "{text}");
    }
    assert_eq!(format_duration(Duration::from_secs(3605)), "1h0m5s");
    assert_eq!(format_duration(Duration::from_secs(0)), "0s");
}

#[test]
fn duration_parse_errors_name_their_cause() {
    let missing = parse_duration("10").unwrap_err();
    assert_eq!(missing.to_string(), "invalid duration: duration is missing a unit");
    let unit = parse_duration("1w").unwrap_err();
    assert_eq!(unit.to_string(), "invalid duration: unsupported duration unit: w");
    let amount = parse_duration("h").unwrap_err();
    assert_eq!(amount.to_string(), "invalid duration: missing amount before `h`");
    let empty = parse_duration("   ").unwrap_err();
    assert_eq!(empty.to_string(), "invalid duration: duration must not be empty");
    assert_eq!(parse_duration(" 2d1s ").unwrap().as_secs(), 172_801);
}

#[test]
fn duration_new_carries_whole_seconds() {
    let d = Duration::new(5, 2_500_000_000);
    assert_eq!(d.as_secs(), 7);
    assert_eq!(d.subsec_nanos(), 500_000_000);
}

#[test]
fn boolean_words_read_back() {
    for b in [true, false] {
        assert_eq!(is_true(yes_no(b)), b);
        assert_eq!(is_true(on_off(b)), b);
        assert_eq!(is_true(enabled_disabled(b)), b);
        assert_eq!(is_true(pass_fail(b)), b);
    }
    assert!(is_true("YES"));
    assert!(!is_true("nope"));
}

#[test]
fn clock_values_decode() {
    let d = duration_from_timespec(3, 2_000_000_001, "clock").unwrap();
    assert_eq!(d.as_secs(), 5);
    assert_eq!(d.subsec_nanos(), 1);
    let err = duration_from_timespec(-1, 0, "clock").unwrap_err();
    assert_eq!(err.to_string(), "parse error: clock returned a negative seconds value");
    let up = uptime_from_text("350735.47 234388.90\n").unwrap();
    assert_eq!(up.as_secs(), 350_735);
    assert_eq!(up.subsec_nanos(), 470_000_000);
    assert!(uptime_from_text("  ").is_err());
}

#[test]
fn clock_before_epoch_names_the_distance() {
    let err = timestamp_from_epoch_distance(Err((1, 500_000_000))).unwrap_err();
    assert_eq!(
        err.to_string(),
        "invalid system_time: system clock is before Unix epoch by 1.5s"
    );
    let ok = timestamp_from_epoch_distance(Ok((10, 5))).unwrap();
    assert_eq!(ok.as_secs(), 10);
}

#[test]
fn sudo_invocation_switches_user_through_sudo() {
    let cmd = CmdSpec::new("id").arg("-u").sudo().uid(1000).gid(100);
    let inv = cmd.invocation();
    assert_eq!(inv.program, "sudo");
    assert_eq!(inv.args, vec!["-u", "#1000", "-g", "#100", "--", "id", "-u"]);
    assert_eq!(inv.uid, None);
    let plain = CmdSpec::new("id").uid(1000).invocation();
    assert_eq!(plain.program, "id");
    assert_eq!(plain.uid, Some(1000));
}

#[test]
fn command_output_reads_success_and_failure() {
    let ok = CmdOutput { success: true, stdout: b"hello\n".to_vec(), stderr: Vec::new() };
    assert_eq!(command_output(&ok, "demo", "bad: ").unwrap(), "hello\n");
    let failed = CmdOutput { success: false, stdout: Vec::new(), stderr: b"  boom \xff\n".to_vec() };
    match command_output(&failed, "demo", "bad: ").unwrap_err() {
        VeltrixError::Service { service, reason } => {
            assert_eq!(service, "demo");
            assert_eq!(reason, "boom \u{fffd}");
        }
        other => panic!("unexpected {other:?}"),
    }
    let invalid = CmdOutput { success: true, stdout: vec![0xff], stderr: Vec::new() };
    let err = command_output(&invalid, "demo", "bad: ").unwrap_err();
    assert!(err.to_string().starts_with("parse error: bad: invalid utf-8"));
}

#[test]
fn owners_resolve_from_lookups() {
    let ok = resolve_owner(Some("alice"), Some(Uid::from_raw(1000)), None, Some(Gid::from_raw(5)));
    assert_eq!(ok.unwrap(), (Some(Uid::from_raw(1000)), None));
    assert_eq!(
        resolve_owner(Some("bob"), None, Some("staff"), None).unwrap_err(),
        "user not found: bob"
    );
    assert_eq!(
        resolve_owner(None, None, Some("staff"), None).unwrap_err(),
        "group not found: staff"
    );
    assert!(is_root(Uid::from_raw(0)));
    assert!(!is_effective_root(Uid::from_raw(1)));
}

#[test]
fn hostname_buffers_are_read_to_the_first_nul_or_grown() {
    match hostname_step(b"box\0\0junk") {
        HostnameStep::Done(name) => assert_eq!(name, "box"),
        other => panic!("unexpected {other:?}"),
    }
    assert!(matches!(hostname_step(&[b'a'; 256]), HostnameStep::Grow(512)));
    assert!(matches!(hostname_step(&[b'a'; 4096]), HostnameStep::Unterminated));
}

#[test]
fn liveness_probe_and_home_dir() {
    assert!(probe_alive(0, 0));
    assert!(probe_alive(-1, 1));
    assert!(!probe_alive(-1, 3));
    assert_eq!(home_dir_from(Some("/h".into()), Some("/p".into())).as_deref(), Some("/h"));
    assert_eq!(home_dir_from(None, Some("/p".into())).as_deref(), Some("/p"));
    assert_eq!(home_dir_from(None, None), None);
}
