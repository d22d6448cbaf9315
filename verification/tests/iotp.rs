use opencode_cloud::iotp::{
    build_iotp_fallback_message, iotp_hint_command, iotp_reset_hint_lines, iotp_value_dimmed,
    parse_json_payload, parse_snapshot_output, render_iotp_status, snapshot_from_helper_run,
    snapshot_from_query_error, IotpSnapshot, IotpState, IOTP_FALLBACK_COMMAND,
};

#[test]
fn parse_active_snapshot_with_otp() {
    let raw = r#"{"ok":true,"active":true,"created_at":"2026-02-08T00:00:00Z","otp":"abc123"}"#;
    let snapshot = parse_snapshot_output(raw).expect("parse should succeed");
    assert_eq!(snapshot.state, IotpState::ActiveUnused);
    assert_eq!(snapshot.state_label, "unused (active)");
    assert_eq!(snapshot.otp, Some("abc123".to_string()));
    assert!(snapshot.detail.is_none());
}

#[test]
fn parse_user_exists_reason() {
    let raw = r#"{"ok":true,"active":false,"reason":"user_exists"}"#;
    let snapshot = parse_snapshot_output(raw).expect("parse should succeed");
    assert_eq!(snapshot.state, IotpState::InactiveUsersConfigured);
    assert_eq!(snapshot.state_label, "inactive (users configured)");
    assert!(snapshot.otp.is_none());
}

#[test]
fn parse_completed_reason() {
    let raw = r#"{"ok":true,"active":false,"reason":"completed"}"#;
    let snapshot = parse_snapshot_output(raw).expect("parse should succeed");
    assert_eq!(snapshot.state, IotpState::InactiveCompleted);
    assert_eq!(snapshot.state_label, "used (completed)");
}

#[test]
fn parse_not_initialized_reason() {
    let raw = r#"{"ok":true,"active":false,"reason":"not_initialized"}"#;
    let snapshot = parse_snapshot_output(raw).expect("parse should succeed");
    assert_eq!(snapshot.state, IotpState::InactiveNotInitialized);
    assert_eq!(snapshot.state_label, "inactive (not initialized)");
}

#[test]
fn parse_invalid_state_reason() {
    let raw = r#"{"ok":true,"active":false,"reason":"invalid_secret"}"#;
    let snapshot = parse_snapshot_output(raw).expect("parse should succeed");
    assert_eq!(snapshot.state, IotpState::ErrorInvalidState);
    assert_eq!(snapshot.state_label, "error (invalid bootstrap state)");
    assert!(snapshot.detail.expect("detail should be present").contains("invalid_secret"));
}

#[test]
fn parse_helper_error_payload() {
    let raw = r#"{"ok":false,"code":"otp_invalid","message":"bad otp","status":401}"#;
    let snapshot = parse_snapshot_output(raw).expect("parse should succeed");
    assert_eq!(snapshot.state, IotpState::ErrorHelper);
    assert_eq!(snapshot.state_label, "error");
    assert_eq!(snapshot.detail, Some("otp_invalid: bad otp".to_string()));
}

#[test]
fn malformed_json_is_error() {
    let err = parse_snapshot_output("not-json").expect_err("parse should fail");
    assert!(err.contains("failed to parse"));
}

#[test]
fn json_found_on_last_line_and_edge_cases() {
    let raw = "log line\n{\"ok\":true,\"active\":false,\"reason\":\"completed\"}\n   \n";
    let snapshot = parse_snapshot_output(raw).expect("parse");
    assert_eq!(snapshot.state, IotpState::InactiveCompleted);
    let raw = "{\"ok\":true,\"active\":false,\"reason\":\"user_exists\"}\n{\"ok\":true,\"active\":false,\"reason\":\"completed\"}";
    assert_eq!(parse_snapshot_output(raw).unwrap().state, IotpState::InactiveCompleted);
    assert_eq!(parse_snapshot_output("   ").unwrap_err(), "bootstrap helper returned empty output");
    let active_blank = parse_snapshot_output(r#"{"ok":true,"active":true,"otp":"   "}"#).unwrap();
    assert_eq!(active_blank.state, IotpState::ErrorInvalidState);
    let other = parse_snapshot_output(r#"{"ok":true,"active":false,"reason":"weird"}"#).unwrap();
    assert_eq!(other.state, IotpState::Unavailable);
    assert_eq!(other.detail.as_deref(), Some("bootstrap helper reported reason: weird"));
    let no_fields = parse_snapshot_output("[1,2]").unwrap();
    assert_eq!(no_fields.detail.as_deref(), Some("unknown: unknown helper error"));
    let trimmed = parse_snapshot_output(r#"{"ok":true,"active":true,"otp":" x1 "}"#).unwrap();
    assert_eq!(trimmed.otp.as_deref(), Some("x1"));
    assert!(parse_json_payload("{}").is_ok());
}

#[test]
fn helper_runs() {
    let s = snapshot_from_helper_run(2, "  boom \n");
    assert_eq!(s.state, IotpState::Unavailable);
    assert_eq!(s.detail.as_deref(), Some("bootstrap helper exited with status 2: boom"));
    let s = snapshot_from_helper_run(-1, "");
    assert_eq!(s.detail.as_deref(), Some("bootstrap helper exited with status -1"));
    let s = snapshot_from_helper_run(0, "garbage");
    assert_eq!(s.detail.as_deref(), Some("failed to parse bootstrap helper JSON output"));
    let s = snapshot_from_query_error("no exec");
    assert_eq!(s.detail.as_deref(), Some("failed to query bootstrap helper: no exec"));
}

#[test]
fn render_iotp_status_active_shows_value() {
    let snapshot = IotpSnapshot {
        state: IotpState::ActiveUnused,
        state_label: "unused (active)".to_string(),
        otp: Some("abc123".to_string()),
        detail: None,
    };
    let (state, value, detail) = render_iotp_status(&snapshot, true, false);
    assert_eq!(state, "unused (active)");
    assert_eq!(value, "abc123");
    assert!(detail.is_none());
    assert!(!iotp_value_dimmed(&snapshot, true));
}

#[test]
fn render_iotp_status_inactive_hides_value() {
    let snapshot = IotpSnapshot {
        state: IotpState::InactiveUsersConfigured,
        state_label: "inactive (users configured)".to_string(),
        otp: None,
        detail: None,
    };
    let (state, value, _detail) = render_iotp_status(&snapshot, true, false);
    assert_eq!(state, "inactive (users configured)");
    assert!(value.contains("not available"));
    assert!(iotp_value_dimmed(&snapshot, true));
}

#[test]
fn render_iotp_status_not_running_marks_unavailable() {
    let snapshot = IotpSnapshot::unavailable("container not running".to_string());
    let (state, value, detail) = render_iotp_status(&snapshot, false, false);
    assert_eq!(state, "unavailable (container not running)");
    assert!(value.contains("not available"));
    assert_eq!(detail, Some("container not running".to_string()));
}

#[test]
fn render_iotp_status_adds_allow_unauth_note() {
    let snapshot = IotpSnapshot {
        state: IotpState::InactiveNotInitialized,
        state_label: "inactive (not initialized)".to_string(),
        otp: None,
        detail: Some("bootstrap helper reported reason: not_initialized".to_string()),
    };
    let (_state, _value, detail) = render_iotp_status(&snapshot, true, true);
    let detail = detail.expect("detail should exist");
    assert!(detail.contains("not_initialized"));
    assert!(detail.contains("allow_unauthenticated_network=true"));
}

#[test]
fn iotp_reset_hint_lines_includes_force_hint_when_exposed() {
    let lines = iotp_reset_hint_lines(true);
    assert_eq!(lines[0], "Reset IOTP: occ reset iotp");
    assert!(lines.iter().any(|line| line.contains("--force")));
}

#[test]
fn iotp_reset_hint_lines_without_exposed_only_shows_command() {
    let lines = iotp_reset_hint_lines(false);
    assert_eq!(lines, vec!["Reset IOTP: occ reset iotp".to_string()]);
    assert_eq!(iotp_hint_command(&lines[0]).as_deref(), Some("occ reset iotp"));
    assert_eq!(iotp_hint_command("Use --force"), None);
}

#[test]
fn test_build_iotp_fallback_message_default() {
    let message = build_iotp_fallback_message(false, None);
    assert!(message.contains("Could not retrieve"));
    assert!(message.contains(IOTP_FALLBACK_COMMAND));
    assert!(!message.contains("allow_unauthenticated_network"));
}

#[test]
fn test_build_iotp_fallback_message_with_unauth_hint() {
    let message = build_iotp_fallback_message(true, None);
    assert!(message.contains(IOTP_FALLBACK_COMMAND));
    assert!(message.contains("allow_unauthenticated_network=true"));
}

#[test]
fn test_build_iotp_fallback_message_includes_reason() {
    let message = build_iotp_fallback_message(false, Some("bootstrap helper unavailable"));
    assert!(message.contains("Reason: bootstrap helper unavailable"));
}
