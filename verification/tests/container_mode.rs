use opencode_cloud::container_mode::{
    check_container_update, command_output_info, container_runtime_label, container_state_label,
    container_status_lines, container_stopped_note, format_opencode_display, opencode_plan_lines,
    opencode_stop_failed, opencode_up_to_date_line, opencode_update_failed, opencode_updated_lines,
    systemd_restart_failed, systemd_stop_warning_lines, update_not_applied, ContainerStatus,
    CONTAINER_ROLLBACK_UNSUPPORTED, CONTAINER_UPDATE_ONLY_OPENCODE,
};
use opencode_cloud::runtime::{BrokerHealthStatus, OpencodeHealthStatus};
use opencode_cloud::update::{UpdateArgs, UpdateCommand, UpdateOpencodeArgs};

fn plain(s: &str) -> String {
    let mut out = String::new();
    let mut chars = s.chars();
    while let Some(c) = chars.next() {
        if c == '\x1b' {
            for d in chars.by_ref() {
                if d == 'm' {
                    break;
                }
            }
        } else {
            out.push(c);
        }
    }
    out
}

fn plain_all(v: Vec<String>) -> Vec<String> {
    v.iter().map(|s| plain(s)).collect()
}

#[test]
fn opencode_display_combinations() {
    assert_eq!(format_opencode_display("unknown", "unknown"), "unknown");
    assert_eq!(format_opencode_display("unknown", "abc1234"), "unknown (abc1234)");
    assert_eq!(format_opencode_display("1.2.3", "unknown"), "1.2.3");
    assert_eq!(format_opencode_display("1.2.3", "abc1234"), "1.2.3 (abc1234)");
}

#[test]
fn container_state_and_runtime() {
    assert_eq!(container_state_label(false, None), "stopped");
    assert_eq!(container_state_label(true, None), "running");
    assert_eq!(container_state_label(true, Some(OpencodeHealthStatus::Starting)), "starting");
    assert_eq!(container_state_label(true, Some(OpencodeHealthStatus::Unhealthy(503))), "unhealthy");
    assert_eq!(container_state_label(true, Some(OpencodeHealthStatus::CheckFailed)), "unknown");
    assert_eq!(container_runtime_label(Some(false), true), "tini");
    assert_eq!(container_runtime_label(None, true), "systemd");
}

#[test]
fn container_status_output() {
    let c = ContainerStatus {
        url: "http://127.0.0.1:3000".to_string(),
        opencode_version: "1.2.3".to_string(),
        opencode_commit: "abc1234".to_string(),
        broker: BrokerHealthStatus::Degraded,
        runtime: "systemd".to_string(),
        image_version: "0.9.0".to_string(),
        cli_version: "1.0.0".to_string(),
    };
    assert_eq!(
        plain_all(container_status_lines("running", &c)),
        vec![
            "State:          running",
            "URL:            http://127.0.0.1:3000",
            "Opencode:       1.2.3 (abc1234)",
            "Broker:         Degraded",
            "Runtime:        systemd",
            "Image:          0.9.0",
            "CLI:            v1.0.0",
        ]
    );
}

#[test]
fn container_update_routes() {
    let rollback = UpdateArgs { command: None, yes: false, rollback: true };
    assert_eq!(check_container_update(&rollback).unwrap_err(), CONTAINER_ROLLBACK_UNSUPPORTED);
    let container = UpdateArgs { command: Some(UpdateCommand::Container), yes: false, rollback: false };
    assert_eq!(check_container_update(&container).unwrap_err(), CONTAINER_UPDATE_ONLY_OPENCODE);
    let op = UpdateOpencodeArgs { branch: Some("dev".to_string()), commit: None, yes: true };
    let opencode = UpdateArgs { command: Some(UpdateCommand::Opencode(op.clone())), yes: false, rollback: false };
    assert_eq!(check_container_update(&opencode).unwrap(), op);
}

#[test]
fn opencode_rebuild_messages() {
    assert_eq!(
        plain(&container_stopped_note()),
        "Note: Container is stopped. It must be running to update opencode."
    );
    assert_eq!(plain(&opencode_up_to_date_line("abc1234")), "✓ Opencode is already up to date (hash: abc1234).");
    assert_eq!(
        plain_all(opencode_plan_lines("dev", Some("1.0"), None, Some("def5678"))),
        vec![
            "",
            "Warning: This will stop the opencode service, update from dev, rebuild, and restart.",
            "Current:    version=1.0, hash=unknown",
            "Next hash:  def5678",
            "",
        ]
    );
    assert_eq!(command_output_info("Update", "  \n"), None);
    assert_eq!(plain(&command_output_info("Update", " done \n").unwrap()), "[info] Update output:\ndone");
    assert_eq!(opencode_update_failed(2, "log"), "Opencode update failed (exit 2).\nlog");
    assert_eq!(opencode_stop_failed(1, "x"), "Failed to stop opencode processes (exit 1).\nx");
    assert_eq!(
        update_not_applied("abc", None, "out"),
        "Opencode update did not apply (expected abc, found unknown).\nout"
    );
    assert_eq!(
        plain_all(systemd_stop_warning_lines(5, " oops ")),
        vec![
            "Warning: Failed to stop opencode via systemd (exit 5). Continuing update.",
            "oops",
        ]
    );
    assert_eq!(systemd_restart_failed(1, ""), "Failed to restart opencode via systemd (exit 1).");
    assert_eq!(systemd_restart_failed(1, "bad\n"), "Failed to restart opencode via systemd (exit 1).\nbad");
    assert_eq!(
        plain_all(opencode_updated_lines()),
        vec!["", "Success: Opencode updated successfully!", ""]
    );
}
