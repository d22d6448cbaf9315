use opencode_cloud::errors::{format_docker_error, DockerErrorInfo, DockerErrorKind, TROUBLESHOOTING_URL};
use opencode_cloud::host::{
    check_host_add, check_host_remove, connected_message, connection_failed_message,
    host_removed_message, host_saved_message, no_verify_tip, remove_prompt,
    testing_connection_message, unverified_note, HostAddArgs, HostRemoveArgs,
};
use opencode_cloud::maintenance::{
    check_mount_clean, check_reset_container, check_reset_host, invalid_mount_message,
    mount_clean_prompt, mount_validation_message, recreate_step, restart_stop_step,
    short_container_id, summarize_errors, RecreateStep, ResetContainerArgs, RestartStop,
    DESTRUCTIVE_NEEDS_FORCE, MOUNT_CLEAN_LOCAL_ONLY, RESET_HOST_LOCAL_ONLY,
    RESET_MOUNTS_LOCAL_ONLY,
};
use opencode_cloud::status::{parse_uptime, uptime_at};
use opencode_cloud::iotp::{IotpSnapshot, IotpState, IOTP_FALLBACK_COMMAND};
use opencode_cloud::wizard::{
    after_setup_step, already_configured_line, bootstrap_saved_lines, current_config_lines,
    onboarding_headline, onboarding_tail_lines, running_status_lines, saved_lines,
    wizard_header_lines, wizard_total_steps, AfterSetupStep,
    build_bootstrap_config, check_setup_yes, display_bind_addr, follow_up_prompt,
    needs_onboarding, redact_env_entries, redact_env_entry, requires_restart, setup_follow_up,
    Config, SetupFollowUp, WizardState,
};

fn strip_ansi(s: &str) -> String {
    let mut out = String::new();
    let mut chars = s.chars().peekable();
    while let Some(c) = chars.next() {
        if c == '\x1b' {
            for d in chars.by_ref() {
                if d == 'm' {
                    break;
                }
            }
        } else {
            out.push(c);
        }
    }
    out
}

fn docker_error(kind: DockerErrorKind, display: &str) -> DockerErrorInfo {
    DockerErrorInfo { kind, display: display.to_string() }
}

#[test]
fn test_wizard_state_apply_to_config() {
    let state = WizardState {
        auth_username: Some("testuser".to_string()),
        auth_password: Some("testpass".to_string()),
        port: 8080,
        bind: "0.0.0.0".to_string(),
    };

    let mut config = Config::default();
    state.apply_to_config(&mut config);

    assert_eq!(config.auth_username, Some("testuser".to_string()));
    assert_eq!(config.auth_password, Some("testpass".to_string()));
    assert_eq!(config.opencode_web_port, 8080);
    assert_eq!(config.bind, "0.0.0.0");
}

#[test]
fn test_wizard_state_preserves_other_config_fields() {
    let state = WizardState {
        auth_username: Some("admin".to_string()),
        auth_password: Some("secret".to_string()),
        port: 3000,
        bind: "localhost".to_string(),
    };

    let mut config = Config {
        auto_restart: false,
        restart_retries: 10,
        ..Config::default()
    };
    state.apply_to_config(&mut config);

    assert!(!config.auto_restart);
    assert_eq!(config.restart_retries, 10);

    assert_eq!(config.auth_username, Some("admin".to_string()));
}

#[test]
fn wizard_without_credentials_keeps_existing_ones() {
    let state = WizardState { auth_username: None, auth_password: None, port: 4000, bind: "localhost".to_string() };
    let mut config = Config {
        auth_username: Some("old".to_string()),
        auth_password: Some("pw".to_string()),
        users: vec!["alice".to_string()],
        ..Config::default()
    };
    state.apply_to_config(&mut config);
    assert_eq!(config.auth_username.as_deref(), Some("old"));
    assert_eq!(config.auth_password.as_deref(), Some("pw"));
    assert_eq!(config.users, vec!["alice".to_string()]);
    assert_eq!(config.opencode_web_port, 4000);
}

#[test]
fn restart_needed_for_port_bind_and_exposed_cockpit() {
    let old = Config { opencode_web_port: 3000, bind: "localhost".to_string(), cockpit_port: 9090, ..Config::default() };
    let same = old.clone();
    assert!(!requires_restart(&old, &same, true));
    let port = Config { opencode_web_port: 3001, ..old.clone() };
    assert!(requires_restart(&old, &port, false));
    let bind = Config { bind: "0.0.0.0".to_string(), ..old.clone() };
    assert!(requires_restart(&old, &bind, false));
    let cockpit = Config { cockpit_port: 9091, ..old.clone() };
    assert!(requires_restart(&old, &cockpit, true));
    assert!(!requires_restart(&old, &cockpit, false));
}

#[test]
fn bootstrap_config_opens_network_and_keeps_rest() {
    let existing = Config {
        opencode_web_port: 3100,
        cockpit_enabled: true,
        users: vec!["bob".to_string()],
        ..Config::default()
    };
    let c = build_bootstrap_config(existing);
    assert_eq!(c.bind, "0.0.0.0");
    assert_eq!(c.bind_address, "0.0.0.0");
    assert!(!c.cockpit_enabled);
    assert!(c.allow_unauthenticated_network);
    assert_eq!(c.opencode_web_port, 3100);
    assert_eq!(c.users, vec!["bob".to_string()]);
}

#[test]
fn setup_follow_up_choices() {
    assert_eq!(setup_follow_up(false, true), SetupFollowUp::Start);
    assert_eq!(setup_follow_up(true, true), SetupFollowUp::Restart);
    assert_eq!(setup_follow_up(true, false), SetupFollowUp::ShowRunning);
    assert_eq!(follow_up_prompt(SetupFollowUp::Start), Some("Start opencode-cloud now?"));
    assert_eq!(
        follow_up_prompt(SetupFollowUp::Restart),
        Some("Config changed. Restart opencode-cloud to apply?")
    );
    assert_eq!(follow_up_prompt(SetupFollowUp::ShowRunning), None);
}

#[test]
fn setup_yes_needs_loaded_config() {
    assert!(check_setup_yes(true, true).is_ok());
    assert!(check_setup_yes(false, false).unwrap_err().starts_with("Non-interactive mode requires"));
    assert!(check_setup_yes(true, false).is_err());
}

#[test]
fn wildcard_bind_is_shown_as_loopback() {
    assert_eq!(display_bind_addr("0.0.0.0"), "127.0.0.1");
    assert_eq!(display_bind_addr("::"), "127.0.0.1");
    assert_eq!(display_bind_addr("192.168.1.5"), "192.168.1.5");
    assert!(needs_onboarding(&vec![]));
    assert!(!needs_onboarding(&vec!["a".to_string()]));
}

#[test]
fn env_entries_are_redacted() {
    assert_eq!(redact_env_entry("TOKEN=abc=def"), "TOKEN=REDACTED");
    assert_eq!(redact_env_entry("JUSTKEY"), "REDACTED");
    assert_eq!(
        redact_env_entries(&vec!["A=1".to_string(), "B".to_string()]),
        vec!["A=REDACTED".to_string(), "REDACTED".to_string()]
    );
}

#[test]
fn format_docker_error_not_running() {
    let error = docker_error(DockerErrorKind::NotRunning, "Docker is not running");
    let msg = format_docker_error(&error);
    assert!(msg.contains("Docker is not responding"));
    assert!(msg.contains("systemctl start docker"));
}

#[test]
fn format_docker_error_socket_not_found() {
    let error = docker_error(DockerErrorKind::SocketNotFound, "Docker socket not found");
    let msg = format_docker_error(&error);
    assert!(msg.contains("Docker socket not found"));
    assert!(msg.contains("/var/run/docker.sock"));
}

#[test]
fn format_docker_error_permission_denied() {
    let error = docker_error(DockerErrorKind::PermissionDenied, "Permission denied");
    let msg = format_docker_error(&error);
    assert!(msg.contains("Permission denied"));
    assert!(msg.contains("usermod"));
}

#[test]
fn format_docker_error_connection() {
    let error = docker_error(
        DockerErrorKind::Connection("socket not found".to_string()),
        "Connection error: socket not found",
    );
    let msg = format_docker_error(&error);
    assert!(msg.contains("Cannot connect to Docker"));
    assert!(msg.contains("socket not found"));
}

#[test]
fn format_docker_error_port_conflict() {
    let error = docker_error(
        DockerErrorKind::Container("port 3000 already in use".to_string()),
        "Container error: port 3000 already in use",
    );
    let msg = format_docker_error(&error);
    assert!(msg.contains("Port conflict"));
    assert!(msg.contains("--port"));
}

#[test]
fn format_docker_error_anyhow_wraps_correctly() {
    let error = docker_error(DockerErrorKind::NotRunning, "Docker is not running");
    let err_msg = format_docker_error(&error).to_string();
    assert!(err_msg.contains("Docker is not responding"));
}

#[test]
fn docker_errors_without_guidance_show_their_description() {
    let other = docker_error(DockerErrorKind::Other, "image pull failed");
    assert_eq!(format_docker_error(&other), "image pull failed");
    let container = docker_error(
        DockerErrorKind::Container("name in use".to_string()),
        "Container error: name in use",
    );
    assert_eq!(format_docker_error(&container), "Container error: name in use");
}

#[test]
fn docker_error_texts_are_exact_without_color() {
    let msg = strip_ansi(&format_docker_error(&docker_error(
        DockerErrorKind::Connection("refused".to_string()),
        "",
    )));
    assert_eq!(
        msg,
        format!("Cannot connect to Docker\n\n  refused\n\n  Docs: {TROUBLESHOOTING_URL}")
    );
    let not_running = strip_ansi(&format_docker_error(&docker_error(DockerErrorKind::NotRunning, "")));
    assert_eq!(
        not_running,
        format!(
            "Docker is not responding\n\n  Start or restart the Docker daemon:\n    Linux:  sudo systemctl start docker\n    Linux:  sudo systemctl restart docker\n\n  Docs: {TROUBLESHOOTING_URL}"
        )
    );
}

#[test]
fn parse_uptime_with_fractional_seconds() {
    let timestamp = "2024-01-15T10:30:00.123456789Z";
    let result = parse_uptime(timestamp);
    assert!(result.is_some());
    let (_, display) = result.unwrap();
    assert!(display.contains("2024-01-15"));
}

#[test]
fn parse_uptime_without_fractional_seconds() {
    let timestamp = "2024-01-15T10:30:00Z";
    let result = parse_uptime(timestamp);
    assert!(result.is_some());
    let (_, display) = result.unwrap();
    assert!(display.contains("2024-01-15"));
}

#[test]
fn uptime_at_counts_whole_seconds() {
    // 2024-01-15T10:30:00Z is 1705314600 seconds after the epoch.
    let start = 1_705_314_600i64;
    assert_eq!(
        uptime_at("2024-01-15T10:30:00Z", start + 90, 0),
        Some((90, "2024-01-15 10:30:00 UTC".to_string()))
    );
    assert_eq!(uptime_at("2024-01-15T10:30:00.500Z", start + 1, 400_000_000), Some((0, "2024-01-15 10:30:00 UTC".to_string())));
    assert_eq!(uptime_at("2024-01-15T10:30:00.500Z", start + 1, 600_000_000), Some((1, "2024-01-15 10:30:00 UTC".to_string())));
    assert_eq!(uptime_at("2024-01-15T10:30:00Z", start - 1, 0), None);
    assert_eq!(uptime_at("not a time", start, 0), None);
    assert_eq!(
        uptime_at("2024-01-15T12:30:00+02:00", start + 3600, 0),
        Some((3600, "2024-01-15 10:30:00 UTC".to_string()))
    );
}

#[test]
fn host_add_needs_force_for_taken_name() {
    let args = HostAddArgs {
        name: "prod-1".to_string(),
        hostname: "10.0.0.1".to_string(),
        user: None,
        port: None,
        identity_file: None,
        jump_host: None,
        group: vec![],
        description: None,
        skip_verify: false,
        force: false,
    };
    assert!(check_host_add(&args, false).is_ok());
    assert_eq!(
        check_host_add(&args, true).unwrap_err(),
        "Host 'prod-1' already exists. Use --force to overwrite, or choose a different name."
    );
    let forced = HostAddArgs { force: true, ..args };
    assert!(check_host_add(&forced, true).is_ok());
}

#[test]
fn host_messages_read_as_expected() {
    assert_eq!(testing_connection_message("h"), "Testing connection to h...");
    assert_eq!(strip_ansi(&connected_message("24.0.7")), "✓ Connected (Docker 24.0.7)");
    assert_eq!(strip_ansi(&connection_failed_message()), "✗ Connection failed");
    assert_eq!(strip_ansi(&no_verify_tip()), "  Tip: Use --no-verify to add the host anyway.");
    assert_eq!(strip_ansi(&host_saved_message("a", "h", false)), "Added: Host 'a' added (h).");
    assert_eq!(strip_ansi(&host_saved_message("a", "h", true)), "Updated: Host 'a' updated (h).");
    assert_eq!(
        strip_ansi(&unverified_note("a")),
        "  Note: Connection not verified. Run occ host test a to test."
    );
    assert_eq!(strip_ansi(&host_removed_message("a")), "Removed: Host 'a' removed.");
}

#[test]
fn host_remove_checks_and_prompts() {
    let args = HostRemoveArgs { name: "old".to_string(), force: false };
    assert_eq!(check_host_remove(&args, false).unwrap_err(), "Host 'old' not found.");
    assert!(check_host_remove(&args, true).is_ok());
    assert_eq!(strip_ansi(&remove_prompt(&args, false, false).unwrap()), "Remove host 'old'?");
    assert_eq!(
        strip_ansi(&remove_prompt(&args, false, true).unwrap()),
        "Remove host 'old' (currently the default)?"
    );
    assert_eq!(remove_prompt(&args, true, false), None);
    let forced = HostRemoveArgs { name: "old".to_string(), force: true };
    assert_eq!(remove_prompt(&forced, false, false), None);
}

#[test]
fn reset_container_flag_checks() {
    let base = ResetContainerArgs { volumes: false, clean_mounts: false, purge_mounts: false, recreate: false, force: false };
    assert!(check_reset_container(&base, true).is_ok());
    let volumes = ResetContainerArgs { volumes: true, ..base.clone() };
    assert_eq!(check_reset_container(&volumes, false).unwrap_err(), DESTRUCTIVE_NEEDS_FORCE);
    let clean_remote = ResetContainerArgs { clean_mounts: true, force: true, ..base.clone() };
    assert_eq!(check_reset_container(&clean_remote, true).unwrap_err(), RESET_MOUNTS_LOCAL_ONLY);
    assert!(check_reset_container(&clean_remote, false).is_ok());
    assert_eq!(check_reset_host(true).unwrap_err(), RESET_HOST_LOCAL_ONLY);
    assert!(check_reset_host(false).is_ok());
    assert_eq!(check_mount_clean(true).unwrap_err(), MOUNT_CLEAN_LOCAL_ONLY);
    assert!(check_mount_clean(false).is_ok());
}

#[test]
fn maintenance_texts_and_steps() {
    assert!(mount_clean_prompt(true).contains("remove the mount directories"));
    assert_eq!(mount_clean_prompt(false), "This will delete all contents of configured bind mounts. Continue?");
    assert_eq!(summarize_errors("Failed:", &vec![]), Ok(()));
    assert_eq!(
        summarize_errors("Failed:", &vec!["a".to_string(), "b".to_string()]),
        Err("Failed:\n  - a\n  - b".to_string())
    );
    assert_eq!(recreate_step(false, 0), RecreateStep::NotAsked);
    assert_eq!(recreate_step(true, 0), RecreateStep::Start);
    assert_eq!(recreate_step(true, 2), RecreateStep::SkipAfterErrors);
    assert_eq!(restart_stop_step(true, false), RestartStop::Recreate);
    assert_eq!(restart_stop_step(false, true), RestartStop::Stop);
    assert_eq!(restart_stop_step(false, false), RestartStop::NotRunning);
    assert_eq!(short_container_id("0123456789abcdef"), "0123456789ab");
    assert_eq!(short_container_id("abc"), "abc");
    assert_eq!(
        mount_validation_message("/d", "gone"),
        "Mount path validation failed for '/d':\n  gone\n\nDid the directory move? Run: occ mount remove /d"
    );
    assert_eq!(invalid_mount_message("x", "bad", true), "Invalid config mount 'x': bad");
    assert_eq!(invalid_mount_message("x", "bad", false), "Invalid mount 'x': bad");
}

#[test]
fn after_setup_messages() {
    assert_eq!(after_setup_step(true, false), AfterSetupStep::ShowRunning);
    assert_eq!(after_setup_step(true, true), AfterSetupStep::StopThenStart);
    assert_eq!(after_setup_step(false, true), AfterSetupStep::Start);
    let saved: Vec<String> = saved_lines().iter().map(|l| strip_ansi(l)).collect();
    assert_eq!(saved, vec!["", "Success: Configuration saved successfully!", ""]);
    let boot: Vec<String> = bootstrap_saved_lines().iter().map(|l| strip_ansi(l)).collect();
    assert_eq!(boot[2], "Unauthenticated network access is enabled.");
    assert_eq!(strip_ansi(&already_configured_line()), "Configuration already set");
    let running: Vec<String> = running_status_lines("0.0.0.0", 3000, None).iter().map(|l| strip_ansi(l)).collect();
    assert_eq!(running, vec!["Service is already running", "", "URL: http://127.0.0.1:3000"]);
    assert_eq!(strip_ansi(&running_status_lines("10.1.1.1", 80, Some("prod"))[0]), "[prod] Service is already running");
    assert_eq!(strip_ansi(&onboarding_headline(None)), "First-time onboarding");
}

#[test]
fn onboarding_shows_iotp_or_fallback() {
    let active = IotpSnapshot {
        state: IotpState::ActiveUnused,
        state_label: "active".to_string(),
        otp: Some("xyz".to_string()),
        detail: None,
    };
    let lines: Vec<String> = onboarding_tail_lines(&active, false).iter().map(|l| strip_ansi(l)).collect();
    assert_eq!(
        lines,
        vec![
            "Initial One-Time Password (IOTP): xyz",
            "Enter this in the web login first-time setup panel, then enroll a passkey for opencoder.",
        ]
    );
    let missing = IotpSnapshot {
        state: IotpState::InactiveNotInitialized,
        state_label: "inactive".to_string(),
        otp: None,
        detail: Some("not ready".to_string()),
    };
    let lines: Vec<String> = onboarding_tail_lines(&missing, true).iter().map(|l| strip_ansi(l)).collect();
    assert_eq!(lines[0], "Could not retrieve the Initial One-Time Password (IOTP) from bootstrap state.");
    assert_eq!(lines[4], format!("  {IOTP_FALLBACK_COMMAND}"));
    assert_eq!(lines[5], "Reason: not ready");
    assert_eq!(lines[6], "Note: allow_unauthenticated_network=true may skip IOTP generation by design.");
}

#[test]
fn wizard_texts() {
    assert_eq!(wizard_total_steps(true), 1);
    assert_eq!(wizard_total_steps(false), 3);
    let header: Vec<String> = wizard_header_lines().iter().map(|l| strip_ansi(l)).collect();
    assert_eq!(header, vec!["".to_string(), "opencode-cloud Setup Wizard".to_string(), "=".repeat(30), "".to_string()]);
    let current: Vec<String> = current_config_lines(None, 3000, "localhost").iter().map(|l| strip_ansi(l)).collect();
    assert_eq!(
        current,
        vec![
            "Current configuration:",
            "  Username: -",
            "  Password: ********",
            "  Port:     3000",
            "  Binding:  localhost",
            "",
        ]
    );
}
