use opencode_cloud::logs::{
    broker_systemd_error, emit_log_text, host_line_prefix, no_container_message,
    stream_end_notice,
};
use opencode_cloud::lifecycle::{
    stop_report, stop_spinner_messages, stop_wait_mode, StopOutcome, StopWait,
};
use opencode_cloud::cleanup::MountCleanupResult;
use opencode_cloud::maintenance::{
    mount_cleanup_errors, mount_cleanup_report_lines, no_valid_mounts_lines, remove_dir_error,
    removed_dir_line,
};
use opencode_cloud::users::{
    check_new_password, check_not_last_user, check_not_protected, check_root, check_user_known,
    check_user_new, create_user_error, delete_user_error, generate_tip, generated_password_lines,
    lock_user_error, password_intro_lines, user_success_message, UserChange,
    GENERATED_PASSWORD_NOTICE, PROTECTED_USER_MESSAGE, ROOT_REQUIRED_MESSAGE,
};

fn plain(s: &str) -> String {
    let mut out = String::new();
    let mut chars = s.chars();
    while let Some(c) = chars.next() {
        if c == '\x1b' {
            for d in chars.by_ref() {
                if d == 'm' {
                    break;
                }
            }
        } else {
            out.push(c);
        }
    }
    out
}

fn plain_all(v: Vec<String>) -> Vec<String> {
    v.iter().map(|s| plain(s)).collect()
}

fn strings(v: &[&str]) -> Vec<String> {
    v.iter().map(|s| s.to_string()).collect()
}

#[test]
fn account_checks() {
    assert_eq!(check_not_protected("opencode").unwrap_err(), PROTECTED_USER_MESSAGE);
    assert!(check_not_protected("alice").is_ok());
    assert_eq!(check_user_known("bob", false).unwrap_err(), "User 'bob' does not exist in the container");
    assert!(check_user_known("bob", true).is_ok());
    assert_eq!(check_user_new("bob", true).unwrap_err(), "User 'bob' already exists in the container");
    assert!(check_user_new("bob", false).is_ok());
    assert!(check_not_last_user("bob", 1, false).unwrap_err().ends_with("occ user remove bob --force"));
    assert!(check_not_last_user("bob", 1, true).is_ok());
    assert!(check_not_last_user("bob", 2, false).is_ok());
    assert_eq!(check_new_password("").unwrap_err(), "Password cannot be empty");
    assert!(check_new_password("x").is_ok());
}

#[test]
fn root_check_reads_id_output() {
    assert!(check_root("0\n").is_ok());
    assert!(check_root("  0  ").is_ok());
    assert_eq!(check_root("1000\n").unwrap_err(), ROOT_REQUIRED_MESSAGE);
    assert!(check_root("").is_err());
    assert!(check_root("root").is_err());
}

#[test]
fn account_command_errors() {
    assert_eq!(create_user_error("bob", true, 9), "User 'bob' already exists");
    assert_eq!(create_user_error("bob", false, 9), "Failed to create user 'bob' (exit 9)");
    assert_eq!(create_user_error("bob", false, -1), "Failed to create user 'bob' (exit -1)");
    assert_eq!(delete_user_error("bob", 6, "  \n"), "Failed to remove user 'bob' (exit 6)");
    assert_eq!(delete_user_error("bob", 6, " busy \n"), "Failed to remove user 'bob' (exit 6)\nbusy");
    assert_eq!(lock_user_error("bob", true, 3), "Failed to lock user 'bob' (exit 3)");
    assert_eq!(lock_user_error("bob", false, 3), "Failed to unlock user 'bob' (exit 3)");
}

#[test]
fn account_messages() {
    assert_eq!(plain(&user_success_message(UserChange::Created, "bob")), "Success: User 'bob' created successfully");
    assert_eq!(plain(&user_success_message(UserChange::Removed, "bob")), "Success: User 'bob' removed successfully");
    assert_eq!(plain(&user_success_message(UserChange::PasswordChanged, "bob")), "Success: Password changed for user 'bob'");
    assert_eq!(plain(&user_success_message(UserChange::Enabled, "bob")), "Success: User 'bob' enabled");
    assert_eq!(plain(&user_success_message(UserChange::Disabled, "bob")), "Success: User 'bob' disabled");
    assert_eq!(plain(&generate_tip()), "  Tip: Use --generate (-g) to auto-generate a secure password.");
    let intro = plain_all(password_intro_lines());
    assert_eq!(intro.len(), 6);
    assert_eq!(intro[0], "");
    assert_eq!(intro[5], "  Tip: Press Enter to auto-generate and display a secure password.");
    assert_eq!(
        plain_all(generated_password_lines("s3cret", GENERATED_PASSWORD_NOTICE)),
        vec![
            "",
            "  Password: s3cret",
            "",
            "Save this password securely - it won't be shown again.",
            "Password generated using a cryptographically secure random number generator.",
        ]
    );
}

#[test]
fn cleanup_reports() {
    let result = MountCleanupResult {
        cleaned: strings(&["/a"]),
        purged: strings(&["/b", "/c"]),
        skipped: strings(&["/missing"]),
        errors: strings(&["boom"]),
    };
    assert_eq!(
        plain_all(mount_cleanup_report_lines(true, &result, &strings(&["bad"]))),
        vec![
            "Purged mount directories:",
            "  /b",
            "  /c",
            "",
            "Skipped invalid mount entries:",
            "  bad",
            "",
            "Skipped mount paths:",
            "  /missing",
        ]
    );
    assert_eq!(
        plain_all(mount_cleanup_report_lines(false, &result, &vec![])),
        vec!["Cleaned mount directories:", "  /a", "", "Skipped mount paths:", "  /missing"]
    );
    let empty = MountCleanupResult { cleaned: vec![], purged: vec![], skipped: vec![], errors: vec![] };
    assert!(mount_cleanup_report_lines(true, &empty, &vec![]).is_empty());
    assert_eq!(mount_cleanup_errors(&result), strings(&["Mount cleanup error: boom"]));
    assert_eq!(
        plain_all(no_valid_mounts_lines(&strings(&["x"]))),
        vec!["No valid mounts found to clean.", "", "Skipped invalid mount entries:", "  x"]
    );
    assert_eq!(plain(&removed_dir_line("config", "/c")), "Removed config directory: /c");
    assert_eq!(remove_dir_error("data", "/d", "denied"), "Failed to remove data directory /d: denied");
}

#[test]
fn stop_reports() {
    assert_eq!(stop_wait_mode(true, true), StopWait::Quiet);
    assert_eq!(stop_wait_mode(false, true), StopWait::WaitOrEnter);
    assert_eq!(stop_wait_mode(false, false), StopWait::Wait);
    let m = stop_spinner_messages(false);
    let ok = stop_report(StopOutcome::Graceful { succeeded: true, elapsed_secs: 3 }, None, &m, 30);
    assert!(ok.succeeded);
    assert!(!ok.timeout_note);
    assert_eq!(ok.spinner_text, format!("{} (3s)", m.success_base_message));
    let slow = stop_report(StopOutcome::Graceful { succeeded: true, elapsed_secs: 30 }, None, &m, 30);
    assert!(slow.timeout_note);
    assert_eq!(slow.spinner_text, format!("{} (force killed after 30s timeout)", m.success_base_message));
    let forced = stop_report(StopOutcome::Forced { succeeded: true }, None, &m, 30);
    assert_eq!(forced.spinner_text, format!("{} (force killed on request)", m.success_base_message));
    let failed = stop_report(StopOutcome::Forced { succeeded: false }, Some("prod"), &m, 30);
    assert!(!failed.succeeded);
    assert_eq!(plain(&failed.spinner_text), format!("[prod] {}", m.failure_message));
}

#[test]
fn exec_failure_errors() {
    let args = vec!["-S".to_string(), "bob".to_string()];
    assert_eq!(
        opencode_cloud::users::command_failed_error("passwd", &args, 1, ""),
        "Command failed: passwd -S bob (exit 1)"
    );
    assert_eq!(
        opencode_cloud::users::command_failed_error("passwd", &args, 1, " no such user\n"),
        "Command failed: passwd -S bob (exit 1)\nno such user"
    );
}

#[test]
fn log_line_emission() {
    assert_eq!(emit_log_text("INFO ok", Some("ERROR"), None, false, false), None);
    assert_eq!(emit_log_text("ERROR bad", Some("ERROR"), None, true, true), Some("ERROR bad\n".to_string()));
    assert_eq!(emit_log_text("x\n", None, Some("[h] "), false, false), Some("[h] x\n".to_string()));
    let styled = emit_log_text("WARN w", None, None, false, true).unwrap();
    assert_eq!(plain(&styled), "WARN w\n");
    assert_eq!(plain(&host_line_prefix(Some("prod")).unwrap()), "[prod] ");
    assert_eq!(host_line_prefix(None), None);
    assert_eq!(plain(&no_container_message()), "No container found. Run 'occ start' first.");
    assert!(plain(&broker_systemd_error()).ends_with("occ stop --remove\n  occ start"));
    assert!(stream_end_notice(true, false, false));
    assert!(!stream_end_notice(true, true, false));
    assert!(!stream_end_notice(false, false, false));
}
