use opencode_cloud::cleanup::{
    cli_platform_label_from, install_method_from_path, is_dev_binary_path, is_remote_host,
    is_root_path, resolve_target_host_name, validate_safe_path, CleanupOutcome, CliInstallMethod,
    MountCleanupResult,
};
use opencode_cloud::cli::{
    check_container_mode_flags, command_kind, container_dispatch, container_runtime_from_markers,
    effective_runtime_choice, format_host_message, get_banner, resolve_runtime_with_autodetect,
    resolve_target_host, runtime_choice_from_value, should_run_runtime_asset_preflight,
    CommandKind, CommandName, ContainerDispatch, RuntimeChoice, RuntimeMode, StartArgs,
};
use opencode_cloud::lifecycle::{
    forcing_message, not_running_notice, stop_base_message, stop_progress_message,
    stop_spinner_messages, stop_success_message, stop_success_message_forced,
};
use opencode_cloud::sandbox::{
    auto_instance_id, compute_stable_fnv1a_64_hash, is_valid_instance_id,
    normalize_manual_instance_id, resolve_sandbox_request, SandboxProfile, SandboxRequest,
};
use opencode_cloud::style::{log_level_style, state_style};
use opencode_cloud::update::{
    build_cli_candidate, build_container_candidate, build_opencode_candidate, cli_up_to_date,
    commit_from_file, commit_from_ls_remote, container_needs_registry, image_registry,
    next_commit, opencode_checkout_command, opencode_target_ref, opencode_up_to_date,
    opencode_update_script, parse_cargo_info_versions, parse_latest_token,
    parse_npm_view_version, select_all_targets, short_commit, update_route, update_target_text,
    CliTargetVersion, UpdateArgs, UpdateCommand, UpdateOpencodeArgs, UpdateRoute, UpdateSelection,
    UpdateTarget, UPDATE_SCRIPT_HEAD, dev_image_notes, image_up_to_date_line, purge_notice_lines,
    step_line, update_plan_lines, update_summary_lines, warning_line, container_not_found_note,
    done_lines, image_source_notice_lines, prebuilt_state_version, purge_reclaimed_line,
    rollback_warning_lines, cli_up_to_date_line, cli_update_plan_lines, cli_update_prompt,
    cli_update_spinner_texts, cli_updated_lines,
};

#[test]
fn parse_cargo_info_versions_latest() {
    let output = "name: opencode-cloud\nversion: 10.4.0 (latest 11.0.0)\n";
    let parsed = parse_cargo_info_versions(output).expect("should parse version");
    assert_eq!(parsed.target, "11.0.0");
    assert_eq!(parsed.compatible.as_deref(), Some("10.4.0"));
}

#[test]
fn parse_cargo_info_versions_plain() {
    let output = "name: opencode-cloud\nversion: 11.0.0\n";
    let parsed = parse_cargo_info_versions(output).expect("should parse version");
    assert_eq!(parsed.target, "11.0.0");
    assert!(parsed.compatible.is_none());
}

#[test]
fn parse_cargo_info_versions_from_path() {
    let output = "name: opencode-cloud\nversion: 11.0.0 (from ./packages/cli-rust)\n";
    let parsed = parse_cargo_info_versions(output).expect("should parse version");
    assert_eq!(parsed.target, "11.0.0");
    assert!(parsed.compatible.is_none());
}

#[test]
fn version_parsing_edge_cases() {
    assert!(parse_cargo_info_versions("name: x\n").is_none());
    assert!(parse_cargo_info_versions("version:   \n").is_none());
    assert_eq!(parse_latest_token("1.0 (latest)").as_deref(), None);
    assert_eq!(parse_latest_token("1.0 (latest 2.0)").as_deref(), Some("2.0"));
    assert_eq!(parse_npm_view_version("2.3.4\n").as_deref(), Some("2.3.4"));
    assert_eq!(parse_npm_view_version("\n"), None);
    assert_eq!(short_commit("abcdef0123"), "abcdef0");
    assert_eq!(short_commit("abc"), "abc");
    assert_eq!(commit_from_file(" abcdef0123 \n").as_deref(), Some("abcdef0"));
    assert_eq!(commit_from_ls_remote("0123456789abcdef\trefs/heads/dev\n").as_deref(), Some("0123456"));
    assert_eq!(commit_from_ls_remote("  "), None);
    assert_eq!(next_commit(Some("abcdef0123"), None).as_deref(), Some("abcdef0"));
    assert_eq!(next_commit(None, Some("1234567".to_string())).as_deref(), Some("1234567"));
}

#[test]
fn update_routes() {
    let args = |command, rollback| UpdateArgs { command, rollback, yes: false };
    assert_eq!(update_route(&args(None, false)), UpdateRoute::Selector);
    assert_eq!(update_route(&args(None, true)), UpdateRoute::Rollback);
    assert_eq!(update_route(&args(Some(UpdateCommand::Container), false)), UpdateRoute::ContainerUpdate);
    assert_eq!(update_route(&args(Some(UpdateCommand::Container), true)), UpdateRoute::Rollback);
    let oc = UpdateOpencodeArgs { branch: None, commit: None, yes: false };
    assert_eq!(update_route(&args(Some(UpdateCommand::Opencode(oc)), true)), UpdateRoute::Opencode);
}

#[test]
fn candidates_and_selection() {
    let cli = build_cli_candidate("1.0.0", "Rust CLI", false, true, &Some(CliTargetVersion { target: "1.1.0".to_string(), compatible: Some("1.0.5".to_string()) }));
    assert!(cli.available && cli.selectable);
    assert_eq!(cli.current, "v1.0.0");
    assert_eq!(cli.target_display.as_deref(), Some("v1.1.0"));
    assert!(cli.note.is_some());
    assert_eq!(cli.summary_line(), "Rust CLI   v1.0.0 -> v1.1.0");
    let same = build_cli_candidate("1.0.0", "CLI", false, true, &Some(CliTargetVersion { target: "1.0.0".to_string(), compatible: None }));
    assert!(!same.available && same.selectable);
    assert_eq!(same.summary_line(), "CLI        v1.0.0 (up to date)");
    let dev = build_cli_candidate("1.0.0", "CLI", true, true, &None);
    assert!(!dev.selectable);
    assert_eq!(dev.summary_line(), "CLI        v1.0.0 (unavailable)");
    let container = build_container_candidate(true, true, None, None, true, Some("2.0".to_string()), false, Ok(Some("2.0".to_string())));
    assert!(!container.available);
    assert_eq!(container.current, "v2.0");
    let container2 = build_container_candidate(true, true, None, None, true, Some("2.0".to_string()), false, Err("offline".to_string()));
    assert!(container2.available);
    assert_eq!(container2.target_display.as_deref(), Some("latest (unknown)"));
    assert_eq!(container2.note.as_deref(), Some("Failed to fetch registry version: offline"));
    let devc = build_container_candidate(true, true, None, None, true, Some("dev".to_string()), false, Ok(None));
    assert!(!devc.selectable);
    let nocfg = build_container_candidate(false, true, Some("bad config"), None, false, None, false, Ok(None));
    assert_eq!(nocfg.note.as_deref(), Some("bad config"));
    assert!(container_needs_registry(true, true, Some("1.0"), false));
    assert!(!container_needs_registry(true, true, Some("dev"), false));
    let oc = build_opencode_candidate(true, true, None, None, Some("abc1234"), None, true, true, Some("abc1234".to_string()));
    assert!(!oc.available && oc.selectable);
    let stopped = build_opencode_candidate(true, true, None, None, None, Some("net"), true, false, None);
    assert_eq!(stopped.current, "unknown (stopped)");
    assert_eq!(stopped.target_display.as_deref(), Some("latest (unknown)"));
    let missing = build_opencode_candidate(true, true, None, None, None, None, false, false, None);
    assert_eq!(missing.current, "missing");
    let targets = select_all_targets(&vec![cli, same, container2, oc]);
    assert_eq!(targets, vec![UpdateTarget::Cli, UpdateTarget::Container]);
    let selection = UpdateSelection::from_targets(&targets);
    assert!(selection.cli && selection.container && !selection.opencode);
}

#[test]
fn opencode_update_plan() {
    let by_commit = UpdateOpencodeArgs { branch: None, commit: Some("abc".to_string()), yes: true };
    let by_branch = UpdateOpencodeArgs { branch: Some("main".to_string()), commit: None, yes: true };
    let default = UpdateOpencodeArgs { branch: None, commit: None, yes: true };
    assert_eq!(opencode_target_ref(&by_commit), "abc");
    assert_eq!(opencode_target_ref(&by_branch), "main");
    assert_eq!(opencode_target_ref(&default), "dev");
    assert_eq!(opencode_checkout_command(&by_commit), "git checkout \"$OPENCODE_REF\"");
    let script = opencode_update_script("dev", opencode_checkout_command(&default));
    assert!(script.starts_with(UPDATE_SCRIPT_HEAD));
    assert!(script.contains("OPENCODE_REF=\"dev\"\n"));
    assert!(script.contains("git checkout -B \"$OPENCODE_REF\" \"origin/$OPENCODE_REF\"\n\nmkdir -p /opt/opencode\n"));
    assert!(opencode_up_to_date(&Some("a".to_string()), &Some("a".to_string())));
    assert!(!opencode_up_to_date(&None, &None));
    assert_eq!(image_registry("ghcr.io/x/y:latest"), "ghcr.io");
    assert_eq!(image_registry("x/y:latest"), "docker.io");
    assert_eq!(update_target_text(false, Some("1.2")), "latest (registry, version 1.2)");
    assert_eq!(update_target_text(true, Some("1.2")), "build from source");
    assert!(cli_up_to_date(&Some(CliTargetVersion { target: "1.0".to_string(), compatible: None }), "1.0"));
    assert!(!cli_up_to_date(&None, "1.0"));
}

#[test]
fn container_marker_logic_requires_both_markers() {
    assert!(container_runtime_from_markers(true, true));
    assert!(!container_runtime_from_markers(true, false));
    assert!(!container_runtime_from_markers(false, true));
    assert!(!container_runtime_from_markers(false, false));
}

#[test]
fn runtime_precedence_respects_explicit_choice() {
    let (mode, auto) = resolve_runtime_with_autodetect(RuntimeChoice::Host, true);
    assert_eq!(mode, RuntimeMode::Host);
    assert!(!auto);
    let (mode, auto) = resolve_runtime_with_autodetect(RuntimeChoice::Container, false);
    assert_eq!(mode, RuntimeMode::Container);
    assert!(!auto);
}

#[test]
fn runtime_auto_uses_detection() {
    let (mode, auto) = resolve_runtime_with_autodetect(RuntimeChoice::Auto, true);
    assert_eq!(mode, RuntimeMode::Container);
    assert!(auto);
    let (mode, auto) = resolve_runtime_with_autodetect(RuntimeChoice::Auto, false);
    assert_eq!(mode, RuntimeMode::Host);
    assert!(!auto);
}

#[test]
fn runtime_choice_values() {
    assert_eq!(runtime_choice_from_value("HOST"), Some(RuntimeChoice::Host));
    assert_eq!(runtime_choice_from_value("Container"), Some(RuntimeChoice::Container));
    assert_eq!(runtime_choice_from_value("auto"), Some(RuntimeChoice::Auto));
    assert_eq!(runtime_choice_from_value("docker"), None);
    assert_eq!(effective_runtime_choice(None, Some(RuntimeChoice::Host)), RuntimeChoice::Host);
    assert_eq!(effective_runtime_choice(Some(RuntimeChoice::Container), Some(RuntimeChoice::Host)), RuntimeChoice::Container);
    assert_eq!(effective_runtime_choice(None, None), RuntimeChoice::Auto);
}

#[test]
fn command_kind_maps_none_status_and_other() {
    assert_eq!(command_kind(None), CommandKind::NoCommand);
    assert_eq!(command_kind(Some(CommandName::Status)), CommandKind::Status);
    let _start = StartArgs::default();
    assert_eq!(command_kind(Some(CommandName::Start)), CommandKind::Other);
}

#[test]
fn should_run_runtime_asset_preflight_gating() {
    assert!(should_run_runtime_asset_preflight(CommandKind::Other, None, false));
    assert!(!should_run_runtime_asset_preflight(CommandKind::Status, None, false));
    assert!(!should_run_runtime_asset_preflight(CommandKind::NoCommand, None, false));
    assert!(!should_run_runtime_asset_preflight(CommandKind::Other, Some("prod-host"), false));
    assert!(!should_run_runtime_asset_preflight(CommandKind::Other, None, true));
}

#[test]
fn container_runtime_dispatch() {
    assert_eq!(container_dispatch(None), ContainerDispatch::Status);
    assert_eq!(container_dispatch(Some(CommandName::Logs)), ContainerDispatch::Logs);
    assert_eq!(container_dispatch(Some(CommandName::Start)), ContainerDispatch::Unsupported);
    assert!(check_container_mode_flags(Some("h"), false).is_err());
    assert!(check_container_mode_flags(None, false).is_ok());
}

#[test]
fn target_host_resolution() {
    assert_eq!(resolve_target_host(Some("a"), true, Some("d".to_string())), None);
    assert_eq!(resolve_target_host(Some("a"), false, Some("d".to_string())).as_deref(), Some("a"));
    assert_eq!(resolve_target_host(None, false, Some("d".to_string())).as_deref(), Some("d"));
    assert_eq!(format_host_message(None, "Starting"), "Starting");
    assert_eq!(format_host_message(Some("prod-1"), "Starting"), "[prod-1] Starting");
    assert!(get_banner().contains("cloud"));
    assert_eq!(resolve_target_host_name(None, Some("x".to_string())).as_deref(), Some("x"));
    assert!(is_remote_host(Some("prod"), None));
    assert!(!is_remote_host(Some("local"), None));
    assert!(!is_remote_host(None, Some(String::new())));
    assert!(is_remote_host(None, Some("prod".to_string())));
}

#[test]
fn validate_manual_name_rules() {
    assert!(is_valid_instance_id("abc"));
    assert!(is_valid_instance_id("abc-123"));
    assert!(!is_valid_instance_id(""));
    assert!(!is_valid_instance_id("-abc"));
    assert!(!is_valid_instance_id("abc_def"));
    assert!(!is_valid_instance_id("Abc"));
    assert!(!is_valid_instance_id(&"a".repeat(33)));
}

#[test]
fn auto_derivation_is_stable_for_same_path() {
    let p = "/tmp/worktree-a";
    let a = format!("wt-{:012x}", compute_stable_fnv1a_64_hash(p.as_bytes()));
    let b = format!("wt-{:012x}", compute_stable_fnv1a_64_hash(p.as_bytes()));
    assert_eq!(a, b);
    assert_eq!(auto_instance_id(p.as_bytes()), a);
}

#[test]
fn auto_derivation_differs_for_different_paths() {
    let a = format!("wt-{:012x}", compute_stable_fnv1a_64_hash("/tmp/worktree-a".as_bytes()));
    let b = format!("wt-{:012x}", compute_stable_fnv1a_64_hash("/tmp/worktree-b".as_bytes()));
    assert_ne!(a, b);
}

#[test]
fn fnv_reference_values() {
    assert_eq!(compute_stable_fnv1a_64_hash(b""), 0xcbf29ce484222325);
    assert_eq!(compute_stable_fnv1a_64_hash(b"a"), 0xaf63dc4c8601ec8c);
    assert_eq!(compute_stable_fnv1a_64_hash(b"foobar"), 0x85944171f73967e8);
}

#[test]
fn invalid_manual_name_is_rejected() {
    let err = resolve_sandbox_request(Some("bad_name")).expect_err("expected validation error");
    assert!(err.to_string().contains("Expected [a-z0-9][a-z0-9-]{0,31}"));
}

#[test]
fn sandbox_requests() {
    assert!(matches!(resolve_sandbox_request(None), Ok(SandboxRequest::Shared)));
    assert!(matches!(resolve_sandbox_request(Some(" AUTO ")), Ok(SandboxRequest::Auto)));
    assert!(matches!(resolve_sandbox_request(Some(" Feature-1 ")), Ok(SandboxRequest::Named(ref n)) if n == "feature-1"));
    assert_eq!(
        resolve_sandbox_request(Some("   ")).unwrap_err(),
        "--sandbox-instance cannot be empty; use a-z, 0-9, and '-' only"
    );
    assert!(normalize_manual_instance_id("ok-1").is_ok());
    let p = SandboxProfile::isolated("wt-1".to_string());
    assert_eq!(p.suffix.as_deref(), Some("-wt-1"));
    assert!(SandboxProfile::shared().instance_id.is_none());
}

#[test]
fn stop_messages() {
    assert_eq!(stop_base_message(true), "Service stopped and removed");
    assert_eq!(stop_spinner_messages(false).success_base_message, "Service stopped");
    assert_eq!(not_running_notice(false, false), Some("Service container is already removed"));
    assert_eq!(not_running_notice(true, true), Some("Service is already stopped"));
    assert_eq!(not_running_notice(true, false), None);
    assert_eq!(
        stop_progress_message("Stopping service", 30, true),
        "Stopping service (30s graceful timeout, then force kill)... Press Enter to force kill now."
    );
    assert_eq!(stop_progress_message("Stopping", 5, false), "Stopping (5s graceful timeout, then force kill)...");
    assert_eq!(forcing_message("Stopping"), "Stopping (forcing stop now)...");
    assert_eq!(stop_success_message("Service stopped", 30, 3), ("Service stopped (3s)".to_string(), false));
    assert_eq!(
        stop_success_message("Service stopped", 30, 30),
        ("Service stopped (force killed after 30s timeout)".to_string(), true)
    );
    assert_eq!(stop_success_message("S", -1, 1000), ("S (1000s)".to_string(), false));
    assert_eq!(stop_success_message_forced("S"), "S (force killed on request)");
}

#[test]
fn validate_safe_path_rejects_root() {
    assert!(validate_safe_path("/", None).is_err());
}

#[test]
fn validate_safe_path_rejects_home() {
    assert!(validate_safe_path("/home/me", Some("/home/me")).is_err());
    assert!(validate_safe_path("/home//me/", Some("/home/me")).is_err());
    assert!(validate_safe_path("/home/me/data", Some("/home/me")).is_ok());
    assert!(validate_safe_path("relative/path", None).is_err());
    assert!(is_root_path("/.."));
    assert!(!is_root_path("/tmp"));
}

#[test]
fn cleanup_report() {
    let mut r = MountCleanupResult::new();
    assert!(!r.has_errors());
    r.record("/a", CleanupOutcome::Skipped("path does not exist".to_string()));
    r.record("/b", CleanupOutcome::Failed("boom".to_string()));
    r.record("/c", CleanupOutcome::Cleaned("/real/c".to_string()));
    assert!(r.has_errors());
    assert_eq!(r.skipped, vec!["/a: path does not exist".to_string()]);
    assert_eq!(r.errors, vec!["/b: boom".to_string()]);
    assert_eq!(r.cleaned, vec!["/real/c".to_string()]);
}

#[test]
fn install_methods() {
    assert_eq!(install_method_from_path("/usr/lib/node_modules/opencode-cloud/bin/occ"), Some(CliInstallMethod::Npm));
    assert_eq!(install_method_from_path("/home/me/.cargo/bin/occ"), Some(CliInstallMethod::Cargo));
    assert_eq!(install_method_from_path("/usr/local/bin/occ"), None);
    assert!(is_dev_binary_path("/src/target/debug/occ"));
    assert_eq!(cli_platform_label_from(false, Some(CliInstallMethod::Npm)), "Node.js CLI");
    assert_eq!(cli_platform_label_from(true, None), "Rust CLI");
    assert_eq!(CliInstallMethod::Npm.update_args(Some("1.2.3")), vec!["install", "-g", "opencode-cloud@1.2.3"]);
    assert_eq!(CliInstallMethod::Cargo.update_args(Some("1.2.3")), vec!["install", "opencode-cloud", "--version", "1.2.3"]);
    assert_eq!(CliInstallMethod::Cargo.label(), "cargo install");
}

#[test]
fn state_style_running_is_green() {
    let styled = state_style("running");
    assert_eq!(styled.to_string(), "running");
}

#[test]
fn state_style_stopped_is_red() {
    let styled = state_style("stopped");
    assert_eq!(styled.to_string(), "stopped");
}

#[test]
fn state_style_exited_is_red() {
    let styled = state_style("exited");
    assert_eq!(styled.to_string(), "exited");
}

#[test]
fn state_style_starting_is_yellow() {
    let styled = state_style("starting");
    assert_eq!(styled.to_string(), "starting");
}

#[test]
fn state_style_unknown_is_dim() {
    let styled = state_style("unknown");
    assert_eq!(styled.to_string(), "unknown");
}

#[test]
fn state_style_case_insensitive() {
    let styled = state_style("RUNNING");
    assert_eq!(styled.to_string(), "RUNNING");
}

#[test]
fn log_level_error_is_red() {
    let styled = log_level_style("2024-01-01 ERROR: something failed");
    assert!(styled.to_string().contains("ERROR"));
}

#[test]
fn log_level_warn_is_yellow() {
    let styled = log_level_style("2024-01-01 WARN: something concerning");
    assert!(styled.to_string().contains("WARN"));
}

#[test]
fn log_level_info_is_cyan() {
    let styled = log_level_style("2024-01-01 INFO: started");
    assert!(styled.to_string().contains("INFO"));
}

#[test]
fn log_level_debug_is_dim() {
    let styled = log_level_style("2024-01-01 DEBUG: internal state");
    assert!(styled.to_string().contains("DEBUG"));
}

#[test]
fn log_level_none_unstyled() {
    let styled = log_level_style("plain log line");
    assert_eq!(styled.to_string(), "plain log line");
}

fn no_ansi(s: &str) -> String {
    let mut out = String::new();
    let mut chars = s.chars();
    while let Some(c) = chars.next() {
        if c == '\x1b' {
            for d in chars.by_ref() {
                if d == 'm' {
                    break;
                }
            }
        } else {
            out.push(c);
        }
    }
    out
}

#[test]
fn container_update_texts() {
    let notes: Vec<String> = dev_image_notes().iter().map(|l| no_ansi(l)).collect();
    assert_eq!(notes[0], "Note: Dev container detected; updates are disabled for dev images.");
    assert_eq!(no_ansi(&image_up_to_date_line("1.2.3")), "✓ Container image is already up to date (version 1.2.3).");
    assert_eq!(no_ansi(&warning_line("disk full")), "Warning: disk full");
    assert_eq!(no_ansi(&step_line("[1/4]", "Stopping service...")), "[1/4] Stopping service...");
    let plan: Vec<String> = update_plan_lines(None, false, Some("1.3.0")).iter().map(|l| no_ansi(l)).collect();
    assert_eq!(
        plan,
        vec![
            "",
            "Warning: This will briefly stop the service to apply the update.",
            "Current:    unknown",
            "Target:     latest (registry, version 1.3.0)",
            "",
        ]
    );
    let purge: Vec<String> = purge_notice_lines().iter().map(|l| no_ansi(l)).collect();
    assert_eq!(purge, vec!["Notice: Unused images and containers will be purged to save space.", ""]);
}

#[test]
fn update_summary_shows_candidates_and_notes() {
    let mut cli = build_cli_candidate("1.0.0", "CLI", false, true, &Some(CliTargetVersion { target: "1.1.0".to_string(), compatible: None }));
    cli.note = Some("a note".to_string());
    let lines: Vec<String> = update_summary_lines(&vec![cli.clone()], false).iter().map(|l| no_ansi(l)).collect();
    assert_eq!(lines[0], "");
    assert_eq!(lines[1], "Update status");
    assert_eq!(lines[2], "-------------");
    assert_eq!(lines[3], no_ansi(&cli.summary_line()));
    assert_eq!(lines[4], "  a note");
    assert_eq!(lines.len(), 6);
    assert_eq!(lines.last().unwrap(), "");
    assert!(update_summary_lines(&vec![cli], true).is_empty());
}

#[test]
fn update_flow_messages() {
    let notice: Vec<String> = image_source_notice_lines(true).iter().map(|l| no_ansi(l)).collect();
    assert_eq!(notice[1], "Info: Rebuilding image from source (per config.image_source=build)");
    let notice: Vec<String> = image_source_notice_lines(false).iter().map(|l| no_ansi(l)).collect();
    assert_eq!(notice[2], "To build from source: occ config set image_source build");
    assert_eq!(prebuilt_state_version(Some("2.0.0"), "1.0.0"), "2.0.0");
    assert_eq!(prebuilt_state_version(None, "1.0.0"), "1.0.0");
    let done: Vec<String> = done_lines(false, "127.0.0.1", 3000).iter().map(|l| no_ansi(l)).collect();
    assert_eq!(done, vec!["", "Success: Update completed successfully!", "", "URL:      http://127.0.0.1:3000", ""]);
    let done: Vec<String> = done_lines(true, "0.0.0.0", 80).iter().map(|l| no_ansi(l)).collect();
    assert_eq!(done[1], "Success: Rollback completed successfully!");
    let warn: Vec<String> = rollback_warning_lines().iter().map(|l| no_ansi(l)).collect();
    assert_eq!(warn[1], "Warning: This will briefly stop the service to rollback to the previous version.");
    assert_eq!(no_ansi(&container_not_found_note()), "Note: Container not found, skipping stop.");
    assert_eq!(no_ansi(&purge_reclaimed_line(2048)), "Docker purge reclaimed: 2.00 KB");
    assert_eq!(no_ansi(&purge_reclaimed_line(-1)), "Docker purge reclaimed: unknown");
}

#[test]
fn cli_update_messages() {
    assert_eq!(no_ansi(&cli_up_to_date_line("Rust CLI", "1.0.0")), "✓ opencode-cloud Rust CLI is already up to date (version 1.0.0).");
    let target = Some(CliTargetVersion { target: "1.1.0".to_string(), compatible: Some("1.0.5".to_string()) });
    let lines: Vec<String> = cli_update_plan_lines("Rust CLI", "cargo install", "1.0.0", &target).iter().map(|l| no_ansi(l)).collect();
    assert_eq!(
        lines,
        vec![
            "",
            "Warning: This will update the opencode-cloud Rust CLI and restart the service.",
            "Install:    cargo install",
            "Current:    1.0.0",
            "Target:     v1.1.0",
            "",
            "Warning: Latest CLI requires a newer Rust toolchain.",
            "  Run: rustup update",
            "  Then re-run: occ update cli",
            "",
        ]
    );
    let lines: Vec<String> = cli_update_plan_lines("CLI", "npm install -g", "1.0.0", &None).iter().map(|l| no_ansi(l)).collect();
    assert_eq!(lines[4], "Target:     latest");
    assert_eq!(lines.len(), 6);
    assert_eq!(cli_update_prompt("Rust CLI"), "Continue with opencode-cloud Rust CLI update?");
    let (a, b) = cli_update_spinner_texts("Rust CLI");
    assert_eq!(a, "Updating opencode-cloud Rust CLI...");
    assert_eq!(b, "opencode-cloud Rust CLI updated");
    let done: Vec<String> = cli_updated_lines("Rust CLI").iter().map(|l| no_ansi(l)).collect();
    assert_eq!(done, vec!["", "Success: opencode-cloud Rust CLI updated successfully!", ""]);
}
