use opencode_cloud::mounts::{
    collect_config_mounts, format_bind_source_for_display, host_paths_match, mounts_equal,
    normalize_mount_targets, remove_mounts_from_config, resolve_mount_mismatch_action,
    upsert_mount_by_target, ConfigMount, ContainerBindMount, MountMismatchAction,
    MountUpsertOutcome, ParsedMount,
};
use opencode_cloud::maintenance::{
    connecting_notice, mount_mismatch_lines, mount_add_report_lines, system_path_check, system_path_refusal_lines, SystemPathCheck,
    MOUNT_RESTART_NOTE, SYSTEM_PATH_REFUSED,
};

fn make_container_mount(source: &str, target: &str, read_only: bool) -> ContainerBindMount {
    ContainerBindMount { source: source.to_string(), target: target.to_string(), read_only }
}

fn make_parsed_mount(host: &str, container: &str, read_only: bool) -> ParsedMount {
    ParsedMount { host_path: host.to_string(), container_path: container.to_string(), read_only }
}

fn entry(spec: &str) -> ConfigMount {
    let parts: Vec<&str> = spec.split(':').collect();
    let parsed = if parts.len() >= 2 {
        Some(make_parsed_mount(parts[0], parts[1], parts.get(2) == Some(&"ro")))
    } else {
        None
    };
    ConfigMount { spec: spec.to_string(), parsed }
}

#[test]
fn host_paths_match_direct_match() {
    assert!(host_paths_match("/tmp", "/tmp"));
    assert!(host_paths_match("/home/user/data", "/home/user/data"));
}

#[test]
fn host_paths_match_no_match() {
    assert!(!host_paths_match("/tmp", "/var"));
    assert!(!host_paths_match("/foo", "/bar"));
}

#[test]
fn host_paths_match_host_mnt_prefix() {
    assert!(host_paths_match("/host_mnt/tmp", "/tmp"));
    assert!(host_paths_match("/host_mnt/home/user", "/home/user"));
}

#[test]
fn host_paths_match_host_mnt_private_prefix() {
    assert!(host_paths_match("/host_mnt/private/tmp", "/tmp"));
    assert!(host_paths_match("/host_mnt/private/var", "/var"));
}

#[test]
fn host_paths_match_private_prefix_in_config() {
    assert!(host_paths_match("/host_mnt/private/tmp", "/private/tmp"));
}

#[test]
fn host_paths_match_no_false_positives() {
    assert!(!host_paths_match("/host_mnt/tmpdir", "/tmp"));
    assert!(!host_paths_match("/tmp2", "/tmp"));
}

#[test]
fn mounts_equal_empty_lists() {
    let current: Vec<ContainerBindMount> = vec![];
    let configured: Vec<ParsedMount> = vec![];
    assert!(mounts_equal(&current, &configured));
}

#[test]
fn mounts_equal_single_match() {
    let current = vec![make_container_mount("/tmp", "/mnt/tmp", false)];
    let configured = vec![make_parsed_mount("/tmp", "/mnt/tmp", false)];
    assert!(mounts_equal(&current, &configured));
}

#[test]
fn mounts_equal_multiple_match() {
    let current = vec![
        make_container_mount("/host_mnt/private/tmp", "/mnt/tmp", false),
        make_container_mount("/home/user", "/mnt/home", true),
    ];
    let configured = vec![
        make_parsed_mount("/tmp", "/mnt/tmp", false),
        make_parsed_mount("/home/user", "/mnt/home", true),
    ];
    assert!(mounts_equal(&current, &configured));
}

#[test]
fn mounts_equal_different_order() {
    let current = vec![
        make_container_mount("/home/user", "/mnt/home", true),
        make_container_mount("/tmp", "/mnt/tmp", false),
    ];
    let configured = vec![
        make_parsed_mount("/tmp", "/mnt/tmp", false),
        make_parsed_mount("/home/user", "/mnt/home", true),
    ];
    assert!(mounts_equal(&current, &configured));
}

#[test]
fn mounts_equal_length_mismatch() {
    let current = vec![make_container_mount("/tmp", "/mnt/tmp", false)];
    let configured = vec![
        make_parsed_mount("/tmp", "/mnt/tmp", false),
        make_parsed_mount("/var", "/mnt/var", false),
    ];
    assert!(!mounts_equal(&current, &configured));
}

#[test]
fn mounts_equal_content_mismatch() {
    let current = vec![make_container_mount("/tmp", "/mnt/tmp", false)];
    let configured = vec![make_parsed_mount("/var", "/mnt/var", false)];
    assert!(!mounts_equal(&current, &configured));
}

#[test]
fn mounts_equal_mode_matters() {
    let current = vec![make_container_mount("/tmp", "/mnt/tmp", true)];
    let configured = vec![make_parsed_mount("/tmp", "/mnt/tmp", false)];
    assert!(!mounts_equal(&current, &configured));
}

#[test]
fn normalize_mount_targets_keeps_last_entry_per_target() {
    let mounts = vec![
        make_parsed_mount("/a", "/workspace", false),
        make_parsed_mount("/b", "/data", false),
        make_parsed_mount("/c", "/workspace", true),
    ];
    let (normalized, resolutions) = normalize_mount_targets(mounts);
    assert_eq!(normalized.len(), 2);
    assert_eq!(normalized[0], make_parsed_mount("/b", "/data", false));
    assert_eq!(normalized[1], make_parsed_mount("/c", "/workspace", true));
    assert_eq!(resolutions.len(), 1);
    assert_eq!(resolutions[0].container_path, "/workspace");
    assert_eq!(resolutions[0].kept_mount, make_parsed_mount("/c", "/workspace", true));
    assert_eq!(resolutions[0].removed_mounts.len(), 1);
    assert_eq!(resolutions[0].removed_mounts[0], make_parsed_mount("/a", "/workspace", false));
}

#[test]
fn upsert_mount_by_target_exact_same_is_noop() {
    let existing = vec![
        entry("/host/a:/home/opencoder/workspace"),
        entry("/host/b:/home/opencoder/.cache/opencode"),
    ];
    let parsed = make_parsed_mount("/host/a", "/home/opencoder/workspace", false);
    let (updated, outcome) =
        upsert_mount_by_target(&existing, "/host/a:/home/opencoder/workspace", &parsed);
    assert_eq!(
        updated,
        vec![
            "/host/a:/home/opencoder/workspace".to_string(),
            "/host/b:/home/opencoder/.cache/opencode".to_string(),
        ]
    );
    assert_eq!(outcome, MountUpsertOutcome::AlreadyConfigured);
}

#[test]
fn upsert_mount_by_target_replaces_same_target_with_new_host() {
    let existing = vec![
        entry("/host/old:/home/opencoder/workspace"),
        entry("/host/cache:/home/opencoder/.cache/opencode"),
    ];
    let parsed = make_parsed_mount("/host/new", "/home/opencoder/workspace", false);
    let (updated, outcome) =
        upsert_mount_by_target(&existing, "/host/new:/home/opencoder/workspace", &parsed);
    assert_eq!(
        updated,
        vec![
            "/host/cache:/home/opencoder/.cache/opencode".to_string(),
            "/host/new:/home/opencoder/workspace".to_string(),
        ]
    );
    assert_eq!(
        outcome,
        MountUpsertOutcome::Replaced {
            replaced_mounts: vec![make_parsed_mount("/host/old", "/home/opencoder/workspace", false)],
        }
    );
}

#[test]
fn upsert_mount_by_target_replaces_multiple_stale_targets() {
    let existing = vec![
        entry("/host/old1:/home/opencoder/workspace"),
        entry("/host/cache:/home/opencoder/.cache/opencode"),
        entry("/host/old2:/home/opencoder/workspace:ro"),
    ];
    let parsed = make_parsed_mount("/host/new", "/home/opencoder/workspace", false);
    let (updated, outcome) =
        upsert_mount_by_target(&existing, "/host/new:/home/opencoder/workspace", &parsed);
    assert_eq!(
        updated,
        vec![
            "/host/cache:/home/opencoder/.cache/opencode".to_string(),
            "/host/new:/home/opencoder/workspace".to_string(),
        ]
    );
    assert_eq!(
        outcome,
        MountUpsertOutcome::Replaced {
            replaced_mounts: vec![
                make_parsed_mount("/host/old1", "/home/opencoder/workspace", false),
                make_parsed_mount("/host/old2", "/home/opencoder/workspace", true),
            ],
        }
    );
}

#[test]
fn upsert_adds_new_target() {
    let existing = vec![entry("/host/a:/a")];
    let parsed = make_parsed_mount("/host/b", "/b", false);
    let (updated, outcome) = upsert_mount_by_target(&existing, "/host/b:/b", &parsed);
    assert_eq!(updated, vec!["/host/a:/a".to_string(), "/host/b:/b".to_string()]);
    assert_eq!(outcome, MountUpsertOutcome::Added);
}

#[test]
fn collect_config_mounts_skips_invalid() {
    let entries = vec![entry("/tmp/x:/data"), entry("invalid")];
    let collection = collect_config_mounts(&entries);
    assert_eq!(collection.mounts.len(), 1);
    assert_eq!(collection.skipped.len(), 1);
    assert_eq!(collection.skipped[0], "invalid");
}

#[test]
fn remove_mounts_by_host() {
    let entries = vec![entry("/a:/x"), entry("bad"), entry("/b:/y"), entry("/a:/z")];
    let (kept, removed) = remove_mounts_from_config(&entries, &vec!["/a".to_string()]);
    assert_eq!(removed, 2);
    assert_eq!(kept, vec!["bad".to_string(), "/b:/y".to_string()]);
    let (kept, removed) = remove_mounts_from_config(&entries, &vec![]);
    assert_eq!(removed, 0);
    assert_eq!(kept.len(), 4);
}

#[test]
fn resolve_mount_mismatch_action_mismatch_quiet_returns_error() {
    let current = vec![make_container_mount("/old", "/home/opencode/workspace", false)];
    let configured = vec![make_parsed_mount("/new", "/home/opencode/workspace", false)];
    let action = resolve_mount_mismatch_action(&current, &configured, true);
    assert!(matches!(action, MountMismatchAction::QuietError(_)));
}

#[test]
fn resolve_mount_mismatch_action_mismatch_non_quiet_prompts_recreate() {
    let current = vec![make_container_mount("/old", "/home/opencode/workspace", false)];
    let configured = vec![make_parsed_mount("/new", "/home/opencode/workspace", false)];
    let action = resolve_mount_mismatch_action(&current, &configured, false);
    assert_eq!(action, MountMismatchAction::PromptRecreate);
}

#[test]
fn resolve_mount_mismatch_action_no_mismatch() {
    let current = vec![make_container_mount("/same", "/home/opencode/workspace", false)];
    let configured = vec![make_parsed_mount("/same", "/home/opencode/workspace", false)];
    let action = resolve_mount_mismatch_action(&current, &configured, false);
    assert_eq!(action, MountMismatchAction::NoMismatch);
}

#[test]
fn bind_source_display() {
    assert_eq!(format_bind_source_for_display("/host_mnt/Users/me", true), "/Users/me");
    assert_eq!(format_bind_source_for_display("/host_mnt/Users/me", false), "/host_mnt/Users/me");
    assert_eq!(format_bind_source_for_display("/Users/me", true), "/Users/me");
}

fn unstyled(s: &str) -> String {
    let mut out = String::new();
    let mut chars = s.chars();
    while let Some(c) = chars.next() {
        if c == '\x1b' {
            for d in chars.by_ref() {
                if d == 'm' {
                    break;
                }
            }
        } else {
            out.push(c);
        }
    }
    out
}

#[test]
fn mount_add_reports() {
    let m = make_parsed_mount("/h", "/home/opencoder/workspace", false);
    let lines: Vec<String> = mount_add_report_lines(&m, &MountUpsertOutcome::AlreadyConfigured)
        .iter()
        .map(|l| unstyled(l))
        .collect();
    assert_eq!(lines, vec!["Mount already configured: /h -> /home/opencoder/workspace"]);
    let lines: Vec<String> = mount_add_report_lines(&m, &MountUpsertOutcome::Added).iter().map(|l| unstyled(l)).collect();
    assert_eq!(lines[0], "Added mount: /h -> /home/opencoder/workspace (rw)");
    assert_eq!(lines[1], "");
    assert_eq!(lines[2], MOUNT_RESTART_NOTE);
    let old = make_parsed_mount("/old", "/home/opencoder/workspace", true);
    let lines: Vec<String> = mount_add_report_lines(
        &m,
        &MountUpsertOutcome::Replaced { replaced_mounts: vec![old] },
    )
    .iter()
    .map(|l| unstyled(l))
    .collect();
    assert_eq!(
        lines,
        vec![
            "Replaced mount target /home/opencoder/workspace with /h -> /home/opencoder/workspace (rw)",
            "",
            "Previous mount(s) for this target:",
            "  - /old -> /home/opencoder/workspace (ro)",
            "",
            "If this replacement was not intended:",
            "  1) Remove the new mount: occ mount remove /h",
            "  2) Re-add a previous mount: occ mount add /old:/home/opencoder/workspace:ro",
            "",
            MOUNT_RESTART_NOTE,
        ]
    );
}

#[test]
fn system_path_handling() {
    assert_eq!(system_path_check(false, false, false), SystemPathCheck::Silent);
    assert_eq!(system_path_check(true, false, true), SystemPathCheck::Refuse);
    assert_eq!(system_path_check(true, true, true), SystemPathCheck::Silent);
    assert_eq!(system_path_check(true, true, false), SystemPathCheck::Warn);
    let lines: Vec<String> = system_path_refusal_lines("careful").iter().map(|l| unstyled(l)).collect();
    assert_eq!(lines, vec!["careful", "", "Use --force to add anyway."]);
    assert_eq!(SYSTEM_PATH_REFUSED, "Mount target is a system path. Use --force to override.");
}

#[test]
fn mount_mismatch_report() {
    let current = vec![make_container_mount("/a", "/x", true)];
    let lines: Vec<String> = mount_mismatch_lines(&current, &vec![]).iter().map(|l| unstyled(l)).collect();
    assert_eq!(
        lines,
        vec![
            "",
            "Mount configuration changed: Container must be recreated to apply mount changes.",
            "",
            "  Current mounts:",
            "    - /a:/x:ro",
            "  Configured mounts: (none)",
            "",
            "This will stop and recreate the container from the existing image.",
            "Your data volumes will be preserved.",
            "",
        ]
    );
    assert_eq!(unstyled(&connecting_notice(None)), "[info] Connecting to Docker on local...");
    assert_eq!(unstyled(&connecting_notice(Some("prod"))), "[info] Connecting to Docker on prod...");
}

#[test]
fn adding_same_mount_twice_is_already_configured() {
    let existing = vec![
        entry("/host/old1:/home/opencoder/workspace"),
        entry("/host/cache:/home/opencoder/.cache/opencode"),
        entry("/host/old2:/home/opencoder/workspace:ro"),
    ];
    let spec = "/host/new:/home/opencoder/workspace";
    let parsed = make_parsed_mount("/host/new", "/home/opencoder/workspace", false);
    let (first, _) = upsert_mount_by_target(&existing, spec, &parsed);
    let reparsed: Vec<ConfigMount> = first.iter().map(|s| entry(s)).collect();
    let (second, outcome) = upsert_mount_by_target(&reparsed, spec, &parsed);
    assert_eq!(second, first);
    assert_eq!(outcome, MountUpsertOutcome::AlreadyConfigured);
}

#[test]
fn private_prefix_matches_only_its_translation() {
    assert!(host_paths_match("/tmp", "/private/tmp"));
    assert!(host_paths_match("/private/tmp", "/private/tmp"));
    assert!(!host_paths_match("/home/user/tmp", "/private/tmp"));
    assert!(!host_paths_match("/other/tmp", "/private/tmp"));
}
