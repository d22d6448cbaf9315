use opencode_cloud::iotp::{IotpSnapshot, IotpState};
use opencode_cloud::mounts::{ConfigMount, ParsedMount};
use opencode_cloud::runtime::RuntimeAssetDrift;
use opencode_cloud::status_view::{
    cockpit_lines, config_path_line, drift_warning_lines, mount_purpose, mounts_section_lines,
    port_line, remote_health_line, section_header_lines, security_section_lines,
    stopped_section_lines, uptime_line, uptime_status_line, url_lines, version_commit_lines,
    ContainerMount, MountKind, SecuritySettings, disk_section_lines, host_port_from,
    installed_line, no_service_lines, sandbox_lines, state_line, SandboxInfo,
};

fn plain(s: &str) -> String {
    let mut out = String::new();
    let mut chars = s.chars();
    while let Some(c) = chars.next() {
        if c == '\x1b' {
            for d in chars.by_ref() {
                if d == 'm' {
                    break;
                }
            }
        } else {
            out.push(c);
        }
    }
    out
}

fn plain_all(v: Vec<String>) -> Vec<String> {
    v.iter().map(|s| plain(s)).collect()
}

#[test]
fn header_and_service_lines() {
    assert_eq!(plain_all(section_header_lines("Service")), vec!["", "Service", "------"]);
    assert_eq!(plain_all(url_lines(None, "http://127.0.0.1:3000")), vec!["Local URL:      http://127.0.0.1:3000"]);
    assert_eq!(
        plain_all(url_lines(Some("http://10.0.0.2:3000"), "http://127.0.0.1:3000")),
        vec![
            "Remote URL:     http://10.0.0.2:3000",
            "Local URL:      http://127.0.0.1:3000 (on remote host)",
        ]
    );
    assert_eq!(uptime_line(90, "2024-01-15 10:30:00 UTC"), "Uptime:         1m 30s (since 2024-01-15 10:30:00 UTC)");
    assert_eq!(plain(&port_line(3000)), "Port:           3000 -> container:3000");
    assert_eq!(uptime_status_line(None), None);
    assert_eq!(uptime_status_line(Some("garbage")), None);
    let line = uptime_status_line(Some("2024-01-15T10:30:00Z")).unwrap();
    assert!(line.starts_with("Uptime:"));
    assert!(line.ends_with("(since 2024-01-15 10:30:00 UTC)"));
}

#[test]
fn version_and_commit_lines() {
    assert_eq!(
        plain_all(version_commit_lines("1.2.3", "abc1234")),
        vec![
            "Version:        1.2.3",
            "Commit:         abc1234",
            "Commit link:    https://github.com/pRizz/opencode/commit/abc1234",
        ]
    );
    assert_eq!(
        plain_all(version_commit_lines("1.2.3", "unknown")),
        vec!["Version:        1.2.3", "Commit:         unknown"]
    );
}

#[test]
fn cockpit_lines_only_when_enabled_and_exposed() {
    assert!(cockpit_lines(false, true, "http://x:9090", None).is_empty());
    assert!(cockpit_lines(true, false, "http://x:9090", None).is_empty());
    assert_eq!(
        plain_all(cockpit_lines(true, true, "http://x:9090", Some("prod"))),
        vec![
            "Cockpit:        http://x:9090 -> container:9090",
            "                Cockpit authenticates against container system users.",
            "                Create a container user with: occ user add <username> --remote-host prod",
        ]
    );
    assert_eq!(
        plain(&cockpit_lines(true, true, "u", None)[2]),
        "                Create a container user with: occ user add <username>"
    );
}

#[test]
fn remote_health_and_config_lines() {
    assert_eq!(remote_health_line(None), None);
    assert_eq!(plain(&remote_health_line(Some("healthy")).unwrap()), "Sandbox Health: healthy");
    assert_eq!(plain(&config_path_line(true, "/c.json")), "Local Config:   /c.json");
    assert_eq!(plain(&config_path_line(false, "/c.json")), "Config:         /c.json");
}

#[test]
fn drift_warning_lines_follow_report() {
    let none = RuntimeAssetDrift { drift_detected: false, mismatched_assets: vec![], diagnostics: vec![] };
    assert!(drift_warning_lines(&none, 1).is_empty());
    let drift = RuntimeAssetDrift {
        drift_detected: true,
        mismatched_assets: vec!["bootstrap helper".to_string()],
        diagnostics: vec!["probe failed".to_string()],
    };
    let lines = plain_all(drift_warning_lines(&drift, 1));
    assert_eq!(lines[0], "Dev sync:       stale container assets detected");
    assert!(lines.iter().skip(1).all(|l| l.starts_with("                ")));
    assert!(lines.last().unwrap().ends_with("diagnostic: probe failed"));
}

#[test]
fn stopped_section_shows_last_run_when_known() {
    assert_eq!(
        plain_all(stopped_section_lines(Some("2024-01-15T10:30:00Z"))),
        vec![
            "",
            "Last run:       2024-01-15 10:30:00 UTC",
            "",
            "Run 'occ start' to start the service.",
        ]
    );
    assert_eq!(plain_all(stopped_section_lines(None)), vec!["", "Run 'occ start' to start the service."]);
    assert_eq!(plain_all(stopped_section_lines(Some("bad"))), vec!["", "Run 'occ start' to start the service."]);
}

#[test]
fn mount_purposes_of_known_paths() {
    assert_eq!(mount_purpose("/home/opencoder/workspace"), Some("workspace files"));
    assert_eq!(mount_purpose("/home/opencoder/.local/state/opencode"), Some("opencode state"));
    assert_eq!(mount_purpose("/data"), None);
}

#[test]
fn mounts_section_lists_volumes_and_binds() {
    let mounts = vec![
        ContainerMount {
            kind: MountKind::Volume,
            source: Some("opencode-data".to_string()),
            target: Some("/home/opencoder/.local/share/opencode".to_string()),
            read_only: None,
        },
        ContainerMount {
            kind: MountKind::Bind,
            source: Some("/host_mnt/private/tmp/w".to_string()),
            target: Some("/home/opencoder/workspace".to_string()),
            read_only: Some(true),
        },
        ContainerMount {
            kind: MountKind::Bind,
            source: Some("/srv/x".to_string()),
            target: Some("/x".to_string()),
            read_only: Some(false),
        },
    ];
    let config = vec![ConfigMount {
        spec: "/tmp/w:/home/opencoder/workspace:ro".to_string(),
        parsed: Some(ParsedMount {
            host_path: "/tmp/w".to_string(),
            container_path: "/home/opencoder/workspace".to_string(),
            read_only: true,
        }),
    }];
    let points = vec![("opencode-data".to_string(), "/var/lib/docker/volumes/opencode-data/_data".to_string())];
    let lines = plain_all(mounts_section_lines(&mounts, &config, &points, true));
    assert_eq!(
        lines,
        vec![
            "",
            "Mounts",
            "------",
            "Hint: Docker Desktop stores volumes inside its VM. Use `docker run --rm -it -v <volume>:/data -w /data alpine sh` to inspect volumes.",
            "  Volumes:",
            "    /var/lib/docker/volumes/opencode-data/_data -> /home/opencoder/.local/share/opencode rw (volume) - opencode data",
            "      docker run --rm -it -v opencode-data:/data -w /data alpine sh",
            "  Bind mounts:",
            "    /private/tmp/w -> /home/opencoder/workspace ro (config) - workspace files",
            "    /srv/x -> /x rw (cli)",
        ]
    );
    assert!(mounts_section_lines(&vec![], &config, &points, false).is_empty());
    let only_bind = vec![mounts[2].clone()];
    let lines = plain_all(mounts_section_lines(&only_bind, &vec![], &vec![], false));
    assert_eq!(lines[3], "Hint: Inspect volumes with: docker run --rm -it -v <volume>:/data -w /data alpine sh");
    assert_eq!(lines[4], "  Volumes: (none)");
}

fn settings(exposed: bool, users: Vec<String>, allow_unauth: bool) -> SecuritySettings {
    SecuritySettings {
        bind_address: if exposed { "0.0.0.0".to_string() } else { "127.0.0.1".to_string() },
        network_exposed: exposed,
        localhost: !exposed,
        users,
        trust_proxy: false,
        rate_limit_attempts: 5,
        rate_limit_window_seconds: 60,
        allow_unauthenticated_network: allow_unauth,
    }
}

#[test]
fn security_section_for_exposed_bind_without_users() {
    let snapshot = IotpSnapshot {
        state: IotpState::InactiveCompleted,
        state_label: "inactive (completed)".to_string(),
        otp: None,
        detail: None,
    };
    let lines = plain_all(security_section_lines(&settings(true, vec![], false), &snapshot, true));
    assert_eq!(&lines[0..3], &["", "Security", "--------"]);
    assert_eq!(lines[3], "Binding:     0.0.0.0 [NETWORK EXPOSED]");
    assert_eq!(lines[4], "Auth users:  None configured");
    assert_eq!(lines[5], "Trust proxy: no");
    assert_eq!(lines[6], "Rate limit:  5 attempts / 60s window");
    assert_eq!(lines[7], "IOTP state:  inactive (completed)");
    assert_eq!(lines[8], "IOTP value:  not available");
    assert_eq!(lines[9], "                Reset IOTP: occ reset iotp");
    assert_eq!(lines[10], "                Use --force for exposed bind configurations.");
    assert!(lines[11].starts_with("                Extract manually: occ logs"));
    assert_eq!(&lines[12..], &["", "Warning: Network exposed without authentication!", "Add users: occ user add"]);
}

#[test]
fn security_section_for_local_bind_with_active_iotp() {
    let snapshot = IotpSnapshot {
        state: IotpState::ActiveUnused,
        state_label: "active (unused)".to_string(),
        otp: Some("abc123".to_string()),
        detail: None,
    };
    let lines = plain_all(security_section_lines(
        &settings(false, vec!["alice".to_string(), "bob".to_string()], true),
        &snapshot,
        true,
    ));
    assert_eq!(lines[3], "Binding:     127.0.0.1 [LOCAL ONLY]");
    assert_eq!(lines[4], "Auth users:  alice, bob");
    assert_eq!(lines[8], "IOTP value:  abc123");
    assert_eq!(
        lines[9],
        "                allow_unauthenticated_network=true may skip IOTP generation by design."
    );
    assert_eq!(lines.len(), 10);
}

#[test]
fn container_summary_lines() {
    assert_eq!(host_port_from(Some("8080")), 8080);
    assert_eq!(host_port_from(Some("x")), 3000);
    assert_eq!(host_port_from(Some("70000")), 3000);
    assert_eq!(host_port_from(None), 3000);
    assert_eq!(plain_all(no_service_lines()), vec!["No service found.", "", "Run 'occ start' to start the service."]);
    assert_eq!(plain(&state_line("running")), "State:          running");
    assert_eq!(plain(&installed_line(true, "system")), "Installed:      yes (starts on boot)");
    assert_eq!(plain(&installed_line(true, "user")), "Installed:      yes (starts on login)");
    assert_eq!(plain(&installed_line(false, "user")), "Installed:      no");
    let info = SandboxInfo {
        container_name: "opencode-cloud-sandbox".to_string(),
        container_id: "0123456789abcdef".to_string(),
        instance_id: None,
        image: "ghcr.io/x:latest".to_string(),
        cli_label: "Rust CLI".to_string(),
        cli_version: "1.0.0".to_string(),
        image_version: Some("1.0.1".to_string()),
        image_source: Some(("prebuilt".to_string(), Some("ghcr.io".to_string()))),
    };
    assert_eq!(
        plain_all(sandbox_lines(&info)),
        vec![
            "Container:      opencode-cloud-sandbox (0123456789ab)",
            "Image:          ghcr.io/x:latest",
            "Rust CLI:       v1.0.0",
            "Image ver:      v1.0.1 (differs from Rust CLI)",
            "Image src:      prebuilt from ghcr.io",
        ]
    );
    let dev = SandboxInfo { image_version: Some("dev".to_string()), image_source: None, instance_id: Some("abc".to_string()), ..info.clone() };
    assert_eq!(
        plain_all(sandbox_lines(&dev)),
        vec![
            "Container:      opencode-cloud-sandbox (0123456789ab)",
            "Instance:       abc",
            "Image:          ghcr.io/x:latest",
            "Rust CLI:       v1.0.0",
        ]
    );
}

#[test]
fn disk_section_variants() {
    let lines = plain_all(disk_section_lines(&Ok(vec!["a".to_string()]), &Ok(None), true));
    assert_eq!(
        lines,
        vec![
            "",
            "Disk",
            "------",
            "a",
            "Note:           Host disk stats unavailable for remote Docker hosts.",
        ]
    );
    let lines = plain_all(disk_section_lines(&Err("boom".to_string()), &Ok(Some(vec!["h".to_string()])), false));
    assert_eq!(lines[3], "Warning: boom");
    assert_eq!(&lines[4..], &["", "h"]);
    assert_eq!(plain_all(disk_section_lines(&Ok(vec![]), &Ok(None), false)).len(), 3);
}
