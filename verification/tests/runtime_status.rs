use opencode_cloud::runtime::{
    broker_health_from_probes, broker_is_ready, build_drift_report, build_status_view,
    extract_short_commit, first_line_version, format_broker_health_label,
    format_opencode_health_label, host_runtime_capabilities, map_broker_health_status, RuntimeBackend,
    map_opencode_health_status, render_runtime_asset_drift_lines,
    render_runtime_asset_preflight_lines, stale_container_warning_lines, AssetProbeOutcome,
    BrokerHealthStatus, ContainerBackend, OpencodeHealthStatus, OpencodeHttpProbe,
    RuntimeAssetDrift, RuntimeCapabilities, REBUILD_CACHED_COMMAND, REBUILD_FULL_COMMAND,
};

#[test]
fn broker_health_mapping_healthy() {
    assert_eq!(map_broker_health_status(true, true), BrokerHealthStatus::Healthy);
}

#[test]
fn broker_health_mapping_degraded_process_only() {
    assert_eq!(map_broker_health_status(true, false), BrokerHealthStatus::Degraded);
}

#[test]
fn broker_health_mapping_degraded_socket_only() {
    assert_eq!(map_broker_health_status(false, true), BrokerHealthStatus::Degraded);
}

#[test]
fn broker_health_mapping_unhealthy() {
    assert_eq!(map_broker_health_status(false, false), BrokerHealthStatus::Unhealthy);
}

#[test]
fn opencode_health_mapping_healthy() {
    assert_eq!(
        map_opencode_health_status(OpencodeHttpProbe::Healthy),
        OpencodeHealthStatus::Healthy
    );
}

#[test]
fn opencode_health_mapping_connection_refused_is_starting() {
    assert_eq!(
        map_opencode_health_status(OpencodeHttpProbe::ConnectionRefused),
        OpencodeHealthStatus::Starting
    );
}

#[test]
fn opencode_health_mapping_timeout_is_starting() {
    assert_eq!(
        map_opencode_health_status(OpencodeHttpProbe::Timeout),
        OpencodeHealthStatus::Starting
    );
}

#[test]
fn opencode_health_mapping_unhealthy_preserves_code() {
    assert_eq!(
        map_opencode_health_status(OpencodeHttpProbe::Unhealthy(503)),
        OpencodeHealthStatus::Unhealthy(503)
    );
}

#[test]
fn opencode_health_mapping_failed() {
    assert_eq!(
        map_opencode_health_status(OpencodeHttpProbe::Failed),
        OpencodeHealthStatus::CheckFailed
    );
}

#[test]
fn broker_ready_only_when_healthy() {
    assert!(broker_is_ready(BrokerHealthStatus::Healthy));
    assert!(!broker_is_ready(BrokerHealthStatus::Degraded));
    assert!(!broker_is_ready(BrokerHealthStatus::Unhealthy));
    assert!(!broker_is_ready(BrokerHealthStatus::CheckFailed));
}

#[test]
fn broker_probe_failure_maps_to_check_failed() {
    let view = build_status_view(
        true,
        Some(OpencodeHttpProbe::Healthy),
        None,
        Some(true),
        Some("v1".to_string()),
        Some("abcdef0".to_string()),
        Some("v2".to_string()),
        RuntimeCapabilities::default(),
    );
    assert_eq!(view.broker_health, BrokerHealthStatus::CheckFailed);
}

#[test]
fn parity_same_signals_same_semantic_statuses() {
    let host_view = build_status_view(
        true,
        Some(OpencodeHttpProbe::Healthy),
        Some(true),
        Some(false),
        Some("v1".to_string()),
        Some("abcdef0".to_string()),
        Some("v2".to_string()),
        host_runtime_capabilities(),
    );
    let container_view = build_status_view(
        true,
        Some(OpencodeHttpProbe::Healthy),
        Some(true),
        Some(false),
        Some("v1".to_string()),
        Some("abcdef0".to_string()),
        Some("v2".to_string()),
        ContainerBackend::new(true).runtime_capabilities(),
    );
    assert_eq!(host_view.opencode_health, container_view.opencode_health);
    assert_eq!(host_view.broker_health, container_view.broker_health);
    assert_eq!(host_view.broker_health, BrokerHealthStatus::Degraded);
}

#[test]
fn status_view_defaults_and_probe_failure() {
    let view = build_status_view(true, None, Some(true), Some(true), None, None, None, RuntimeCapabilities::default());
    assert_eq!(view.opencode_health, Some(OpencodeHealthStatus::CheckFailed));
    assert_eq!(view.broker_health, BrokerHealthStatus::Healthy);
    assert_eq!(view.opencode_version, "unknown");
    assert_eq!(view.opencode_commit, "unknown");
    assert_eq!(view.image_version, "unknown");
    let skipped = build_status_view(false, Some(OpencodeHttpProbe::Timeout), Some(false), Some(false), Some("1.2".to_string()), None, None, RuntimeCapabilities::default());
    assert_eq!(skipped.opencode_health, None);
    assert_eq!(skipped.broker_health, BrokerHealthStatus::Unhealthy);
    assert_eq!(skipped.opencode_version, "1.2");
}

#[test]
fn broker_probe_outcomes() {
    assert_eq!(broker_health_from_probes(Some(true), None), BrokerHealthStatus::CheckFailed);
    assert_eq!(broker_health_from_probes(Some(false), Some(true)), BrokerHealthStatus::Degraded);
}

#[test]
fn container_capabilities_follow_systemd() {
    let caps = ContainerBackend::new(false).runtime_capabilities();
    assert_eq!(caps.systemd_available, Some(false));
    assert_eq!(caps.journalctl_available, Some(false));
    assert_eq!(caps.root_required_for_user_management, Some(true));
    assert_eq!(host_runtime_capabilities(), RuntimeCapabilities::default());
}

#[test]
fn health_labels_without_color() {
    assert_eq!(format_opencode_health_label(OpencodeHealthStatus::Healthy), "Healthy");
    assert_eq!(format_opencode_health_label(OpencodeHealthStatus::Unhealthy(502)), "Unhealthy (HTTP 502)");
    assert_eq!(format_opencode_health_label(OpencodeHealthStatus::Starting), "Service starting...");
    assert_eq!(format_broker_health_label(BrokerHealthStatus::Degraded), "Degraded");
    assert_eq!(format_broker_health_label(BrokerHealthStatus::CheckFailed), "Check failed");
}

#[test]
fn extract_short_commit_from_commit_file() {
    let output = "df9b40be451372e5473b22b33a68fb359267ca7e\n";
    assert_eq!(extract_short_commit(output).as_deref(), Some("df9b40b"));
}

#[test]
fn extract_short_commit_ignores_numeric_versions() {
    let output = "0.0.0--202601311855";
    assert!(extract_short_commit(output).is_none());
}

#[test]
fn extract_short_commit_takes_first_candidate() {
    assert_eq!(extract_short_commit("v1 1234567 abc1234ff deadbeef").as_deref(), Some("abc1234"));
    assert_eq!(extract_short_commit("abcdef").as_deref(), None);
}

#[test]
fn first_line_version_trims_first_line() {
    assert_eq!(first_line_version("  1.2.3  \nsecond").as_deref(), Some("1.2.3"));
    assert_eq!(first_line_version("").as_deref(), None);
    assert_eq!(first_line_version("   \n1.0").as_deref(), None);
}

#[test]
fn mismatch_detection_marks_drift() {
    let report = build_drift_report(&[("bootstrap helper".to_string(), AssetProbeOutcome::Mismatch)]);
    assert!(report.drift_detected);
    assert_eq!(report.mismatched_assets, vec!["bootstrap helper".to_string()]);
    assert!(report.diagnostics.is_empty());
}

#[test]
fn no_drift_when_all_assets_match() {
    let report = build_drift_report(&[
        ("bootstrap helper".to_string(), AssetProbeOutcome::Match),
        ("entrypoint".to_string(), AssetProbeOutcome::Match),
        ("healthcheck".to_string(), AssetProbeOutcome::Match),
    ]);
    assert!(!report.drift_detected);
    assert!(report.mismatched_assets.is_empty());
    assert!(report.diagnostics.is_empty());
}

#[test]
fn partial_drift_reports_only_mismatched_assets() {
    let report = build_drift_report(&[
        ("bootstrap helper".to_string(), AssetProbeOutcome::Mismatch),
        ("entrypoint".to_string(), AssetProbeOutcome::Match),
        ("healthcheck".to_string(), AssetProbeOutcome::Mismatch),
    ]);
    assert!(report.drift_detected);
    assert_eq!(
        report.mismatched_assets,
        vec!["bootstrap helper".to_string(), "healthcheck".to_string()]
    );
}

#[test]
fn probe_failures_become_diagnostics() {
    let report = build_drift_report(&[
        ("entrypoint".to_string(), AssetProbeOutcome::ProbeFailed("exit status 1".to_string())),
        ("healthcheck".to_string(), AssetProbeOutcome::Match),
    ]);
    assert!(!report.drift_detected);
    assert_eq!(report.diagnostics, vec!["entrypoint: exit status 1".to_string()]);
}

#[test]
fn warning_lines_include_rebuild_recommendations() {
    let report = RuntimeAssetDrift::from_outcomes(
        vec!["bootstrap helper".to_string(), "entrypoint".to_string()],
        Vec::new(),
    );
    let lines = stale_container_warning_lines(&report);
    assert!(lines.iter().any(|line| line.contains("bootstrap helper")));
    assert!(lines.iter().any(|line| line.contains(REBUILD_CACHED_COMMAND)));
    assert!(lines.iter().any(|line| line.contains(REBUILD_FULL_COMMAND)));
    assert_eq!(lines[1], "Mismatched assets: bootstrap helper, entrypoint");
}

#[test]
fn render_runtime_asset_drift_lines_empty_when_no_drift() {
    let report = RuntimeAssetDrift::default();
    let lines = render_runtime_asset_drift_lines(&report, 0);
    assert!(lines.is_empty());
}

#[test]
fn render_runtime_asset_drift_lines_includes_rebuild_commands() {
    let report = RuntimeAssetDrift {
        drift_detected: true,
        mismatched_assets: vec!["bootstrap helper".to_string()],
        diagnostics: vec![],
    };
    let lines = render_runtime_asset_drift_lines(&report, 0);
    assert!(lines.iter().any(|line| line.contains("bootstrap helper")));
    assert!(lines.iter().any(|line| line.contains("--cached-rebuild-sandbox-image")));
    assert!(lines.iter().any(|line| line.contains("--full-rebuild-sandbox-image")));
}

#[test]
fn render_runtime_asset_drift_lines_includes_diagnostics_when_verbose() {
    let report = RuntimeAssetDrift {
        drift_detected: true,
        mismatched_assets: vec!["entrypoint".to_string()],
        diagnostics: vec!["healthcheck: exec failed".to_string()],
    };
    let lines = render_runtime_asset_drift_lines(&report, 1);
    assert!(lines.iter().any(|line| line.contains("diagnostic: healthcheck")));
}

#[test]
fn render_runtime_asset_preflight_lines_include_rebuild_suggestions() {
    let report = RuntimeAssetDrift {
        drift_detected: true,
        mismatched_assets: vec!["bootstrap helper".to_string()],
        diagnostics: vec![],
    };
    let lines = render_runtime_asset_preflight_lines(&report, 0);
    assert!(lines.iter().any(|line| line.contains("--cached-rebuild-sandbox-image")));
    assert!(lines.iter().any(|line| line.contains("--full-rebuild-sandbox-image")));
}

#[test]
fn render_runtime_asset_preflight_lines_appends_diagnostics_in_verbose() {
    let report = RuntimeAssetDrift {
        drift_detected: true,
        mismatched_assets: vec!["entrypoint".to_string()],
        diagnostics: vec!["entrypoint: exit status 1".to_string()],
    };
    let lines = render_runtime_asset_preflight_lines(&report, 1);
    assert!(lines.iter().any(|line| line.contains("diagnostic: entrypoint")));
}
