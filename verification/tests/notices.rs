use opencode_cloud::notices::{
    auto_container_notice, config_error_lines, config_loaded_notice, first_time_setup_notice,
    help_hint_lines, paths_info_lines, preflight_failure_notice, preflight_warning_lines,
    sandbox_instance_notice, service_not_running_notice, setup_complete_notice,
    singleton_error_lines, work_in_progress_warning, SingletonErrorKind,
};
use opencode_cloud::runtime::RuntimeAssetDrift;

fn plain(s: &str) -> String {
    let mut out = String::new();
    let mut chars = s.chars();
    while let Some(c) = chars.next() {
        if c == '\x1b' {
            for d in chars.by_ref() {
                if d == 'm' {
                    break;
                }
            }
        } else {
            out.push(c);
        }
    }
    out
}

fn plain_all(v: Vec<String>) -> Vec<String> {
    v.iter().map(|s| plain(s)).collect()
}

#[test]
fn startup_notices_read_as_expected() {
    assert_eq!(plain(&sandbox_instance_notice("abc")), "[info] Using sandbox instance profile: abc");
    assert!(plain(&work_in_progress_warning()).starts_with("Warning: This tool is still a work in progress"));
    assert_eq!(
        plain(&auto_container_notice()),
        "Info: Detected opencode container; using container runtime. Override with --runtime host or OPENCODE_RUNTIME=host."
    );
    assert_eq!(plain(&first_time_setup_notice()), "Note: First-time setup required. Running wizard...");
    assert_eq!(
        plain(&setup_complete_notice()),
        "Success: Setup complete! Run your command again, or use 'occ start' to begin."
    );
    assert_eq!(plain(&config_loaded_notice("/c.json")), "[info] Config loaded from: /c.json");
    assert_eq!(
        plain_all(paths_info_lines("/c.json", None)),
        vec!["[info] Config: /c.json", "[info] Data: unknown"]
    );
    assert_eq!(plain(&service_not_running_notice()), "Note: Service is not running.");
    assert_eq!(
        plain(&preflight_failure_notice(false, "x")),
        "[warn] Runtime drift preflight failed: x"
    );
    assert_eq!(
        plain(&preflight_failure_notice(true, "x")),
        "[warn] Failed to initialize runtime drift preflight: x"
    );
    assert_eq!(
        plain_all(help_hint_lines("1.0.0")),
        vec!["opencode-cloud 1.0.0", "", "Run --help for available commands."]
    );
}

#[test]
fn config_error_lines_name_the_file() {
    let lines = plain_all(config_error_lines("bad key", "/c.json"));
    assert_eq!(lines[0], "Error: Configuration error");
    assert_eq!(lines[2], "  bad key");
    assert_eq!(lines[4], "  Config file: /c.json");
    assert_eq!(lines.len(), 8);
}

#[test]
fn preflight_warning_only_with_drift() {
    let none = RuntimeAssetDrift { drift_detected: false, mismatched_assets: vec![], diagnostics: vec![] };
    assert!(preflight_warning_lines(&none, 0).is_empty());
    let drift = RuntimeAssetDrift {
        drift_detected: true,
        mismatched_assets: vec!["bootstrap helper".to_string()],
        diagnostics: vec!["d".to_string()],
    };
    let lines = plain_all(preflight_warning_lines(&drift, 1));
    assert_eq!(lines[0], "Warning: Local container drift detected.");
    assert_eq!(lines.last().unwrap(), "");
    assert_eq!(lines[lines.len() - 2], "  diagnostic: d");
    assert!(lines[1..lines.len() - 1].iter().all(|l| l.starts_with("  ")));
}

#[test]
fn singleton_errors() {
    let lines = plain_all(singleton_error_lines(&SingletonErrorKind::AlreadyRunning(42), None));
    assert_eq!(lines[0], "Error: Another instance is already running");
    assert_eq!(lines[2], "  Process ID: 42");
    assert_eq!(lines[8], "       kill 42");
    let dir = plain_all(singleton_error_lines(&SingletonErrorKind::CreateDirFailed("denied".to_string()), Some("/d")));
    assert_eq!(dir[2], "  denied");
    assert_eq!(dir[5], "       /d");
    assert_eq!(
        singleton_error_lines(&SingletonErrorKind::CreateDirFailed("x".to_string()), None).len(),
        4
    );
    assert_eq!(
        plain_all(singleton_error_lines(&SingletonErrorKind::InvalidPath, None))[2],
        "  Tip: Ensure XDG_DATA_HOME or HOME is set."
    );
    assert_eq!(
        plain_all(singleton_error_lines(&SingletonErrorKind::LockFailed("busy".to_string()), None)),
        vec!["Error: Failed to acquire lock", "", "  busy"]
    );
}
