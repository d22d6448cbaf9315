use opencode_cloud::config::{env_remove, env_set};
use opencode_cloud::iotp::parse_snapshot_output;
use opencode_cloud::mounts::{mounts_equal, ContainerBindMount, ParsedMount};
use opencode_cloud::sandbox::{auto_instance_id, is_valid_instance_id};
use opencode_cloud::text::{decimal_string, parse_unsigned};

#[test]
fn env_set_then_remove_restores_other_entries() {
    let entries = vec!["FOO=1".to_string(), "BAR=2".to_string(), "FOO=3".to_string()];
    let set = env_set(&entries, "FOO=9").unwrap();
    assert_eq!(env_set(&set, "FOO=9").unwrap(), set);
    assert_eq!(env_remove(&set, "FOO").unwrap(), vec!["BAR=2".to_string()]);
}

#[test]
fn derived_instance_ids_are_valid_names() {
    for path in ["/", "/tmp/worktree-a", "/home/user/src/opencode-cloud", ""] {
        let id = auto_instance_id(path.as_bytes());
        assert!(is_valid_instance_id(&id), "{id}");
    }
}

#[test]
fn decimal_rendering_parses_back() {
    for n in [0u64, 7, 1000, 65535, u64::MAX] {
        let text: Vec<char> = decimal_string(n).chars().collect();
        assert_eq!(parse_unsigned(&text, u64::MAX), Some(n));
    }
    let text: Vec<char> = decimal_string(65536).chars().collect();
    assert_eq!(parse_unsigned(&text, 65535), None);
}

#[test]
fn mounts_comparison_ignores_order() {
    let cur = vec![
        ContainerBindMount { source: "/a".to_string(), target: "/x".to_string(), read_only: false },
        ContainerBindMount { source: "/b".to_string(), target: "/y".to_string(), read_only: true },
    ];
    let conf = vec![
        ParsedMount { host_path: "/a".to_string(), container_path: "/x".to_string(), read_only: false },
        ParsedMount { host_path: "/b".to_string(), container_path: "/y".to_string(), read_only: true },
    ];
    let mut cur2 = cur.clone();
    cur2.reverse();
    let mut conf2 = conf.clone();
    conf2.reverse();
    assert!(mounts_equal(&cur, &conf));
    assert_eq!(mounts_equal(&cur2, &conf2), mounts_equal(&cur, &conf));
    assert_eq!(mounts_equal(&cur2, &conf), mounts_equal(&cur, &conf2));
}

#[test]
fn leading_log_lines_do_not_change_the_snapshot() {
    let j = r#"{"ok":true,"active":true,"otp":"abc123"}"#;
    let noisy = format!("starting helper\nwarning: slow disk\n{j}");
    let alone = parse_snapshot_output(j).unwrap();
    let with_noise = parse_snapshot_output(&noisy).unwrap();
    assert_eq!(with_noise.state, alone.state);
    assert_eq!(with_noise.state_label, alone.state_label);
    assert_eq!(with_noise.otp, alone.otp);
    assert_eq!(with_noise.detail, alone.detail);
}

#[test]
fn blanks_around_the_report_line_change_nothing() {
    let j = "   {\"ok\":true,\"active\":false,\"reason\":\"completed\"}  \t";
    let noisy = format!("booting\n\n{j}");
    let alone = parse_snapshot_output(j).unwrap();
    let with_noise = parse_snapshot_output(&noisy).unwrap();
    assert_eq!(with_noise.state, alone.state);
    assert_eq!(with_noise.state_label, alone.state_label);
}
