use opencode_cloud::config::{
    cell_highlight, cmd_config_env, env_key, env_list_lines, env_remove, env_set, format_value,
    is_localhost, mask_sensitive_fields, remove_key, CellHighlight, ConfigValue, EnvCommands,
    EnvOutcome, config_action, config_reset_done, env_removed_message, env_set_message, ConfigAction, ConfigArgs, ConfigSubcommands,
};
use opencode_cloud::logs::{
    build_broker_journalctl_command, build_journalctl_command, follow_label, line_passes_filter,
    log_output, logs_service_name, LogsArgs,
};
use opencode_cloud::users::{
    check_password_flags, chpasswd_input, generate_random_password, parse_passwd_line,
    parse_shadow_hash, password_length_from, passwd_status_locked, user_record_path,
    validate_username, with_user,
};

#[test]
fn test_key_extraction_from_env_var() {
    let env_var = "FOO=bar";
    let key = env_key(env_var).unwrap();
    assert_eq!(key, "FOO");
}

#[test]
fn test_key_extraction_with_equals_in_value() {
    let env_var = "FOO=bar=baz";
    let key = env_key(env_var).unwrap();
    assert_eq!(key, "FOO");
}

#[test]
fn test_key_prefix_matching() {
    let entries = vec!["FOO=bar".to_string(), "BAR=baz".to_string()];
    let remaining = remove_key(&entries, "FOO");
    assert_eq!(remaining.len(), 1);
    assert_eq!(remaining[0], "BAR=baz");
}

#[test]
fn env_set_replaces_and_appends() {
    let entries = vec!["FOO=1".to_string(), "BAR=2".to_string(), "FOO=3".to_string()];
    assert_eq!(env_set(&entries, "FOO=9").unwrap(), vec!["BAR=2".to_string(), "FOO=9".to_string()]);
    assert_eq!(
        env_set(&entries, "NOEQ").unwrap_err(),
        "Format must be KEY=value\n\nExample: occ config env set FOO=bar"
    );
    assert_eq!(env_set(&entries, "=x").unwrap_err(), "Environment variable key cannot be empty");
    let once = env_set(&entries, "BAZ=1").unwrap();
    assert_eq!(env_set(&once, "BAZ=1").unwrap(), once);
    assert_eq!(env_key("FOOBAR=1").as_deref(), Some("FOOBAR"));
    assert_eq!(env_key("plain"), None);
}

#[test]
fn env_remove_requires_match() {
    let entries = vec!["FOO=1".to_string(), "FOOBAR=2".to_string()];
    assert_eq!(env_remove(&entries, "FOO").unwrap(), vec!["FOOBAR=2".to_string()]);
    assert_eq!(env_remove(&entries, "BAZ").unwrap_err(), "Environment variable not found: BAZ");
}

#[test]
fn env_list_and_command() {
    let entries = vec!["A=1".to_string(), "B=2".to_string()];
    assert_eq!(
        env_list_lines(&entries, false),
        vec!["  A=1".to_string(), "  B=2".to_string(), String::new(), "2 environment variable(s)".to_string()]
    );
    assert_eq!(env_list_lines(&entries, true), vec!["  A=1".to_string(), "  B=2".to_string()]);
    assert_eq!(env_list_lines(&vec![], false), vec!["(no environment variables configured)".to_string()]);
    assert!(env_list_lines(&vec![], true).is_empty());
    match cmd_config_env(&EnvCommands::SetVar { env_var: "C=3".to_string() }, &entries, false) {
        Ok(EnvOutcome::Updated { container_env, key }) => {
            assert_eq!(key, "C");
            assert_eq!(container_env.len(), 3);
        }
        _ => panic!("expected an update"),
    }
    match cmd_config_env(&EnvCommands::Remove { key: "A".to_string() }, &entries, false) {
        Ok(EnvOutcome::Removed { container_env, .. }) => assert_eq!(container_env, vec!["B=2".to_string()]),
        _ => panic!("expected a removal"),
    }
    assert!(cmd_config_env(&EnvCommands::Remove { key: "Z".to_string() }, &entries, false).is_err());
    assert!(matches!(cmd_config_env(&EnvCommands::List, &entries, true), Ok(EnvOutcome::Listed { .. })));
}

#[test]
fn test_is_localhost() {
    assert!(is_localhost("127.0.0.1"));
    assert!(is_localhost("::1"));
    assert!(is_localhost("localhost"));
    assert!(!is_localhost("0.0.0.0"));
    assert!(!is_localhost("192.168.1.1"));
}

#[test]
fn test_format_value_masks_password() {
    let val = ConfigValue::Str("secret".to_string());
    assert_eq!(format_value("auth_password", &val), "********");
}

#[test]
fn test_format_value_shows_not_set_for_empty_password() {
    let val = ConfigValue::Str(String::new());
    assert_eq!(format_value("auth_password", &val), "(not set)");
}

#[test]
fn test_format_value_preserves_normal_strings() {
    let val = ConfigValue::Str("localhost".to_string());
    assert_eq!(format_value("bind", &val), "localhost");
}

#[test]
fn test_format_value_formats_arrays() {
    let val = ConfigValue::Array(vec![Some("FOO=bar".to_string()), Some("BAZ=qux".to_string())]);
    assert_eq!(format_value("container_env", &val), "FOO=bar, BAZ=qux");
}

#[test]
fn test_format_value_shows_none_for_empty_array() {
    let val = ConfigValue::Array(vec![]);
    assert_eq!(format_value("container_env", &val), "(none)");
}

#[test]
fn format_value_other_kinds() {
    assert_eq!(format_value("x", &ConfigValue::Null), "(not set)");
    assert_eq!(format_value("x", &ConfigValue::Bool(true)), "true");
    assert_eq!(format_value("x", &ConfigValue::Number("3000".to_string())), "3000");
    assert_eq!(format_value("auth_username", &ConfigValue::Str(String::new())), "(not set)");
    assert_eq!(format_value("bind", &ConfigValue::Str(String::new())), "");
    assert_eq!(format_value("x", &ConfigValue::Array(vec![None, Some("a".to_string())])), "a");
    assert_eq!(format_value("auth_password", &ConfigValue::Null), "(not set)");
}

#[test]
fn test_mask_sensitive_fields() {
    let mut value = vec![
        ("auth_username".to_string(), ConfigValue::Str("admin".to_string())),
        ("auth_password".to_string(), ConfigValue::Str("secret123".to_string())),
        ("bind".to_string(), ConfigValue::Str("localhost".to_string())),
    ];
    mask_sensitive_fields(&mut value);
    assert!(matches!(&value[0].1, ConfigValue::Str(s) if s == "admin"));
    assert!(matches!(&value[1].1, ConfigValue::Str(s) if s == "********"));
    assert!(matches!(&value[2].1, ConfigValue::Str(s) if s == "localhost"));
}

#[test]
fn cell_highlights() {
    assert_eq!(cell_highlight("bind_address", &ConfigValue::Str("0.0.0.0".to_string())), CellHighlight::Warning);
    assert_eq!(cell_highlight("bind_address", &ConfigValue::Str("::".to_string())), CellHighlight::Warning);
    assert_eq!(cell_highlight("allow_unauthenticated_network", &ConfigValue::Bool(true)), CellHighlight::Warning);
    assert_eq!(cell_highlight("bind_address", &ConfigValue::Str("localhost".to_string())), CellHighlight::Secure);
    assert_eq!(cell_highlight("bind", &ConfigValue::Str("0.0.0.0".to_string())), CellHighlight::Plain);
}

fn base_args() -> LogsArgs {
    LogsArgs {
        lines: "50".to_string(),
        no_follow: false,
        timestamps: false,
        grep: None,
        broker: false,
    }
}

#[test]
fn journalctl_command_default() {
    let args = base_args();
    let cmd = build_journalctl_command(&args, "opencode").unwrap();
    assert!(cmd.contains(&"-u".to_string()));
    assert!(cmd.contains(&"opencode".to_string()));
    assert!(cmd.contains(&"-n".to_string()));
    assert!(cmd.contains(&"50".to_string()));
    assert!(cmd.contains(&"-f".to_string()));
}

#[test]
fn journalctl_command_all_lines() {
    let mut args = base_args();
    args.lines = "all".to_string();
    let cmd = build_journalctl_command(&args, "opencode").unwrap();
    assert!(!cmd.contains(&"-n".to_string()));
}

#[test]
fn journalctl_command_no_follow() {
    let mut args = base_args();
    args.no_follow = true;
    let cmd = build_journalctl_command(&args, "opencode").unwrap();
    assert!(!cmd.contains(&"-f".to_string()));
}

#[test]
fn journalctl_command_exact_and_errors() {
    let mut args = base_args();
    args.timestamps = true;
    args.lines = " ALL ".to_string();
    assert_eq!(
        build_broker_journalctl_command(&args).unwrap(),
        vec!["journalctl", "--no-pager", "-u", "opencode-broker", "-o", "short-iso", "--no-hostname", "-f"]
            .into_iter()
            .map(String::from)
            .collect::<Vec<_>>()
    );
    args.lines = "ten".to_string();
    assert_eq!(
        build_broker_journalctl_command(&args).unwrap_err(),
        "Invalid value for --lines with --broker. Use a number or 'all'."
    );
    assert_eq!(
        build_journalctl_command(&args, "opencode").unwrap_err(),
        "Invalid value for --lines. Use a number or 'all'."
    );
    args.lines = "".to_string();
    assert!(build_journalctl_command(&args, "opencode").is_err());
    assert_eq!(logs_service_name(true), "opencode-broker");
    assert_eq!(follow_label(false), "Following logs (Ctrl+C to exit)...");
}

#[test]
fn logs_args_defaults() {
    let args = LogsArgs {
        lines: "50".to_string(),
        no_follow: false,
        timestamps: false,
        grep: None,
        broker: false,
    };
    assert_eq!(args.lines, "50");
    assert!(!args.no_follow);
    assert!(!args.timestamps);
    assert!(args.grep.is_none());
}

#[test]
fn print_line_adds_newline_when_missing() {
    let line_without_newline = "test line";
    let line_with_newline = "test line\n";
    assert!(!line_without_newline.ends_with('\n'));
    assert!(line_with_newline.ends_with('\n'));
    assert_eq!(log_output(line_without_newline, None), "test line\n");
    assert_eq!(log_output(line_with_newline, None), "test line\n");
    assert_eq!(log_output("x", Some("[h] ")), "[h] x\n");
}

#[test]
fn grep_filter_logic() {
    let pattern = "ERROR";
    let matching_line = "2024-01-01 ERROR: something failed";
    let non_matching_line = "2024-01-01 INFO: all good";
    assert!(matching_line.contains(pattern));
    assert!(!non_matching_line.contains(pattern));
    assert!(line_passes_filter(matching_line, Some(pattern)));
    assert!(!line_passes_filter(non_matching_line, Some(pattern)));
    assert!(line_passes_filter(non_matching_line, None));
}

#[test]
fn follow_mode_from_no_follow_flag() {
    let args_follow = LogsArgs {
        lines: "50".to_string(),
        no_follow: false,
        timestamps: false,
        grep: None,
        broker: false,
    };
    assert!(!args_follow.no_follow);
    let args_no_follow = LogsArgs {
        lines: "50".to_string(),
        no_follow: true,
        timestamps: false,
        grep: None,
        broker: false,
    };
    assert!(args_no_follow.no_follow);
}

#[test]
fn parse_passwd_line_valid() {
    let line = "admin:x:1001:1001:Admin User:/home/admin:/bin/bash";
    let parsed = parse_passwd_line(line).unwrap();
    assert_eq!(parsed.username, "admin");
    assert_eq!(parsed.uid, 1001);
    assert_eq!(parsed.home, "/home/admin");
    assert_eq!(parsed.shell, "/bin/bash");
}

#[test]
fn parse_passwd_line_invalid() {
    assert!(parse_passwd_line("invalid").is_none());
    assert!(parse_passwd_line("too:few:fields").is_none());
    assert!(parse_passwd_line("user:x:not_a_number:1000::/home/user:/bin/bash").is_none());
}

#[test]
fn parse_passwd_line_uid_bounds() {
    assert_eq!(parse_passwd_line("u:x:+7:1::/h:/s").unwrap().uid, 7);
    assert_eq!(parse_passwd_line("u:x:4294967295:1::/h:/s").unwrap().uid, 4294967295);
    assert!(parse_passwd_line("u:x:4294967296:1::/h:/s").is_none());
    assert!(parse_passwd_line("u:x:-1:1::/h:/s").is_none());
}

#[test]
fn test_validate_username_valid() {
    assert!(validate_username("admin").is_ok());
    assert!(validate_username("user_123").is_ok());
    assert!(validate_username("ABC").is_ok());
    assert!(validate_username("opencode").is_ok());
}

#[test]
fn test_validate_username_empty() {
    assert!(validate_username("").is_err());
}

#[test]
fn test_validate_username_too_short() {
    assert!(validate_username("ab").is_err());
}

#[test]
fn test_validate_username_too_long() {
    let long = "a".repeat(33);
    assert!(validate_username(&long).is_err());
}

#[test]
fn test_validate_username_invalid_chars() {
    assert!(validate_username("user@name").is_err());
    assert!(validate_username("user-name").is_err());
    assert!(validate_username("user name").is_err());
}

#[test]
fn username_error_messages() {
    assert_eq!(validate_username("").unwrap_err(), "Username cannot be empty");
    assert_eq!(validate_username("ab").unwrap_err(), "Username must be at least 3 characters");
    assert_eq!(validate_username(&"a".repeat(33)).unwrap_err(), "Username must be at most 32 characters");
    assert_eq!(
        validate_username("a-b-c").unwrap_err(),
        "Username must contain only letters, numbers, and underscores"
    );
    assert!(validate_username("ééé").is_ok());
    assert_eq!(validate_username("éé").unwrap_err(), "Username must be at least 3 characters");
    assert_eq!(validate_username("é").unwrap_err(), "Username must be at least 3 characters");
}

#[test]
fn test_generate_random_password_length() {
    let password = generate_random_password(password_length_from(None)).unwrap();
    assert_eq!(password.len(), password_length_from(None));
}

#[test]
fn test_generate_random_password_alphanumeric() {
    let password = generate_random_password(password_length_from(None)).unwrap();
    assert!(password.chars().all(|c| c.is_alphanumeric()));
}

#[test]
fn test_generate_random_password_uniqueness() {
    let p1 = generate_random_password(password_length_from(None)).unwrap();
    let p2 = generate_random_password(password_length_from(None)).unwrap();
    let p3 = generate_random_password(password_length_from(None)).unwrap();
    assert_ne!(p1, p2);
    assert_ne!(p2, p3);
    assert_ne!(p1, p3);
}

#[test]
fn password_length_setting() {
    assert_eq!(password_length_from(None), 30);
    assert_eq!(password_length_from(Some("12")), 12);
    assert_eq!(password_length_from(Some("128")), 128);
    assert_eq!(password_length_from(Some("129")), 30);
    assert_eq!(password_length_from(Some("11")), 30);
    assert_eq!(password_length_from(Some(" 20")), 30);
    assert_eq!(password_length_from(Some("+20")), 20);
    assert_eq!(password_length_from(Some("abc")), 30);
    assert_eq!(generate_random_password(0).unwrap(), "");
}

#[test]
fn user_helpers() {
    assert!(check_password_flags(false, true).is_err());
    assert!(check_password_flags(true, true).is_ok());
    assert!(passwd_status_locked("alice L 2024-01-01 0 99999 7 -1"));
    assert!(!passwd_status_locked("alice P 2024-01-01"));
    assert!(!passwd_status_locked("alice"));
    assert_eq!(parse_shadow_hash("alice:$6$abc:19000::\n", "alice").unwrap(), "$6$abc");
    assert_eq!(parse_shadow_hash("  \n", "bob").unwrap_err(), "Failed to read shadow entry for 'bob'");
    assert_eq!(parse_shadow_hash("nocolon", "bob").unwrap_err(), "Invalid shadow entry for 'bob'");
    assert_eq!(user_record_path("/var/lib/users", "alice"), "/var/lib/users/alice.json");
    assert_eq!(chpasswd_input("alice", "pw"), "alice:pw\n");
    let users = vec!["a".to_string()];
    assert_eq!(with_user(&users, "a"), None);
    assert_eq!(with_user(&users, "b"), Some(vec!["a".to_string(), "b".to_string()]));
}

#[test]
fn config_actions_default_to_show() {
    match config_action(ConfigArgs { json: true, command: None }) {
        ConfigAction::Show { json } => assert!(json),
        other => panic!("unexpected {other:?}"),
    }
    match config_action(ConfigArgs { json: false, command: Some(ConfigSubcommands::Get { key: "port".to_string() }) }) {
        ConfigAction::Get { key } => assert_eq!(key, "port"),
        other => panic!("unexpected {other:?}"),
    }
    match config_action(ConfigArgs { json: true, command: Some(ConfigSubcommands::Show { json: false }) }) {
        ConfigAction::Show { json } => assert!(!json),
        other => panic!("unexpected {other:?}"),
    }
    let done = config_reset_done();
    assert!(done.contains("Success:"));
    assert!(done.ends_with(" Configuration reset to defaults"));
}

#[test]
fn env_change_messages() {
    let set = env_set_message("FOO");
    assert!(set.contains("Success:"));
    assert!(set.ends_with(" Set environment variable: FOO"));
    let removed = env_removed_message("BAR");
    assert!(removed.contains("Success:"));
    assert!(removed.ends_with(" Removed environment variable: BAR"));
}

#[test]
fn validate_username_counts_characters() {
    assert_eq!(validate_username("éa").unwrap_err(), "Username must be at least 3 characters");
    assert!(validate_username("éab").is_ok());
    assert!(validate_username(&"é".repeat(32)).is_ok());
    assert_eq!(validate_username(&"é".repeat(33)).unwrap_err(), "Username must be at most 32 characters");
}
