use opencode_cloud::mounts::{ConfigMount, ParsedMount};
use opencode_cloud::update_listener::{
    can_process_command, classify_command_file, finish_request, find_state_mount,
    invalid_command_result, is_recently_modified, join_path, listener_startup_lines,
    listener_tick, poll_action, resolve_command_paths, update_args_for_request, CommandLoad,
    CommandPaths, ListenerTick, PollAction, StateMountLookup, UpdateCommandRequest, MOUNT_STATE,
};

fn mount(spec: &str, host: &str, target: &str, read_only: bool) -> ConfigMount {
    ConfigMount {
        spec: spec.to_string(),
        parsed: Some(ParsedMount {
            host_path: host.to_string(),
            container_path: target.to_string(),
            read_only,
        }),
    }
}

fn request(command: &str, id: Option<&str>, branch: Option<&str>, commit: Option<&str>) -> UpdateCommandRequest {
    UpdateCommandRequest {
        command: command.to_string(),
        request_id: id.map(str::to_string),
        branch: branch.map(str::to_string),
        commit: commit.map(str::to_string),
    }
}

#[test]
fn join_path_follows_path_rules() {
    assert_eq!(join_path("/a", "b"), "/a/b");
    assert_eq!(join_path("/a/", "b"), "/a/b");
    assert_eq!(join_path("", "b"), "b");
    assert_eq!(join_path("/a", "/b"), "/b");
}

#[test]
fn state_mount_is_first_matching_entry() {
    let state = format!("/host/state:{MOUNT_STATE}");
    let mounts = vec![
        ConfigMount { spec: "garbage".to_string(), parsed: None },
        mount("/w:/home/opencoder/workspace", "/w", "/home/opencoder/workspace", false),
        mount(&state, "/host/state", MOUNT_STATE, false),
        mount("/other:x", "/other", MOUNT_STATE, true),
    ];
    let found = find_state_mount(&mounts).unwrap();
    assert_eq!(found.host_path, "/host/state");
    assert!(find_state_mount(&mounts[..2].to_vec()).is_none());
}

#[test]
fn command_paths_under_writable_state_mount() {
    let mounts = vec![mount("s", "/home/me/.local/state/opencode", MOUNT_STATE, false)];
    assert_eq!(
        resolve_command_paths(&mounts),
        StateMountLookup::Writable(CommandPaths {
            command_file: "/home/me/.local/state/opencode/opencode-cloud/commands/update-command.json".to_string(),
            result_file: "/home/me/.local/state/opencode/opencode-cloud/commands/update-command.result.json".to_string(),
            container_path: "/home/opencoder/.local/state/opencode/opencode-cloud/commands/update-command.json".to_string(),
        })
    );
    let ro = vec![mount("s", "/x", MOUNT_STATE, true)];
    assert_eq!(resolve_command_paths(&ro), StateMountLookup::ReadOnly);
    assert_eq!(resolve_command_paths(&vec![]), StateMountLookup::Missing);
}

#[test]
fn startup_lines_explain_disabled_listener() {
    let lines = listener_startup_lines(&StateMountLookup::ReadOnly, true, false);
    assert_eq!(
        lines,
        vec![
            format!("Update command listener disabled ({MOUNT_STATE} is mounted read-only)."),
            "Update command listener disabled for remote hosts (local bind mount only).".to_string(),
            format!("Update command listener disabled (missing writable bind mount for {MOUNT_STATE})."),
            "Listening for update commands (Ctrl+C to stop)...".to_string(),
            String::new(),
        ]
    );
    assert!(listener_startup_lines(&StateMountLookup::Missing, true, true).is_empty());
    let paths = CommandPaths {
        command_file: "/c".to_string(),
        result_file: "/r".to_string(),
        container_path: "/cp".to_string(),
    };
    assert_eq!(
        listener_startup_lines(&StateMountLookup::Writable(paths), false, false),
        vec![
            "Listening for update commands (Ctrl+C to stop)...".to_string(),
            "  Command file: /c".to_string(),
            "  Container path: /cp".to_string(),
            String::new(),
        ]
    );
}

#[test]
fn ticks_wait_for_request_interval() {
    assert!(can_process_command(None));
    assert!(!can_process_command(Some(4999)));
    assert!(can_process_command(Some(5000)));
    assert_eq!(listener_tick(false, true, false, None), ListenerTick::Exit);
    assert_eq!(listener_tick(true, false, false, None), ListenerTick::Idle);
    assert_eq!(listener_tick(true, true, true, None), ListenerTick::Idle);
    assert_eq!(listener_tick(true, true, false, Some(100)), ListenerTick::PrepareDir);
    assert_eq!(listener_tick(true, true, false, Some(6000)), ListenerTick::PrepareDirAndPoll);
}

#[test]
fn unparsable_file_is_retried_while_fresh() {
    assert!(is_recently_modified(Some(1999)));
    assert!(!is_recently_modified(Some(2000)));
    assert!(!is_recently_modified(None));
    assert_eq!(classify_command_file(Err("eof".to_string()), true), CommandLoad::Retry);
    assert_eq!(
        classify_command_file(Err("eof".to_string()), false),
        CommandLoad::Invalid("Invalid update command JSON: eof".to_string())
    );
    let req = request("update_opencode", None, None, None);
    assert_eq!(classify_command_file(Ok(req.clone()), false), CommandLoad::Parsed(req));
}

#[test]
fn requests_are_checked_before_running() {
    let bad = request("reboot", Some("1"), None, None);
    assert_eq!(
        update_args_for_request(&bad).unwrap_err(),
        "Unsupported command 'reboot'. Expected: update_opencode"
    );
    let both = request("update_opencode", None, Some("dev"), Some("abc"));
    assert_eq!(update_args_for_request(&both).unwrap_err(), "Specify only one of branch or commit.");
    let ok = request("update_opencode", Some("webapp-1234"), Some("dev"), None);
    let args = update_args_for_request(&ok).unwrap();
    assert_eq!(args.branch.as_deref(), Some("dev"));
    assert_eq!(args.commit, None);
    assert!(args.yes);
    match poll_action(CommandLoad::Parsed(ok.clone())) {
        PollAction::Run(q, a) => {
            assert_eq!(q, ok);
            assert_eq!(a, args);
        }
        other => panic!("unexpected {other:?}"),
    }
    assert_eq!(
        poll_action(CommandLoad::Parsed(bad.clone())),
        PollAction::Refuse(bad, "Unsupported command 'reboot'. Expected: update_opencode".to_string())
    );
    assert_eq!(poll_action(CommandLoad::Missing), PollAction::Wait);
    assert_eq!(poll_action(CommandLoad::Retry), PollAction::Wait);
    assert_eq!(
        poll_action(CommandLoad::Invalid("x".to_string())),
        PollAction::ReportInvalid("x".to_string())
    );
}

#[test]
fn results_carry_status_and_id() {
    let req = request("update_opencode", Some("id-7"), None, None);
    let ok = finish_request(&req, Ok(()), "t0".to_string(), "t1".to_string());
    assert_eq!(ok.status, "success");
    assert_eq!(ok.message, "Update completed");
    assert_eq!(ok.request_id.as_deref(), Some("id-7"));
    assert_eq!((ok.started_at.as_str(), ok.finished_at.as_str()), ("t0", "t1"));
    let err = finish_request(&req, Err("boom".to_string()), "t0".to_string(), "t2".to_string());
    assert_eq!(err.status, "error");
    assert_eq!(err.message, "boom");
    let invalid = invalid_command_result("bad json".to_string(), "now".to_string());
    assert_eq!(invalid.status, "error");
    assert_eq!(invalid.request_id, None);
    assert_eq!(invalid.started_at, "now");
    assert_eq!(invalid.finished_at, "now");
}
