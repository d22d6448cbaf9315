use opencode_cloud::maintenance::{
    record_config_mounts_failure, record_reset_step, reset_action, reset_container_plan, ResetAction, ResetContainerArgs, ResetStep,
};
use opencode_cloud::status_view::quiet_status_exit_code;
use opencode_cloud::text::trim;
use opencode_cloud::update::{
    image_update_next, image_update_steps, update_gate, ImageUpdateStep, StepOutcome, UpdateFlow, UpdateGate,
};
use opencode_cloud::wizard::{redact_password, redacted_config, Config};

#[test]
fn reset_plan_orders_steps() {
    let args = ResetContainerArgs { volumes: true, clean_mounts: false, purge_mounts: true, recreate: true, force: true };
    assert_eq!(
        reset_container_plan(&args),
        vec![ResetStep::RemoveContainer, ResetStep::RemoveVolumes, ResetStep::CleanMounts, ResetStep::Recreate]
    );
    assert_eq!(reset_container_plan(&ResetContainerArgs::default()), vec![ResetStep::RemoveContainer]);
}

#[test]
fn reset_keeps_going_and_skips_restart_after_failure() {
    let args = ResetContainerArgs { volumes: true, clean_mounts: false, purge_mounts: false, recreate: true, force: true };
    let plan = reset_container_plan(&args);
    let mut errors = Vec::new();
    record_reset_step(&mut errors, plan[0], Some("boom"));
    assert_eq!(errors, vec!["Failed to remove container: boom".to_string()]);
    assert_eq!(reset_action(&plan, 1, errors.len()), ResetAction::RemoveVolumes);
    record_reset_step(&mut errors, plan[1], None);
    assert_eq!(errors.len(), 1);
    assert_eq!(reset_action(&plan, 2, errors.len()), ResetAction::SkipRecreate);
    assert_eq!(reset_action(&plan, 2, 0), ResetAction::StartService);
    assert_eq!(reset_action(&plan, 3, errors.len()), ResetAction::Finish);
}

#[test]
fn update_steps_back_up_before_new_image() {
    assert_eq!(
        image_update_steps(false),
        vec![
            ImageUpdateStep::Backup,
            ImageUpdateStep::Pull,
            ImageUpdateStep::CheckUnchanged,
            ImageUpdateStep::Stop,
            ImageUpdateStep::Recreate,
            ImageUpdateStep::Purge,
        ]
    );
    assert_eq!(
        image_update_steps(true),
        vec![
            ImageUpdateStep::Stop,
            ImageUpdateStep::Backup,
            ImageUpdateStep::Build,
            ImageUpdateStep::Recreate,
            ImageUpdateStep::Purge,
        ]
    );
}

#[test]
fn update_flow_stops_on_failure_or_unchanged_image() {
    let steps = image_update_steps(false);
    assert_eq!(image_update_next(&steps, 0, StepOutcome::Done), UpdateFlow::Continue(1));
    assert_eq!(
        image_update_next(&steps, 1, StepOutcome::Failed("timeout".to_string())),
        UpdateFlow::Abort("Failed to pull image: timeout".to_string())
    );
    assert_eq!(image_update_next(&steps, 2, StepOutcome::Unchanged), UpdateFlow::UpToDate);
    assert_eq!(image_update_next(&steps, 5, StepOutcome::Done), UpdateFlow::Finished);
}

#[test]
fn quiet_status_exit_codes() {
    assert_eq!(quiet_status_exit_code(true, true), 0);
    assert_eq!(quiet_status_exit_code(true, false), 1);
    assert_eq!(quiet_status_exit_code(false, false), 1);
}

#[test]
fn update_gate_exits_before_any_step() {
    let dev = Some("dev".to_string());
    let v1 = Some("1.0.0".to_string());
    assert_eq!(update_gate(&dev, &v1, false, false, true, true), UpdateGate::DevImage);
    assert_eq!(update_gate(&v1, &v1, false, false, true, true), UpdateGate::AlreadyCurrent);
    assert_eq!(update_gate(&v1, &Some("1.1.0".to_string()), false, false, false, false), UpdateGate::Declined);
    assert_eq!(
        update_gate(&v1, &v1, true, false, true, false),
        UpdateGate::Proceed(image_update_steps(false))
    );
    assert_eq!(
        update_gate(&v1, &v1, false, true, false, true),
        UpdateGate::Proceed(image_update_steps(true))
    );
}

#[test]
fn reset_records_config_save_failure() {
    let mut errors = vec!["Mount cleanup error: busy".to_string()];
    record_config_mounts_failure(&mut errors, "read-only file system");
    assert_eq!(
        errors,
        vec![
            "Mount cleanup error: busy".to_string(),
            "Failed to update config mounts: read-only file system".to_string(),
        ]
    );
}

#[test]
fn redacted_configuration_hides_secrets() {
    let config = Config {
        auth_username: Some("admin".to_string()),
        auth_password: Some("hunter2".to_string()),
        container_env: vec!["TOKEN=abc".to_string(), "FLAG".to_string()],
        opencode_web_port: 3000,
        ..Config::default()
    };
    let shown = redacted_config(config);
    assert_eq!(shown.auth_password, Some("********".to_string()));
    assert_eq!(shown.auth_username, Some("admin".to_string()));
    assert_eq!(shown.container_env, vec!["TOKEN=REDACTED".to_string(), "REDACTED".to_string()]);
    assert_eq!(shown.opencode_web_port, 3000);
    assert_eq!(redact_password(&None), None);
}

#[test]
fn whitespace_follows_unicode() {
    let s: Vec<char> = "\u{3000}\u{85} word\u{2029}\t".chars().collect();
    let t: String = trim(&s).into_iter().collect();
    assert_eq!(t, "word");
    let u: Vec<char> = "\u{200B}x".chars().collect();
    assert_eq!(trim(&u).len(), 2);
}
