//! The `reset`, `mount` and `restart` commands: their arguments, refusals and
//! the decisions between their Docker and filesystem steps.

use vstd::prelude::*;
use crate::mounts::{
    mount_views, normalize_mount_targets, resolution_views, spec_mount_display, spec_normalized,
    spec_resolutions, DuplicateMountTargetResolution, ParsedMount,
};
use crate::text::{append, owned, push_decimal, spec_decimal, string_views};
use crate::cleanup::MountCleanupResult;
use crate::status_view::{item_lines, line_pieces, plain_line, push_all_lines, push_items, push_plain, push_rendered, render_lines, shows_lines};
use crate::mounts::{bind_views, spec_mode_word, spec_mount_spec, ContainerBindMount, MountUpsertOutcome, MountView, UpsertOutcomeView};
use crate::style::{piece_views, render, shows_pieces, Paint, Piece};

verus! {

/// Arguments of `reset`.
#[derive(Debug, Clone)]
pub struct ResetArgs {
    pub command: ResetCommands,
}

/// The `reset` subcommands.
#[derive(Debug, Clone)]
pub enum ResetCommands {
    /// Destroy the container, and optionally volumes or mounts.
    Container(ResetContainerArgs),
    /// Factory reset of the host installation.
    Host(ResetHostArgs),
}

/// Arguments of `reset container`.
#[derive(Debug, Clone, Copy, Default)]
pub struct ResetContainerArgs {
    /// Also remove Docker volumes.
    pub volumes: bool,
    /// Clean the contents of configured bind mounts.
    pub clean_mounts: bool,
    /// Remove configured bind mount directories and their entries.
    pub purge_mounts: bool,
    /// Start the service after the reset.
    pub recreate: bool,
    /// Skip confirmation prompts.
    pub force: bool,
}

/// Arguments of `reset host`.
#[derive(Debug, Clone, Copy, Default)]
pub struct ResetHostArgs {
    pub force: bool,
}

/// Arguments of `mount add`.
#[derive(Debug, Clone)]
pub struct MountAddArgs {
    /// `/host/path:/container/path[:ro]`.
    pub mount_spec: String,
    /// Skip checking the host path.
    pub no_validate: bool,
    /// Allow system paths as targets.
    pub force: bool,
}

/// Arguments of `mount clean`.
#[derive(Debug, Clone, Copy, Default)]
pub struct MountCleanArgs {
    /// Remove the mount directories and their entries.
    pub purge: bool,
    /// Skip the confirmation prompt.
    pub force: bool,
}

pub const DESTRUCTIVE_NEEDS_FORCE: &'static str = "Data-destructive flags require --force.\nUse --force to confirm volume or mount deletion.";

pub const RESET_MOUNTS_LOCAL_ONLY: &'static str = "Mount cleanup is only supported for local hosts.\nRun without --host or use --host local on the machine where the mounts exist.";

pub const RESET_HOST_LOCAL_ONLY: &'static str = "Host reset is only supported on the local machine.\nRun without --host or use --host local.";

pub const MOUNT_CLEAN_LOCAL_ONLY: &'static str = "Mount cleanup is only supported for local hosts.\nRun without --remote-host or use --local on the machine where the mounts exist.";

/// `reset container` deletes data only with `--force`, and cleans mounts only on
/// the local machine.
pub fn check_reset_container(args: &ResetContainerArgs, remote: bool) -> (r: Result<(), String>)
    ensures
        match r {
            Ok(()) => !((args.volumes || args.clean_mounts || args.purge_mounts) && !args.force) && !((
            args.clean_mounts || args.purge_mounts) && remote),
            Err(e) => if (args.volumes || args.clean_mounts || args.purge_mounts) && !args.force {
                e@ == DESTRUCTIVE_NEEDS_FORCE@
            } else {
                (args.clean_mounts || args.purge_mounts) && remote && e@ == RESET_MOUNTS_LOCAL_ONLY@
            },
        },
{
    let destructive = args.volumes || args.clean_mounts || args.purge_mounts;
    if destructive && !args.force {
        return Err(owned(DESTRUCTIVE_NEEDS_FORCE));
    }
    if (args.clean_mounts || args.purge_mounts) && remote {
        return Err(owned(RESET_MOUNTS_LOCAL_ONLY));
    }
    Ok(())
}

/// `reset host` runs only on the local machine.
pub fn check_reset_host(remote: bool) -> (r: Result<(), String>)
    ensures
        r is Ok <==> !remote,
        r matches Err(e) ==> e@ == RESET_HOST_LOCAL_ONLY@,
{
    if remote {
        return Err(owned(RESET_HOST_LOCAL_ONLY));
    }
    Ok(())
}

/// `mount clean` runs only on the local machine.
pub fn check_mount_clean(remote: bool) -> (r: Result<(), String>)
    ensures
        r is Ok <==> !remote,
        r matches Err(e) ==> e@ == MOUNT_CLEAN_LOCAL_ONLY@,
{
    if remote {
        return Err(owned(MOUNT_CLEAN_LOCAL_ONLY));
    }
    Ok(())
}

/// The confirmation asked before cleaning mounts.
pub fn mount_clean_prompt(purge: bool) -> (s: &'static str)
    ensures
        s@ == (if purge {
            "This will delete all contents of configured bind mounts and remove the mount directories. Continue?"@
        } else {
            "This will delete all contents of configured bind mounts. Continue?"@
        }),
{
    if purge {
        "This will delete all contents of configured bind mounts and remove the mount directories. Continue?"
    } else {
        "This will delete all contents of configured bind mounts. Continue?"
    }
}

/// A heading and each error on an indented line of its own.
pub open spec fn spec_error_summary(heading: Seq<char>, errors: Seq<Seq<char>>) -> Seq<char>
    decreases errors.len(),
{
    if errors.len() == 0 {
        heading
    } else {
        spec_error_summary(heading, errors.drop_last()) + "\n  - "@ + errors.last()
    }
}

/// Success without errors; else one message listing them under `heading`.
pub fn summarize_errors(heading: &str, errors: &Vec<String>) -> (r: Result<(), String>)
    ensures
        r is Ok <==> errors@.len() == 0,
        r matches Err(e) ==> e@ == spec_error_summary(heading@, string_views(errors@)),
{
    if errors.len() == 0 {
        return Ok(());
    }
    let mut message = owned(heading);
    let ghost all = string_views(errors@);
    let mut i: usize = 0;
    while i < errors.len()
        invariant
            i <= errors@.len(),
            all == string_views(errors@),
            message@ == spec_error_summary(heading@, all.take(i as int)),
        decreases errors@.len() - i,
    {
        append(&mut message, "\n  - ");
        append(&mut message, errors[i].as_str());
        proof {
            assert(all.take(i + 1).drop_last() =~= all.take(i as int));
            assert(all[i as int] == errors@[i as int]@);
        }
        i = i + 1;
    }
    assert(all.take(errors@.len() as int) =~= all);
    Err(message)
}

/// After a container reset, the service starts again when asked and nothing failed.
#[derive(Debug, Clone, Copy, PartialEq, Eq, Structural)]
pub enum RecreateStep {
    NotAsked,
    Start,
    SkipAfterErrors,
}

/// Whether to start the service after a reset.
pub fn recreate_step(recreate: bool, error_count: usize) -> (s: RecreateStep)
    ensures
        s == (if !recreate {
            RecreateStep::NotAsked
        } else if error_count == 0 {
            RecreateStep::Start
        } else {
            RecreateStep::SkipAfterErrors
        }),
{
    if !recreate {
        RecreateStep::NotAsked
    } else if error_count == 0 {
        RecreateStep::Start
    } else {
        RecreateStep::SkipAfterErrors
    }
}

/// A step of `reset container`, in the order the steps run.
#[derive(Debug, Clone, Copy, PartialEq, Eq, Structural)]
pub enum ResetStep {
    /// Stop and remove the service container (when there is one).
    RemoveContainer,
    /// Remove the Docker volumes.
    RemoveVolumes,
    /// Clean or purge the configured bind mounts.
    CleanMounts,
    /// Start the service again.
    Recreate,
}

/// The steps a `reset container` runs: the container first, then the volumes and
/// the mounts when asked for, and the restart last when asked for.
pub open spec fn spec_reset_plan(args: ResetContainerArgs) -> Seq<ResetStep> {
    seq![ResetStep::RemoveContainer] + (if args.volumes {
        seq![ResetStep::RemoveVolumes]
    } else {
        Seq::empty()
    }) + (if args.clean_mounts || args.purge_mounts {
        seq![ResetStep::CleanMounts]
    } else {
        Seq::empty()
    }) + (if args.recreate {
        seq![ResetStep::Recreate]
    } else {
        Seq::empty()
    })
}

/// The steps of a `reset container`.
pub fn reset_container_plan(args: &ResetContainerArgs) -> (plan: Vec<ResetStep>)
    ensures
        plan@ == spec_reset_plan(*args),
{
    let mut plan: Vec<ResetStep> = vec![ResetStep::RemoveContainer];
    if args.volumes {
        plan.push(ResetStep::RemoveVolumes);
    }
    if args.clean_mounts || args.purge_mounts {
        plan.push(ResetStep::CleanMounts);
    }
    if args.recreate {
        plan.push(ResetStep::Recreate);
    }
    assert(plan@ =~= spec_reset_plan(*args));
    plan
}

/// What runs at a point of a reset.
#[derive(Debug, Clone, Copy, PartialEq, Eq, Structural)]
pub enum ResetAction {
    RemoveContainer,
    RemoveVolumes,
    CleanMounts,
    StartService,
    /// The restart is skipped because an earlier step failed.
    SkipRecreate,
    /// Every step has run: report the errors, if any.
    Finish,
}

/// The action at step `next` of `plan` after `error_count` failures so far: every
/// step runs whatever failed before it, except the restart, which is skipped after
/// a failure.
pub open spec fn spec_reset_action(plan: Seq<ResetStep>, next: int, error_count: nat) -> ResetAction {
    if next >= plan.len() {
        ResetAction::Finish
    } else {
        match plan[next] {
            ResetStep::RemoveContainer => ResetAction::RemoveContainer,
            ResetStep::RemoveVolumes => ResetAction::RemoveVolumes,
            ResetStep::CleanMounts => ResetAction::CleanMounts,
            ResetStep::Recreate => if error_count == 0 {
                ResetAction::StartService
            } else {
                ResetAction::SkipRecreate
            },
        }
    }
}

/// The action at step `next` of a reset.
pub fn reset_action(plan: &Vec<ResetStep>, next: usize, error_count: usize) -> (a: ResetAction)
    ensures
        a == spec_reset_action(plan@, next as int, error_count as nat),
{
    if next >= plan.len() {
        return ResetAction::Finish;
    }
    match plan[next] {
        ResetStep::RemoveContainer => ResetAction::RemoveContainer,
        ResetStep::RemoveVolumes => ResetAction::RemoveVolumes,
        ResetStep::CleanMounts => ResetAction::CleanMounts,
        ResetStep::Recreate => match recreate_step(true, error_count) {
            RecreateStep::Start => ResetAction::StartService,
            _ => ResetAction::SkipRecreate,
        },
    }
}

/// How the failure of a reset step is recorded.
pub open spec fn spec_reset_step_error(step: ResetStep, error: Seq<char>) -> Seq<char> {
    match step {
        ResetStep::RemoveContainer => "Failed to remove container: "@ + error,
        ResetStep::RemoveVolumes => "Failed to remove Docker volumes: "@ + error,
        ResetStep::CleanMounts => "Mount cleanup error: "@ + error,
        ResetStep::Recreate => "Failed to start service after reset: "@ + error,
    }
}

/// Records the outcome of a reset step: a failure is added to the errors (and the
/// reset goes on with the next step); a success changes nothing.
pub fn record_reset_step(errors: &mut Vec<String>, step: ResetStep, failure: Option<&str>)
    ensures
        match failure {
            None => final(errors)@ == old(errors)@,
            Some(e) => string_views(final(errors)@) == string_views(old(errors)@).push(
                spec_reset_step_error(step, e@),
            ),
        },
{
    if let Some(e) = failure {
        let mut m = owned(
            match step {
                ResetStep::RemoveContainer => "Failed to remove container: ",
                ResetStep::RemoveVolumes => "Failed to remove Docker volumes: ",
                ResetStep::CleanMounts => "Mount cleanup error: ",
                ResetStep::Recreate => "Failed to start service after reset: ",
            },
        );
        append(&mut m, e);
        let ghost before = string_views(errors@);
        errors.push(m);
        assert(string_views(errors@) =~= before.push(spec_reset_step_error(step, e@)));
    }
}

/// Records that the configuration could not be saved after its purged mount entries
/// were removed; the reset goes on.
pub fn record_config_mounts_failure(errors: &mut Vec<String>, error: &str)
    ensures
        string_views(final(errors)@) == string_views(old(errors)@).push(
            "Failed to update config mounts: "@ + error@,
        ),
{
    let mut m = owned("Failed to update config mounts: ");
    append(&mut m, error);
    let ghost before = string_views(errors@);
    errors.push(m);
    assert(string_views(errors@) =~= before.push("Failed to update config mounts: "@ + error@));
}

/// The heading of the errors of a reset.
pub const RESET_ERRORS_HEADING: &'static str = "Reset completed with errors:";

/// The host paths of the mounts whose directories are purged.
pub fn purge_hosts(mounts: &Vec<ParsedMount>) -> (hosts: Vec<String>)
    ensures
        string_views(hosts@) == mount_views(mounts@).map_values(|m: crate::mounts::MountView| m.host),
{
    let mut hosts: Vec<String> = Vec::new();
    let mut i: usize = 0;
    while i < mounts.len()
        invariant
            i <= mounts@.len(),
            string_views(hosts@) == mount_views(mounts@).take(i as int).map_values(
                |m: crate::mounts::MountView| m.host,
            ),
        decreases mounts@.len() - i,
    {
        let ghost before = string_views(hosts@);
        hosts.push(mounts[i].host_path.clone());
        proof {
            let mv = mount_views(mounts@);
            assert(mv[i as int] == mounts@[i as int]@);
            assert(mv.take(i + 1) =~= mv.take(i as int).push(mv[i as int]));
            assert(string_views(hosts@) =~= before.push(mounts@[i as int].host_path@));
        }
        assert(string_views(hosts@) =~= mount_views(mounts@).take(i + 1).map_values(
            |m: crate::mounts::MountView| m.host,
        ));
        i = i + 1;
    }
    assert(mount_views(mounts@).take(mounts@.len() as int) =~= mount_views(mounts@));
    hosts
}

// ---------------------------------------------------------------------------
// Bind mounts for a container
// ---------------------------------------------------------------------------

/// The bind mounts a container gets: the configured ones unless disabled, then
/// those given on the command line; for each target only the last one.
pub fn bind_mounts_from(config_mounts: Vec<ParsedMount>, cli_mounts: Vec<ParsedMount>, no_mounts: bool) -> (r: (
    Vec<ParsedMount>,
    Vec<DuplicateMountTargetResolution>,
))
    ensures
        ({
            let all = if no_mounts {
                mount_views(cli_mounts@)
            } else {
                mount_views(config_mounts@) + mount_views(cli_mounts@)
            };
            &&& mount_views(r.0@) == spec_normalized(all)
            &&& resolution_views(r.1@) == spec_resolutions(all)
        }),
{
    let mut all: Vec<ParsedMount> = if no_mounts {
        Vec::new()
    } else {
        config_mounts
    };
    let ghost first = mount_views(all@);
    let mut cli = cli_mounts;
    let ghost second = mount_views(cli@);
    all.append(&mut cli);
    assert(mount_views(all@) =~= first + second);
    proof {
        if no_mounts {
            assert(first + second =~= second);
        }
    }
    normalize_mount_targets(all)
}

/// The warning for a target given several mounts.
pub open spec fn spec_duplicate_warning(target: Seq<char>, kept: Seq<char>, removed: nat) -> Seq<char> {
    "Warning: multiple mounts target '"@ + target + "'; using last entry "@ + kept + " and ignoring "@
        + spec_decimal(removed) + " earlier entr"@ + (if removed == 1 { "y."@ } else { "ies."@ })
}

/// The warning shown for one resolved duplicate target.
pub fn duplicate_mount_warning(resolution: &DuplicateMountTargetResolution) -> (s: String)
    ensures
        s@ == spec_duplicate_warning(
            resolution@.target,
            spec_mount_display(resolution@.kept),
            resolution@.removed.len(),
        ),
{
    let mut s = owned("Warning: multiple mounts target '");
    append(&mut s, resolution.container_path.as_str());
    append(&mut s, "'; using last entry ");
    let kept = crate::mounts::format_mount_display(&resolution.kept_mount);
    append(&mut s, kept.as_str());
    append(&mut s, " and ignoring ");
    let n = resolution.removed_mounts.len();
    push_decimal(&mut s, n as u64);
    append(&mut s, " earlier entr");
    append(&mut s, if n == 1 { "y." } else { "ies." });
    proof {
        assert(mount_views(resolution.removed_mounts@).len() == n);
    }
    s
}

/// The error for a mount whose host path failed validation.
pub fn mount_validation_message(host: &str, error: &str) -> (s: String)
    ensures
        s@ == "Mount path validation failed for '"@ + host@ + "':\n  "@ + error@
            + "\n\nDid the directory move? Run: occ mount remove "@ + host@,
{
    let mut s = owned("Mount path validation failed for '");
    append(&mut s, host);
    append(&mut s, "':\n  ");
    append(&mut s, error);
    append(&mut s, "\n\nDid the directory move? Run: occ mount remove ");
    append(&mut s, host);
    s
}

/// The error for a mount entry that does not parse.
pub fn invalid_mount_message(spec: &str, error: &str, from_config: bool) -> (s: String)
    ensures
        s@ == (if from_config { "Invalid config mount '"@ } else { "Invalid mount '"@ }) + spec@ + "': "@
            + error@,
{
    let mut s = owned(if from_config { "Invalid config mount '" } else { "Invalid mount '" });
    append(&mut s, spec);
    append(&mut s, "': ");
    append(&mut s, error);
    s
}

// ---------------------------------------------------------------------------
// Restart
// ---------------------------------------------------------------------------

/// How restart takes the container down before starting it.
#[derive(Debug, Clone, Copy, PartialEq, Eq, Structural)]
pub enum RestartStop {
    /// Stop and remove it, so that it is created with the new mounts.
    Recreate,
    /// Stop it.
    Stop,
    /// It is not running.
    NotRunning,
}

/// Recreating wins over stopping; a stopped container needs neither.
pub fn restart_stop_step(recreate: bool, running: bool) -> (s: RestartStop)
    ensures
        s == (if recreate {
            RestartStop::Recreate
        } else if running {
            RestartStop::Stop
        } else {
            RestartStop::NotRunning
        }),
{
    if recreate {
        RestartStop::Recreate
    } else if running {
        RestartStop::Stop
    } else {
        RestartStop::NotRunning
    }
}

/// Refusal after the user declined to recreate the container.
pub const MOUNTS_NOT_APPLIED_MESSAGE: &'static str = "Container not recreated. Mount changes were not applied.\nTo apply mount changes, run:\n  occ stop --remove\n  occ start";

/// The first twelve characters of a container id, as shown.
pub fn short_container_id(id: &str) -> (s: String)
    ensures
        s@ == id@.take(if id@.len() < 12 { id@.len() as int } else { 12 }),
{
    let c = crate::text::chars_of(id);
    let n = if c.len() < 12 {
        c.len()
    } else {
        12
    };
    let s = crate::text::string_of_range(&c, 0, n);
    assert(s@ =~= id@.take(n as int));
    s
}

// ---------------------------------------------------------------------------
// Mount cleanup report
// ---------------------------------------------------------------------------

/// A heading, then the items under it; nothing without items.
pub open spec fn spec_list_block(heading: Seq<Piece>, items: Seq<Seq<char>>, p: Paint) -> Seq<Seq<Piece>> {
    if items.len() == 0 {
        Seq::empty()
    } else {
        seq![heading] + item_lines(items, p)
    }
}

/// The directories a cleanup purged, or cleaned when it did not purge.
pub open spec fn spec_dirs_block(purge: bool, cleaned: Seq<Seq<char>>, purged: Seq<Seq<char>>) -> Seq<Seq<Piece>> {
    if purge {
        spec_list_block(plain_line("Purged mount directories:"@), purged, Paint::Cyan)
    } else {
        spec_list_block(plain_line("Cleaned mount directories:"@), cleaned, Paint::Cyan)
    }
}

/// Skipped items under a yellow heading, after a blank line; nothing without items.
pub open spec fn spec_skipped_block(heading: Seq<char>, items: Seq<Seq<char>>) -> Seq<Seq<Piece>> {
    if items.len() == 0 {
        Seq::empty()
    } else {
        seq![plain_line(Seq::empty())] + spec_list_block(seq![(heading, Some(Paint::Yellow))], items, Paint::Yellow)
    }
}

/// What a mount cleanup reports: the directories purged (or cleaned), then the
/// configured entries that did not parse and the mount paths that were skipped.
pub open spec fn spec_cleanup_report(
    purge: bool,
    cleaned: Seq<Seq<char>>,
    purged: Seq<Seq<char>>,
    skipped_paths: Seq<Seq<char>>,
    skipped_entries: Seq<Seq<char>>,
) -> Seq<Seq<Piece>> {
    spec_dirs_block(purge, cleaned, purged) + spec_skipped_block("Skipped invalid mount entries:"@, skipped_entries)
        + spec_skipped_block("Skipped mount paths:"@, skipped_paths)
}

fn push_block(
    out: &mut Vec<String>,
    heading: &Vec<(&str, Option<Paint>)>,
    items: &Vec<String>,
    p: Paint,
    Ghost(expected): Ghost<Seq<Seq<Piece>>>,
)
    requires
        shows_lines(string_views(old(out)@), expected),
        items@.len() > 0,
    ensures
        shows_lines(
            string_views(final(out)@),
            expected + spec_list_block(piece_views(heading@), string_views(items@), p),
        ),
{
    push_rendered(out, heading, Ghost(expected));
    let ghost e1 = expected.push(piece_views(heading@));
    push_items(out, items, p, Ghost(e1));
    assert(e1 + item_lines(string_views(items@), p) =~= expected + spec_list_block(
        piece_views(heading@),
        string_views(items@),
        p,
    ));
}

fn push_dirs_block(out: &mut Vec<String>, purge: bool, result: &MountCleanupResult, Ghost(expected): Ghost<Seq<Seq<Piece>>>)
    requires
        shows_lines(string_views(old(out)@), expected),
    ensures
        shows_lines(
            string_views(final(out)@),
            expected + spec_dirs_block(purge, string_views(result.cleaned@), string_views(result.purged@)),
        ),
{
    if purge {
        if result.purged.len() > 0 {
            let h: Vec<(&str, Option<Paint>)> = vec![("Purged mount directories:", None)];
            push_block(out, &h, &result.purged, Paint::Cyan, Ghost(expected));
            assert(piece_views(h@) =~~= plain_line("Purged mount directories:"@));
        } else {
            assert(expected + Seq::<Seq<Piece>>::empty() =~= expected);
        }
    } else if result.cleaned.len() > 0 {
        let h: Vec<(&str, Option<Paint>)> = vec![("Cleaned mount directories:", None)];
        push_block(out, &h, &result.cleaned, Paint::Cyan, Ghost(expected));
        assert(piece_views(h@) =~~= plain_line("Cleaned mount directories:"@));
    } else {
        assert(expected + Seq::<Seq<Piece>>::empty() =~= expected);
    }
}

fn push_skipped_block(out: &mut Vec<String>, heading: &str, items: &Vec<String>, Ghost(expected): Ghost<Seq<Seq<Piece>>>)
    requires
        shows_lines(string_views(old(out)@), expected),
    ensures
        shows_lines(string_views(final(out)@), expected + spec_skipped_block(heading@, string_views(items@))),
{
    if items.len() > 0 {
        push_plain(out, String::new(), Ghost(expected));
        let ghost e1 = expected.push(plain_line(Seq::empty()));
        let h: Vec<(&str, Option<Paint>)> = vec![(heading, Some(Paint::Yellow))];
        push_block(out, &h, items, Paint::Yellow, Ghost(e1));
        proof {
            reveal_strlit("");
            assert(piece_views(h@) =~~= seq![(heading@, Some(Paint::Yellow))]);
        }
        assert(e1 + spec_list_block(piece_views(h@), string_views(items@), Paint::Yellow) =~~= expected
            + spec_skipped_block(heading@, string_views(items@)));
    } else {
        assert(expected + Seq::<Seq<Piece>>::empty() =~= expected);
    }
}

/// The report of a mount cleanup; `skipped_entries` are the configured entries that
/// did not parse.
pub fn mount_cleanup_report_lines(purge: bool, result: &MountCleanupResult, skipped_entries: &Vec<String>) -> (r: Vec<String>)
    ensures
        shows_lines(
            string_views(r@),
            spec_cleanup_report(
                purge,
                string_views(result.cleaned@),
                string_views(result.purged@),
                string_views(result.skipped@),
                string_views(skipped_entries@),
            ),
        ),
{
    let mut r: Vec<String> = Vec::new();
    assert(string_views(r@) =~= Seq::<Seq<char>>::empty());
    push_dirs_block(&mut r, purge, result, Ghost(Seq::empty()));
    let ghost e1 = Seq::<Seq<Piece>>::empty() + spec_dirs_block(
        purge,
        string_views(result.cleaned@),
        string_views(result.purged@),
    );
    push_skipped_block(&mut r, "Skipped invalid mount entries:", skipped_entries, Ghost(e1));
    let ghost e2 = e1 + spec_skipped_block("Skipped invalid mount entries:"@, string_views(skipped_entries@));
    push_skipped_block(&mut r, "Skipped mount paths:", &result.skipped, Ghost(e2));
    assert(e2 + spec_skipped_block("Skipped mount paths:"@, string_views(result.skipped@)) =~= spec_cleanup_report(
        purge,
        string_views(result.cleaned@),
        string_views(result.purged@),
        string_views(result.skipped@),
        string_views(skipped_entries@),
    ));
    r
}

/// What `mount clean` says when no configured entry parses: that, and the entries.
pub fn no_valid_mounts_lines(skipped_entries: &Vec<String>) -> (r: Vec<String>)
    ensures
        shows_lines(
            string_views(r@),
            seq![plain_line("No valid mounts found to clean."@)] + spec_skipped_block(
                "Skipped invalid mount entries:"@,
                string_views(skipped_entries@),
            ),
        ),
{
    let mut r: Vec<String> = Vec::new();
    assert(string_views(r@) =~= Seq::<Seq<char>>::empty());
    push_plain(&mut r, owned("No valid mounts found to clean."), Ghost(Seq::empty()));
    let ghost e = Seq::<Seq<Piece>>::empty().push(plain_line("No valid mounts found to clean."@));
    push_skipped_block(&mut r, "Skipped invalid mount entries:", skipped_entries, Ghost(e));
    assert(e =~= seq![plain_line("No valid mounts found to clean."@)]);
    r
}

/// The errors of a mount cleanup, as reset reports them.
pub fn mount_cleanup_errors(result: &MountCleanupResult) -> (r: Vec<String>)
    ensures
        string_views(r@) == string_views(result.errors@).map_values(|e: Seq<char>| "Mount cleanup error: "@ + e),
{
    let ghost all = string_views(result.errors@);
    let mut r: Vec<String> = Vec::new();
    let mut i: usize = 0;
    while i < result.errors.len()
        invariant
            i <= result.errors@.len(),
            all == string_views(result.errors@),
            string_views(r@) == all.take(i as int).map_values(|e: Seq<char>| "Mount cleanup error: "@ + e),
        decreases result.errors@.len() - i,
    {
        let mut m = owned("Mount cleanup error: ");
        append(&mut m, result.errors[i].as_str());
        let ghost before = string_views(r@);
        r.push(m);
        proof {
            assert(all[i as int] == result.errors@[i as int]@);
            assert(all.take(i + 1) =~= all.take(i as int).push(all[i as int]));
            assert(string_views(r@) =~= before.push(m@));
        }
        assert(string_views(r@) =~= all.take(i + 1).map_values(|e: Seq<char>| "Mount cleanup error: "@ + e));
        i = i + 1;
    }
    assert(all.take(result.errors@.len() as int) =~= all);
    r
}

/// The message after removing a data directory.
pub fn removed_dir_line(label: &str, path: &str) -> (s: String)
    ensures
        shows_pieces(s@, seq![("Removed "@ + label@ + " directory: "@, None), (path@, Some(Paint::Dim))]),
{
    let mut head = owned("Removed ");
    append(&mut head, label);
    append(&mut head, " directory: ");
    let v: Vec<(&str, Option<Paint>)> = vec![(head.as_str(), None), (path, Some(Paint::Dim))];
    assert(piece_views(v@) =~~= seq![("Removed "@ + label@ + " directory: "@, None), (path@, Some(Paint::Dim))]);
    render(&v)
}

/// The error after failing to remove a data directory.
pub fn remove_dir_error(label: &str, path: &str, error: &str) -> (s: String)
    ensures
        s@ == "Failed to remove "@ + label@ + " directory "@ + path@ + ": "@ + error@,
{
    let mut s = owned("Failed to remove ");
    append(&mut s, label);
    append(&mut s, " directory ");
    append(&mut s, path);
    append(&mut s, ": ");
    append(&mut s, error);
    s
}

// ---------------------------------------------------------------------------
// Adding a mount
// ---------------------------------------------------------------------------

/// What happens to a mount whose target is a system path: without `--force` it is
/// refused; with it the warning is still shown unless quiet.
#[derive(Debug, Clone, Copy, PartialEq, Eq, Structural)]
pub enum SystemPathCheck {
    Refuse,
    Warn,
    Silent,
}

/// How a system-path warning is handled.
pub fn system_path_check(has_warning: bool, force: bool, quiet: bool) -> (c: SystemPathCheck)
    ensures
        c == (if !has_warning {
            SystemPathCheck::Silent
        } else if !force {
            SystemPathCheck::Refuse
        } else if quiet {
            SystemPathCheck::Silent
        } else {
            SystemPathCheck::Warn
        }),
{
    if !has_warning {
        SystemPathCheck::Silent
    } else if !force {
        SystemPathCheck::Refuse
    } else if quiet {
        SystemPathCheck::Silent
    } else {
        SystemPathCheck::Warn
    }
}

/// The refusal of a mount onto a system path.
pub const SYSTEM_PATH_REFUSED: &'static str = "Mount target is a system path. Use --force to override.";

/// What is shown before refusing a mount onto a system path.
pub open spec fn spec_system_path_refusal(warning: Seq<char>) -> Seq<Seq<Piece>> {
    seq![
        seq![(warning, Some(Paint::Yellow))],
        plain_line(Seq::empty()),
        seq![("Use "@, None), ("--force"@, Some(Paint::Cyan)), (" to add anyway."@, None)],
    ]
}

/// The lines shown before refusing a mount onto a system path.
pub fn system_path_refusal_lines(warning: &str) -> (r: Vec<String>)
    ensures
        shows_lines(string_views(r@), spec_system_path_refusal(warning@)),
{
    let lines: Vec<Vec<(&str, Option<Paint>)>> = vec![
        vec![(warning, Some(Paint::Yellow))],
        vec![("", None)],
        vec![("Use ", None), ("--force", Some(Paint::Cyan)), (" to add anyway.", None)],
    ];
    let r = render_lines(&lines);
    proof {
        reveal_strlit("");
    }
    assert(line_pieces(lines@) =~~= spec_system_path_refusal(warning@));
    r
}

/// The note after changing mounts.
pub const MOUNT_RESTART_NOTE: &'static str = "Note: Run `occ restart` to apply mount changes. If mounts changed, you will be prompted to recreate the container.";

/// The report after adding a mount: already there; added; or replacing the earlier
/// mounts of its target, with how to undo that. A change ends with the note on
/// restarting.
pub open spec fn spec_mount_add_report(m: MountView, outcome: UpsertOutcomeView) -> Seq<Seq<Piece>> {
    let note = seq![plain_line(Seq::empty()), seq![(MOUNT_RESTART_NOTE@, Some(Paint::Dim))]];
    let mode = " ("@ + spec_mode_word(m.read_only) + ")"@;
    match outcome {
        UpsertOutcomeView::AlreadyConfigured => seq![
            seq![
                ("Mount already configured: "@, None),
                (m.host, Some(Paint::Cyan)),
                (" -> "@, None),
                (m.target, Some(Paint::Cyan)),
            ],
        ],
        UpsertOutcomeView::Added => seq![
            seq![
                ("Added mount: "@, None),
                (m.host, Some(Paint::Cyan)),
                (" -> "@, None),
                (m.target, Some(Paint::Cyan)),
                (mode, None),
            ],
        ] + note,
        UpsertOutcomeView::Replaced(prev) => seq![
            seq![
                ("Replaced mount target "@, None),
                (m.target, Some(Paint::Cyan)),
                (" with "@, None),
                (m.host, Some(Paint::Cyan)),
                (" -> "@, None),
                (m.target, Some(Paint::Cyan)),
                (mode, None),
            ],
            plain_line(Seq::empty()),
            plain_line("Previous mount(s) for this target:"@),
        ] + prev.map_values(|p: MountView| plain_line("  - "@ + spec_mount_display(p))) + seq![
            plain_line(Seq::empty()),
            plain_line("If this replacement was not intended:"@),
            seq![("  1) Remove the new mount: "@, None), ("occ mount remove "@ + m.host, Some(Paint::Cyan))],
            if prev.len() > 0 {
                seq![
                    ("  2) Re-add a previous mount: "@, None),
                    ("occ mount add "@ + spec_mount_spec(prev.last()), Some(Paint::Cyan)),
                ]
            } else {
                seq![
                    ("  2) Re-add your previous mount with: "@, None),
                    ("occ mount add /host/path:/container/path[:ro]"@, Some(Paint::Cyan)),
                ]
            },
        ] + note,
    }
}

fn push_note(out: &mut Vec<String>, Ghost(expected): Ghost<Seq<Seq<Piece>>>)
    requires
        shows_lines(string_views(old(out)@), expected),
    ensures
        shows_lines(
            string_views(final(out)@),
            expected + seq![plain_line(Seq::empty()), seq![(MOUNT_RESTART_NOTE@, Some(Paint::Dim))]],
        ),
{
    push_plain(out, String::new(), Ghost(expected));
    let ghost e1 = expected.push(plain_line(Seq::empty()));
    let v: Vec<(&str, Option<Paint>)> = vec![(MOUNT_RESTART_NOTE, Some(Paint::Dim))];
    push_rendered(out, &v, Ghost(e1));
    assert(e1.push(piece_views(v@)) =~~= expected + seq![
        plain_line(Seq::empty()),
        seq![(MOUNT_RESTART_NOTE@, Some(Paint::Dim))],
    ]);
}

fn push_previous_mounts(out: &mut Vec<String>, prev: &Vec<ParsedMount>, Ghost(expected): Ghost<Seq<Seq<Piece>>>)
    requires
        shows_lines(string_views(old(out)@), expected),
    ensures
        shows_lines(
            string_views(final(out)@),
            expected + mount_views(prev@).map_values(|p: MountView| plain_line("  - "@ + spec_mount_display(p))),
        ),
{
    let ghost all = mount_views(prev@);
    let mut i: usize = 0;
    assert(expected + all.take(0).map_values(|p: MountView| plain_line("  - "@ + spec_mount_display(p))) =~= expected);
    while i < prev.len()
        invariant
            i <= prev@.len(),
            all == mount_views(prev@),
            shows_lines(
                string_views(out@),
                expected + all.take(i as int).map_values(|p: MountView| plain_line("  - "@ + spec_mount_display(p))),
            ),
        decreases prev@.len() - i,
    {
        let ghost before = expected + all.take(i as int).map_values(
            |p: MountView| plain_line("  - "@ + spec_mount_display(p)),
        );
        let mut t = owned("  - ");
        let d = crate::mounts::format_mount_display(&prev[i]);
        append(&mut t, d.as_str());
        push_plain(out, t, Ghost(before));
        proof {
            assert(all[i as int] == prev@[i as int]@);
            assert(all.take(i + 1) =~= all.take(i as int).push(all[i as int]));
            assert(before.push(plain_line(t@)) =~~= expected + all.take(i + 1).map_values(
                |p: MountView| plain_line("  - "@ + spec_mount_display(p)),
            ));
        }
        i = i + 1;
    }
    assert(all.take(prev@.len() as int) =~= all);
}

/// The report after adding a mount.
pub fn mount_add_report_lines(parsed: &ParsedMount, outcome: &MountUpsertOutcome) -> (r: Vec<String>)
    ensures
        shows_lines(string_views(r@), spec_mount_add_report(parsed@, outcome@)),
{
    let mode = if parsed.read_only { " (ro)" } else { " (rw)" };
    proof {
        reveal_strlit("");
        reveal_strlit(" (ro)");
        reveal_strlit(" (rw)");
        reveal_strlit(" (");
        reveal_strlit(")");
        reveal_strlit("ro");
        reveal_strlit("rw");
        assert(mode@ =~= " ("@ + spec_mode_word(parsed.read_only) + ")"@);
    }
    match outcome {
        MountUpsertOutcome::AlreadyConfigured => {
            let lines: Vec<Vec<(&str, Option<Paint>)>> = vec![
                vec![
                    ("Mount already configured: ", None),
                    (parsed.host_path.as_str(), Some(Paint::Cyan)),
                    (" -> ", None),
                    (parsed.container_path.as_str(), Some(Paint::Cyan)),
                ],
            ];
            let r = render_lines(&lines);
            assert(line_pieces(lines@) =~~= spec_mount_add_report(parsed@, outcome@));
            r
        },
        MountUpsertOutcome::Added => {
            let lines: Vec<Vec<(&str, Option<Paint>)>> = vec![
                vec![
                    ("Added mount: ", None),
                    (parsed.host_path.as_str(), Some(Paint::Cyan)),
                    (" -> ", None),
                    (parsed.container_path.as_str(), Some(Paint::Cyan)),
                    (mode, None),
                ],
            ];
            let mut r = render_lines(&lines);
            push_note(&mut r, Ghost(line_pieces(lines@)));
            assert(line_pieces(lines@) + seq![
                plain_line(Seq::empty()),
                seq![(MOUNT_RESTART_NOTE@, Some(Paint::Dim))],
            ] =~~= spec_mount_add_report(parsed@, outcome@));
            r
        },
        MountUpsertOutcome::Replaced { replaced_mounts } => {
            let head: Vec<Vec<(&str, Option<Paint>)>> = vec![
                vec![
                    ("Replaced mount target ", None),
                    (parsed.container_path.as_str(), Some(Paint::Cyan)),
                    (" with ", None),
                    (parsed.host_path.as_str(), Some(Paint::Cyan)),
                    (" -> ", None),
                    (parsed.container_path.as_str(), Some(Paint::Cyan)),
                    (mode, None),
                ],
                vec![("", None)],
                vec![("Previous mount(s) for this target:", None)],
            ];
            let mut r = render_lines(&head);
            let ghost e0 = line_pieces(head@);
            push_previous_mounts(&mut r, replaced_mounts, Ghost(e0));
            let ghost prev = mount_views(replaced_mounts@);
            let ghost e1 = e0 + prev.map_values(|p: MountView| plain_line("  - "@ + spec_mount_display(p)));
            let mut remove_cmd = owned("occ mount remove ");
            append(&mut remove_cmd, parsed.host_path.as_str());
            let mut readd: String = owned("occ mount add ");
            let second: &str = if replaced_mounts.len() > 0 {
                let spec = crate::mounts::mount_to_spec(&replaced_mounts[replaced_mounts.len() - 1]);
                append(&mut readd, spec.as_str());
                proof {
                    assert(prev.last() == replaced_mounts@[replaced_mounts@.len() - 1]@);
                    assert(readd@ =~= "occ mount add "@ + spec_mount_spec(prev.last()));
                }
                "  2) Re-add a previous mount: "
            } else {
                append(&mut readd, "/host/path:/container/path[:ro]");
                assert(readd@ =~= "occ mount add /host/path:/container/path[:ro]"@) by {
                    reveal_strlit("occ mount add ");
                    reveal_strlit("/host/path:/container/path[:ro]");
                    reveal_strlit("occ mount add /host/path:/container/path[:ro]");
                }
                "  2) Re-add your previous mount with: "
            };
            let tail: Vec<Vec<(&str, Option<Paint>)>> = vec![
                vec![("", None)],
                vec![("If this replacement was not intended:", None)],
                vec![("  1) Remove the new mount: ", None), (remove_cmd.as_str(), Some(Paint::Cyan))],
                vec![(second, None), (readd.as_str(), Some(Paint::Cyan))],
            ];
            proof {
                assert(outcome@ == UpsertOutcomeView::Replaced(prev));
                assert(remove_cmd@ =~= "occ mount remove "@ + parsed@.host);
                let expected_tail = seq![
                    plain_line(Seq::empty()),
                    plain_line("If this replacement was not intended:"@),
                    seq![("  1) Remove the new mount: "@, None), ("occ mount remove "@ + parsed@.host, Some(Paint::Cyan))],
                    if prev.len() > 0 {
                        seq![
                            ("  2) Re-add a previous mount: "@, None),
                            ("occ mount add "@ + spec_mount_spec(prev.last()), Some(Paint::Cyan)),
                        ]
                    } else {
                        seq![
                            ("  2) Re-add your previous mount with: "@, None),
                            ("occ mount add /host/path:/container/path[:ro]"@, Some(Paint::Cyan)),
                        ]
                    },
                ];
                assert(line_pieces(tail@) =~~= expected_tail);
                let expected_head = seq![
                    seq![
                        ("Replaced mount target "@, None),
                        (parsed@.target, Some(Paint::Cyan)),
                        (" with "@, None),
                        (parsed@.host, Some(Paint::Cyan)),
                        (" -> "@, None),
                        (parsed@.target, Some(Paint::Cyan)),
                        (" ("@ + spec_mode_word(parsed@.read_only) + ")"@, None),
                    ],
                    plain_line(Seq::empty()),
                    plain_line("Previous mount(s) for this target:"@),
                ];
                assert(e0 =~~= expected_head);
            }
            let rest = render_lines(&tail);
            push_all_lines(&mut r, rest, Ghost(e1), Ghost(line_pieces(tail@)));
            let ghost e2 = e1 + line_pieces(tail@);
            push_note(&mut r, Ghost(e2));
            assert(e2 + seq![
                plain_line(Seq::empty()),
                seq![(MOUNT_RESTART_NOTE@, Some(Paint::Dim))],
            ] =~~= spec_mount_add_report(parsed@, outcome@));
            r
        },
    }
}

/// The verbose note on which Docker host is used.
pub fn connecting_notice(host_name: Option<&str>) -> (s: String)
    ensures
        shows_pieces(
            s@,
            seq![
                ("[info]"@, Some(Paint::Cyan)),
                (" Connecting to Docker on "@ + match host_name {
                    Some(n) => n@,
                    None => "local"@,
                } + "..."@, None),
            ],
        ),
{
    let mut t = owned(" Connecting to Docker on ");
    append(
        &mut t,
        match host_name {
            Some(n) => n,
            None => "local",
        },
    );
    append(&mut t, "...");
    let v: Vec<(&str, Option<Paint>)> = vec![("[info]", Some(Paint::Cyan)), (t.as_str(), None)];
    assert(piece_views(v@) =~~= seq![
        ("[info]"@, Some(Paint::Cyan)),
        (" Connecting to Docker on "@ + match host_name {
            Some(n) => n@,
            None => "local"@,
        } + "..."@, None),
    ]);
    render(&v)
}

/// A list of mounts under `label`: `(none)` when empty, else each as its
/// specification string.
pub open spec fn spec_mount_list(label: Seq<char>, specs: Seq<Seq<char>>) -> Seq<Seq<Piece>> {
    if specs.len() == 0 {
        seq![seq![("  "@ + label + ": "@, None), ("(none)"@, Some(Paint::Dim))]]
    } else {
        seq![plain_line("  "@ + label + ":"@)] + specs.map_values(|t: Seq<char>| plain_line("    - "@ + t))
    }
}

fn push_mount_list(out: &mut Vec<String>, label: &str, specs: &Vec<String>, Ghost(expected): Ghost<Seq<Seq<Piece>>>)
    requires
        shows_lines(string_views(old(out)@), expected),
    ensures
        shows_lines(string_views(final(out)@), expected + spec_mount_list(label@, string_views(specs@))),
{
    let ghost all = string_views(specs@);
    if specs.len() == 0 {
        let mut head = owned("  ");
        append(&mut head, label);
        append(&mut head, ": ");
        let v: Vec<(&str, Option<Paint>)> = vec![(head.as_str(), None), ("(none)", Some(Paint::Dim))];
        push_rendered(out, &v, Ghost(expected));
        assert(expected.push(piece_views(v@)) =~~= expected + spec_mount_list(label@, all));
        return;
    }
    let mut head = owned("  ");
    append(&mut head, label);
    append(&mut head, ":");
    let ghost hv = head@;
    push_plain(out, head, Ghost(expected));
    let ghost e0 = expected.push(plain_line(hv));
    let mut i: usize = 0;
    assert(e0 + all.take(0).map_values(|t: Seq<char>| plain_line("    - "@ + t)) =~= e0);
    while i < specs.len()
        invariant
            i <= specs@.len(),
            all == string_views(specs@),
            shows_lines(string_views(out@), e0 + all.take(i as int).map_values(|t: Seq<char>| plain_line("    - "@ + t))),
        decreases specs@.len() - i,
    {
        let ghost before = e0 + all.take(i as int).map_values(|t: Seq<char>| plain_line("    - "@ + t));
        let mut line = owned("    - ");
        append(&mut line, specs[i].as_str());
        push_plain(out, line, Ghost(before));
        proof {
            assert(all[i as int] == specs@[i as int]@);
            assert(all.take(i + 1) =~= all.take(i as int).push(all[i as int]));
            assert(before.push(plain_line(line@)) =~~= e0 + all.take(i + 1).map_values(
                |t: Seq<char>| plain_line("    - "@ + t),
            ));
        }
        i = i + 1;
    }
    assert(all.take(specs@.len() as int) =~= all);
    assert(e0 + all.map_values(|t: Seq<char>| plain_line("    - "@ + t)) =~~= expected + spec_mount_list(label@, all));
}

/// What is shown when the configured mounts differ from the container's: the
/// container's mounts, the configured ones, and what recreating it does.
pub open spec fn spec_mount_mismatch(current: Seq<MountView>, configured: Seq<MountView>) -> Seq<Seq<Piece>> {
    seq![
        plain_line(Seq::empty()),
        seq![
            ("Mount configuration changed:"@, Some(Paint::YellowBold)),
            (" "@, None),
            ("Container must be recreated to apply mount changes."@, Some(Paint::Yellow)),
        ],
        plain_line(Seq::empty()),
    ] + spec_mount_list("Current mounts"@, current.map_values(|m: MountView| spec_mount_spec(m)))
        + spec_mount_list("Configured mounts"@, configured.map_values(|m: MountView| spec_mount_spec(m))) + seq![
        plain_line(Seq::empty()),
        seq![("This will stop and recreate the container from the existing image."@, Some(Paint::Dim))],
        seq![("Your data volumes will be preserved."@, Some(Paint::Dim))],
        plain_line(Seq::empty()),
    ]
}

fn bind_specs(mounts: &Vec<ContainerBindMount>) -> (r: Vec<String>)
    ensures
        string_views(r@) == bind_views(mounts@).map_values(|m: MountView| spec_mount_spec(m)),
{
    let ghost all = bind_views(mounts@);
    let mut r: Vec<String> = Vec::new();
    let mut i: usize = 0;
    while i < mounts.len()
        invariant
            i <= mounts@.len(),
            all == bind_views(mounts@),
            string_views(r@) == all.take(i as int).map_values(|m: MountView| spec_mount_spec(m)),
        decreases mounts@.len() - i,
    {
        let mut t = mounts[i].source.clone();
        append(&mut t, ":");
        append(&mut t, mounts[i].target.as_str());
        append(&mut t, if mounts[i].read_only { ":ro" } else { "" });
        let ghost before = string_views(r@);
        r.push(t);
        proof {
            assert(all[i as int] == mounts@[i as int]@);
            assert(t@ == spec_mount_spec(all[i as int]));
            assert(all.take(i + 1) =~= all.take(i as int).push(all[i as int]));
            assert(string_views(r@) =~= before.push(t@));
        }
        assert(string_views(r@) =~= all.take(i + 1).map_values(|m: MountView| spec_mount_spec(m)));
        i = i + 1;
    }
    assert(all.take(mounts@.len() as int) =~= all);
    r
}

fn parsed_specs(mounts: &Vec<ParsedMount>) -> (r: Vec<String>)
    ensures
        string_views(r@) == mount_views(mounts@).map_values(|m: MountView| spec_mount_spec(m)),
{
    let ghost all = mount_views(mounts@);
    let mut r: Vec<String> = Vec::new();
    let mut i: usize = 0;
    while i < mounts.len()
        invariant
            i <= mounts@.len(),
            all == mount_views(mounts@),
            string_views(r@) == all.take(i as int).map_values(|m: MountView| spec_mount_spec(m)),
        decreases mounts@.len() - i,
    {
        let t = crate::mounts::mount_to_spec(&mounts[i]);
        let ghost before = string_views(r@);
        r.push(t);
        proof {
            assert(all[i as int] == mounts@[i as int]@);
            assert(all.take(i + 1) =~= all.take(i as int).push(all[i as int]));
            assert(string_views(r@) =~= before.push(t@));
        }
        assert(string_views(r@) =~= all.take(i + 1).map_values(|m: MountView| spec_mount_spec(m)));
        i = i + 1;
    }
    assert(all.take(mounts@.len() as int) =~= all);
    r
}

/// The lines shown when the container's mounts differ from the configured ones.
pub fn mount_mismatch_lines(current: &Vec<ContainerBindMount>, configured: &Vec<ParsedMount>) -> (r: Vec<String>)
    ensures
        shows_lines(string_views(r@), spec_mount_mismatch(bind_views(current@), mount_views(configured@))),
{
    let head: Vec<Vec<(&str, Option<Paint>)>> = vec![
        vec![("", None)],
        vec![
            ("Mount configuration changed:", Some(Paint::YellowBold)),
            (" ", None),
            ("Container must be recreated to apply mount changes.", Some(Paint::Yellow)),
        ],
        vec![("", None)],
    ];
    let mut r = render_lines(&head);
    let ghost e0 = line_pieces(head@);
    let cur = bind_specs(current);
    push_mount_list(&mut r, "Current mounts", &cur, Ghost(e0));
    let ghost e1 = e0 + spec_mount_list("Current mounts"@, string_views(cur@));
    let conf = parsed_specs(configured);
    push_mount_list(&mut r, "Configured mounts", &conf, Ghost(e1));
    let ghost e2 = e1 + spec_mount_list("Configured mounts"@, string_views(conf@));
    let tail: Vec<Vec<(&str, Option<Paint>)>> = vec![
        vec![("", None)],
        vec![("This will stop and recreate the container from the existing image.", Some(Paint::Dim))],
        vec![("Your data volumes will be preserved.", Some(Paint::Dim))],
        vec![("", None)],
    ];
    let rest = render_lines(&tail);
    push_all_lines(&mut r, rest, Ghost(e2), Ghost(line_pieces(tail@)));
    proof {
        reveal_strlit("");
    }
    assert(e2 + line_pieces(tail@) =~~= spec_mount_mismatch(bind_views(current@), mount_views(configured@)));
    r
}

} // verus!
