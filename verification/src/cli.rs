//! Top-level command line decisions: runtime mode, target host, preflight checks
//! and the arguments of the service commands.

use vstd::prelude::*;
use crate::style::{is_painted_then, paint, spec_to_lowercase, to_lowercase, Paint};
use crate::text::{append, owned, str_eq};

verus! {

// ---------------------------------------------------------------------------
// Command arguments
// ---------------------------------------------------------------------------

/// Arguments of `start`.
#[derive(Debug, Clone, Default)]
pub struct StartArgs {
    pub port: Option<u16>,
    pub open: bool,
    pub no_daemon: bool,
    pub pull_sandbox_image: bool,
    pub cached_rebuild_sandbox_image: bool,
    pub full_rebuild_sandbox_image: bool,
    pub local_opencode_submodule: bool,
    pub ignore_version: bool,
    pub no_update_check: bool,
    pub mounts: Vec<String>,
    pub no_mounts: bool,
}

/// Arguments of `stop`.
#[derive(Debug, Clone, Copy, Default)]
pub struct StopArgs {
    /// Graceful shutdown timeout in seconds.
    pub timeout: i64,
    /// Remove the container after stopping.
    pub remove: bool,
}

/// The graceful shutdown timeout when none is given, in seconds.
pub const DEFAULT_STOP_TIMEOUT_SECS: i64 = 30;

/// Arguments of `restart`.
#[derive(Debug, Clone, Copy, Default)]
pub struct RestartArgs {}

/// Arguments of `status`.
#[derive(Debug, Clone, Copy, Default)]
pub struct StatusArgs {}

/// Arguments of `setup`.
#[derive(Debug, Clone, Default)]
pub struct SetupArgs {
    /// Skip confirmation prompts.
    pub yes: bool,
    /// Non-interactive setup.
    pub bootstrap: bool,
    pub remote_host: Option<String>,
    pub local: bool,
}

/// The subcommands, by name.
#[derive(Debug, Clone, Copy, PartialEq, Eq, Structural)]
pub enum CommandName {
    Start,
    Stop,
    Restart,
    Status,
    Logs,
    Install,
    Uninstall,
    Config,
    Setup,
    User,
    Mount,
    Reset,
    Update,
    Cockpit,
    Host,
}

// ---------------------------------------------------------------------------
// Runtime mode
// ---------------------------------------------------------------------------

/// The runtime asked for (`--runtime` or `OPENCODE_RUNTIME`).
#[derive(Debug, Clone, Copy, PartialEq, Eq, Structural)]
pub enum RuntimeChoice {
    Auto,
    Host,
    Container,
}

/// The runtime the command runs in.
#[derive(Debug, Clone, Copy, PartialEq, Eq, Structural)]
pub enum RuntimeMode {
    Host,
    Container,
}

/// What the command line holds, for the preflight decision.
#[derive(Debug, Clone, Copy, PartialEq, Eq, Structural)]
pub enum CommandKind {
    /// No subcommand.
    NoCommand,
    Status,
    Other,
}

/// Inside an opencode container: both a container marker and an opencode image
/// marker are present.
pub fn container_runtime_from_markers(is_container: bool, is_opencode_image: bool) -> (b: bool)
    ensures
        b == (is_container && is_opencode_image),
{
    is_container && is_opencode_image
}

/// The runtime mode, and whether it was detected: an explicit choice wins; `auto`
/// follows detection.
pub open spec fn spec_resolve_runtime(choice: RuntimeChoice, auto_container: bool) -> (RuntimeMode, bool) {
    match choice {
        RuntimeChoice::Host => (RuntimeMode::Host, false),
        RuntimeChoice::Container => (RuntimeMode::Container, false),
        RuntimeChoice::Auto => (
            if auto_container {
                RuntimeMode::Container
            } else {
                RuntimeMode::Host
            },
            auto_container,
        ),
    }
}

/// Resolves the runtime mode from the choice and the detection result.
pub fn resolve_runtime_with_autodetect(choice: RuntimeChoice, auto_container: bool) -> (r: (
    RuntimeMode,
    bool,
))
    ensures
        r == spec_resolve_runtime(choice, auto_container),
{
    match choice {
        RuntimeChoice::Host => (RuntimeMode::Host, false),
        RuntimeChoice::Container => (RuntimeMode::Container, false),
        RuntimeChoice::Auto => {
            let mode = if auto_container {
                RuntimeMode::Container
            } else {
                RuntimeMode::Host
            };
            (mode, auto_container)
        },
    }
}

/// The runtime named by the `OPENCODE_RUNTIME` value, in any case.
pub open spec fn spec_runtime_choice(value: Seq<char>) -> Option<RuntimeChoice> {
    runtime_choice_of_lowered(spec_to_lowercase(value))
}

/// The runtime named by a lowercased value.
pub open spec fn runtime_choice_of_lowered(l: Seq<char>) -> Option<RuntimeChoice> {
    if l == "auto"@ {
        Some(RuntimeChoice::Auto)
    } else if l == "host"@ {
        Some(RuntimeChoice::Host)
    } else if l == "container"@ {
        Some(RuntimeChoice::Container)
    } else {
        None
    }
}

/// Reads the `OPENCODE_RUNTIME` value.
pub fn runtime_choice_from_value(value: &str) -> (r: Option<RuntimeChoice>)
    ensures
        r == spec_runtime_choice(value@),
        (forall|i: int| 0 <= i < value@.len() ==> (#[trigger] value@[i] as u32) < 128) ==> r
            == runtime_choice_of_lowered(crate::text::spec_ascii_lowercase(value@)),
{
    let lower = to_lowercase(value);
    let l = lower.as_str();
    if str_eq(l, "auto") {
        Some(RuntimeChoice::Auto)
    } else if str_eq(l, "host") {
        Some(RuntimeChoice::Host)
    } else if str_eq(l, "container") {
        Some(RuntimeChoice::Container)
    } else {
        None
    }
}

/// The runtime asked for: the flag, else the environment, else `auto`.
pub fn effective_runtime_choice(flag: Option<RuntimeChoice>, env: Option<RuntimeChoice>) -> (r:
    RuntimeChoice)
    ensures
        r == (match flag {
            Some(c) => c,
            None => match env {
                Some(c) => c,
                None => RuntimeChoice::Auto,
            },
        }),
{
    match flag {
        Some(c) => c,
        None => match env {
            Some(c) => c,
            None => RuntimeChoice::Auto,
        },
    }
}

/// The kind of a command line.
pub fn command_kind(command: Option<CommandName>) -> (k: CommandKind)
    ensures
        k == (match command {
            None => CommandKind::NoCommand,
            Some(CommandName::Status) => CommandKind::Status,
            Some(_) => CommandKind::Other,
        }),
{
    match command {
        None => CommandKind::NoCommand,
        Some(CommandName::Status) => CommandKind::Status,
        Some(_) => CommandKind::Other,
    }
}

/// The local asset drift check runs before local, non-quiet commands other than
/// `status` (which reports drift itself) and the bare invocation.
pub fn should_run_runtime_asset_preflight(kind: CommandKind, target_host: Option<&str>, quiet: bool) -> (b:
    bool)
    ensures
        b == (!quiet && target_host is None && kind == CommandKind::Other),
{
    if quiet || target_host.is_some() {
        return false;
    }
    matches!(kind, CommandKind::Other)
}

/// Which commands run inside the container runtime.
#[derive(Debug, Clone, Copy, PartialEq, Eq, Structural)]
pub enum ContainerDispatch {
    Status,
    Logs,
    User,
    Update,
    Unsupported,
}

/// In the container runtime only status, logs, user and update run; no subcommand
/// means status.
pub fn container_dispatch(command: Option<CommandName>) -> (d: ContainerDispatch)
    ensures
        d == (match command {
            None => ContainerDispatch::Status,
            Some(CommandName::Status) => ContainerDispatch::Status,
            Some(CommandName::Logs) => ContainerDispatch::Logs,
            Some(CommandName::User) => ContainerDispatch::User,
            Some(CommandName::Update) => ContainerDispatch::Update,
            Some(_) => ContainerDispatch::Unsupported,
        }),
{
    match command {
        None => ContainerDispatch::Status,
        Some(CommandName::Status) => ContainerDispatch::Status,
        Some(CommandName::Logs) => ContainerDispatch::Logs,
        Some(CommandName::User) => ContainerDispatch::User,
        Some(CommandName::Update) => ContainerDispatch::Update,
        Some(_) => ContainerDispatch::Unsupported,
    }
}

/// Refusal of a command the container runtime does not run.
pub const CONTAINER_MODE_UNSUPPORTED_MESSAGE: &'static str = "Command not supported in container runtime.\nSupported commands:\n  occ status\n  occ logs\n  occ user\n  occ update opencode\nTo force host runtime:\n  occ --runtime host <command>\n  OPENCODE_RUNTIME=host occ <command>";

/// Refusal of host selection flags in the container runtime.
pub const CONTAINER_MODE_HOST_FLAGS_MESSAGE: &'static str = "Remote and local Docker flags are not supported in container runtime.\nUse host mode instead:\n  occ --runtime host <command>";

/// The container runtime takes neither `--remote-host` nor `--local`.
pub fn check_container_mode_flags(remote_host: Option<&str>, local: bool) -> (r: Result<(), String>)
    ensures
        r is Ok <==> (remote_host is None && !local),
        r matches Err(e) ==> e@ == CONTAINER_MODE_HOST_FLAGS_MESSAGE@,
{
    if remote_host.is_some() || local {
        return Err(owned(CONTAINER_MODE_HOST_FLAGS_MESSAGE));
    }
    Ok(())
}

/// The note shown when the container runtime was detected automatically.
pub fn should_note_auto_container(auto_container: bool, choice: RuntimeChoice, quiet: bool) -> (b: bool)
    ensures
        b == (auto_container && choice == RuntimeChoice::Auto && !quiet),
{
    auto_container && choice == RuntimeChoice::Auto && !quiet
}

/// `setup --bootstrap` and `setup --yes` skip the first-run wizard.
pub fn skips_wizard(command: Option<CommandName>, setup: &SetupArgs) -> (b: bool)
    ensures
        b == (command == Some(CommandName::Setup) && (setup.bootstrap || setup.yes)),
{
    match command {
        Some(CommandName::Setup) => setup.bootstrap || setup.yes,
        _ => false,
    }
}

// ---------------------------------------------------------------------------
// Target host
// ---------------------------------------------------------------------------

/// The host a command targets: none with `--local`; else the one named by
/// `--remote-host`; else the configured default host.
pub fn resolve_target_host(remote_host: Option<&str>, force_local: bool, default_host: Option<String>) -> (r:
    Option<String>)
    ensures
        force_local ==> r is None,
        !force_local ==> match remote_host {
            Some(n) => r matches Some(h) && h@ == n@,
            None => r == default_host,
        },
{
    if force_local {
        return None;
    }
    match remote_host {
        Some(name) => Some(owned(name)),
        None => default_host,
    }
}

/// A message about a remote host starts with the host's name in brackets (shown in
/// cyan); a local message is unchanged.
pub fn format_host_message(host_name: Option<&str>, message: &str) -> (s: String)
    ensures
        match host_name {
            Some(n) => exists|c: Seq<char>|
                is_painted_then(c, n@, Paint::Cyan, Seq::empty()) && s@ == "["@ + c + "] "@ + message@,
            None => s@ == message@,
        },
{
    match host_name {
        Some(name) => {
            let c = paint(name, Paint::Cyan);
            let mut s = owned("[");
            append(&mut s, c.as_str());
            append(&mut s, "] ");
            append(&mut s, message);
            proof {
                assert(c@ + Seq::<char>::empty() =~= c@);
                assert(is_painted_then(c@, name@, Paint::Cyan, Seq::empty()));
            }
            s
        },
        None => owned(message),
    }
}

/// The banner shown under the help text.
pub const BANNER: &'static str = "\n  ___  _ __   ___ _ __   ___ ___   __| | ___\n / _ \\| '_ \\ / _ \\ '_ \\ / __/ _ \\ / _` |/ _ \\\n| (_) | |_) |  __/ | | | (_| (_) | (_| |  __/\n \\___/| .__/ \\___|_| |_|\\___\\___/ \\__,_|\\___|\n      |_|                            cloud\n";

/// The banner shown under the help text.
pub fn get_banner() -> (s: &'static str)
    ensures
        s@ == BANNER@,
{
    BANNER
}

} // verus!
