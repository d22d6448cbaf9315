//! The host-side listener for update requests that the web app leaves in a command
//! file on the state bind mount: where the files are, when a request is read, what
//! is run for it and what result is written back.
//!
//! The listener loop itself (timers, the file system, JSON and the update run) is
//! outside the library; each of its decisions is a function here.

use vstd::prelude::*;
use crate::mounts::{config_views, targets, ConfigMount, ConfigMountView, MountView, ParsedMount};
use crate::text::{append, owned, str_eq};
use crate::update::UpdateOpencodeArgs;

verus! {

/// The container path of the opencode state directory.
pub const MOUNT_STATE: &'static str = "/home/opencoder/.local/state/opencode";

/// The command directory, relative to the state directory.
pub const COMMAND_DIR_SUFFIX: &'static str = "opencode-cloud/commands";

/// The file the web app writes a request to.
pub const COMMAND_FILE_NAME: &'static str = "update-command.json";

/// The file the listener writes the result to.
pub const RESULT_FILE_NAME: &'static str = "update-command.result.json";

/// Seconds between two looks at the command file.
pub const COMMAND_POLL_INTERVAL_SECS: u64 = 2;

/// A request that does not parse is given this long (milliseconds since the file
/// was modified) to be finished by its writer.
pub const COMMAND_WRITE_GRACE_MILLIS: u128 = 2000;

/// Milliseconds that must pass after one request before the next is read.
pub const MIN_REQUEST_INTERVAL_MILLIS: u128 = 5000;

/// The only command the listener runs.
pub const UPDATE_OPENCODE_COMMAND: &'static str = "update_opencode";

/// A request read from the command file.
#[derive(Debug, Clone, PartialEq, Eq)]
pub struct UpdateCommandRequest {
    pub command: String,
    pub request_id: Option<String>,
    pub branch: Option<String>,
    pub commit: Option<String>,
}

/// The result written back for a request.
#[derive(Debug, Clone, PartialEq, Eq)]
pub struct UpdateCommandResult {
    /// `success` or `error`.
    pub status: String,
    pub request_id: Option<String>,
    pub message: String,
    /// RFC 3339 times of the start and the end of the run.
    pub started_at: String,
    pub finished_at: String,
}

/// Where the command and result files are on the host, and where the container
/// sees the command file.
#[derive(Debug, Clone, PartialEq, Eq)]
pub struct CommandPaths {
    pub command_file: String,
    pub result_file: String,
    pub container_path: String,
}

/// What the configured mounts offer the listener.
#[derive(Debug, Clone, PartialEq, Eq)]
pub enum StateMountLookup {
    /// No mount for the state directory.
    Missing,
    /// The state directory is mounted read-only.
    ReadOnly,
    /// The files, under a writable mount.
    Writable(CommandPaths),
}

/// What a look at the command file found.
#[derive(Debug, Clone, PartialEq, Eq)]
pub enum CommandLoad {
    /// There is no command file.
    Missing,
    /// The file does not parse yet and was just written: look again later.
    Retry,
    Parsed(UpdateCommandRequest),
    /// The file does not parse, with the reason.
    Invalid(String),
}

pub open spec fn opt_view(o: Option<String>) -> Option<Seq<char>> {
    match o {
        Some(s) => Some(s@),
        None => None,
    }
}

// ---------------------------------------------------------------------------
// Paths
// ---------------------------------------------------------------------------

/// `rel` under `base`, as a path join does it on Unix: an absolute `rel` replaces
/// `base`; otherwise one `/` separates them unless `base` is empty or ends in one.
pub open spec fn spec_join_path(base: Seq<char>, rel: Seq<char>) -> Seq<char> {
    if rel.len() > 0 && rel[0] == '/' {
        rel
    } else if base.len() == 0 || base.last() == '/' {
        base + rel
    } else {
        base + "/"@ + rel
    }
}

/// Joins a relative path onto a directory.
pub fn join_path(base: &str, rel: &str) -> (s: String)
    ensures
        s@ == spec_join_path(base@, rel@),
{
    let b = crate::text::chars_of(base);
    let r = crate::text::chars_of(rel);
    if r.len() > 0 && r[0] == '/' {
        return owned(rel);
    }
    let mut s = owned(base);
    if !(b.len() == 0 || b[b.len() - 1] == '/') {
        append(&mut s, "/");
    }
    append(&mut s, rel);
    s
}

/// Whether no entry before `j` is a parsed mount of the state directory.
pub open spec fn first_state_mount_at(es: Seq<ConfigMountView>, j: int) -> bool {
    &&& 0 <= j < es.len()
    &&& targets(es[j], MOUNT_STATE@)
    &&& forall|i: int| 0 <= i < j ==> !targets(#[trigger] es[i], MOUNT_STATE@)
}

/// The first configured mount of the state directory, if any.
pub open spec fn spec_find_state_mount(es: Seq<ConfigMountView>) -> Option<MountView> {
    if exists|j: int| first_state_mount_at(es, j) {
        let j = choose|j: int| first_state_mount_at(es, j);
        Some(es[j].parsed->0)
    } else {
        None
    }
}

/// Finds the first configured mount of the state directory.
pub fn find_state_mount(mounts: &Vec<ConfigMount>) -> (r: Option<ParsedMount>)
    ensures
        match r {
            Some(m) => spec_find_state_mount(config_views(mounts@)) == Some(m@),
            None => spec_find_state_mount(config_views(mounts@)) is None,
        },
{
    let ghost es = config_views(mounts@);
    let mut i: usize = 0;
    while i < mounts.len()
        invariant
            i <= mounts@.len(),
            es == config_views(mounts@),
            forall|k: int| 0 <= k < i ==> !targets(#[trigger] es[k], MOUNT_STATE@),
        decreases mounts@.len() - i,
    {
        proof {
            assert(es[i as int] == mounts@[i as int]@);
        }
        match &mounts[i].parsed {
            Some(m) => {
                if str_eq(m.container_path.as_str(), MOUNT_STATE) {
                    proof {
                        assert(first_state_mount_at(es, i as int));
                        let j = choose|j: int| first_state_mount_at(es, j);
                        if j < i {
                            assert(!targets(es[j], MOUNT_STATE@));
                        } else if j > i {
                            assert(!targets(es[i as int], MOUNT_STATE@));
                        }
                    }
                    return Some(m.duplicate());
                }
            },
            None => {},
        }
        i = i + 1;
    }
    proof {
        assert forall|j: int| !first_state_mount_at(es, j) by {
            if 0 <= j < es.len() {
                assert(!targets(es[j], MOUNT_STATE@));
            }
        }
    }
    None
}

/// The command file and the result file inside a state directory.
pub open spec fn spec_command_paths(host_state: Seq<char>) -> (Seq<char>, Seq<char>, Seq<char>) {
    let dir = spec_join_path(host_state, COMMAND_DIR_SUFFIX@);
    (
        spec_join_path(dir, COMMAND_FILE_NAME@),
        spec_join_path(dir, RESULT_FILE_NAME@),
        MOUNT_STATE@ + "/"@ + COMMAND_DIR_SUFFIX@ + "/"@ + COMMAND_FILE_NAME@,
    )
}

/// Where the listener finds its files: nowhere without a state mount or under a
/// read-only one; otherwise in the command directory of the mounted host path.
pub fn resolve_command_paths(mounts: &Vec<ConfigMount>) -> (r: StateMountLookup)
    ensures
        match spec_find_state_mount(config_views(mounts@)) {
            None => r == StateMountLookup::Missing,
            Some(m) => if m.read_only {
                r == StateMountLookup::ReadOnly
            } else {
                r matches StateMountLookup::Writable(p) && (p.command_file@, p.result_file@,
                    p.container_path@) == spec_command_paths(m.host)
            },
        },
{
    let found = find_state_mount(mounts);
    match found {
        None => StateMountLookup::Missing,
        Some(m) => {
            if m.read_only {
                return StateMountLookup::ReadOnly;
            }
            let dir = join_path(m.host_path.as_str(), COMMAND_DIR_SUFFIX);
            let command_file = join_path(dir.as_str(), COMMAND_FILE_NAME);
            let result_file = join_path(dir.as_str(), RESULT_FILE_NAME);
            let mut container_path = owned(MOUNT_STATE);
            append(&mut container_path, "/");
            append(&mut container_path, COMMAND_DIR_SUFFIX);
            append(&mut container_path, "/");
            append(&mut container_path, COMMAND_FILE_NAME);
            StateMountLookup::Writable(CommandPaths { command_file, result_file, container_path })
        },
    }
}

// ---------------------------------------------------------------------------
// Start-up
// ---------------------------------------------------------------------------

/// What the listener says as it starts, unless quiet: why it is disabled, if it is,
/// then that it listens, and where.
pub open spec fn spec_startup_lines(lookup: StateMountLookup, remote: bool, quiet: bool) -> Seq<Seq<char>> {
    if quiet {
        Seq::empty()
    } else {
        let read_only = if lookup is ReadOnly {
            seq!["Update command listener disabled ("@ + MOUNT_STATE@ + " is mounted read-only)."@]
        } else {
            Seq::empty()
        };
        let remote_note = if remote {
            seq!["Update command listener disabled for remote hosts (local bind mount only)."@]
        } else {
            Seq::empty()
        };
        let missing = match lookup {
            StateMountLookup::Writable(_) => Seq::empty(),
            _ => seq!["Update command listener disabled (missing writable bind mount for "@ + MOUNT_STATE@
                + ")."@],
        };
        let files = match lookup {
            StateMountLookup::Writable(p) => seq![
                "  Command file: "@ + p.command_file@,
                "  Container path: "@ + p.container_path@,
            ],
            _ => Seq::empty(),
        };
        read_only + remote_note + missing + seq!["Listening for update commands (Ctrl+C to stop)..."@] + files
            + seq![Seq::<char>::empty()]
    }
}

/// The lines printed as the listener starts.
pub fn listener_startup_lines(lookup: &StateMountLookup, remote: bool, quiet: bool) -> (r: Vec<String>)
    ensures
        crate::text::string_views(r@) == spec_startup_lines(*lookup, remote, quiet),
{
    let mut r: Vec<String> = Vec::new();
    if quiet {
        assert(crate::text::string_views(r@) =~= spec_startup_lines(*lookup, remote, quiet));
        return r;
    }
    let ghost mut expected: Seq<Seq<char>> = Seq::empty();
    if let StateMountLookup::ReadOnly = lookup {
        let mut s = owned("Update command listener disabled (");
        append(&mut s, MOUNT_STATE);
        append(&mut s, " is mounted read-only).");
        r.push(s);
    }
    if remote {
        r.push(owned("Update command listener disabled for remote hosts (local bind mount only)."));
    }
    match lookup {
        StateMountLookup::Writable(_) => {},
        _ => {
            let mut s = owned("Update command listener disabled (missing writable bind mount for ");
            append(&mut s, MOUNT_STATE);
            append(&mut s, ").");
            r.push(s);
        },
    }
    r.push(owned("Listening for update commands (Ctrl+C to stop)..."));
    if let StateMountLookup::Writable(p) = lookup {
        let mut a = owned("  Command file: ");
        append(&mut a, p.command_file.as_str());
        r.push(a);
        let mut b = owned("  Container path: ");
        append(&mut b, p.container_path.as_str());
        r.push(b);
    }
    r.push(String::new());
    assert(crate::text::string_views(r@) =~= spec_startup_lines(*lookup, remote, quiet));
    r
}

// ---------------------------------------------------------------------------
// The loop
// ---------------------------------------------------------------------------

/// Said when the listener ends on Ctrl+C.
pub const LISTENER_STOPPING_MESSAGE: &'static str = "Stopping update command listener.";

/// Said when the listener ends because the container stopped.
pub const CONTAINER_STOPPED_MESSAGE: &'static str = "Container stopped. Exiting update command listener.";

/// What the listener does on a tick of its timer.
#[derive(Debug, Clone, Copy, PartialEq, Eq, Structural)]
pub enum ListenerTick {
    /// The container stopped: end the listener.
    Exit,
    /// Nothing to do on this tick.
    Idle,
    /// Make sure the command directory exists; a request is not read yet.
    PrepareDir,
    /// Make sure the command directory exists, then read the command file.
    PrepareDirAndPoll,
}

/// A request may be read when none was handled yet or the last one is at least
/// the minimum interval ago (`since_last_millis`, in whole milliseconds).
pub fn can_process_command(since_last_millis: Option<u128>) -> (b: bool)
    ensures
        b == match since_last_millis {
            None => true,
            Some(ms) => ms >= MIN_REQUEST_INTERVAL_MILLIS,
        },
{
    match since_last_millis {
        None => true,
        Some(ms) => ms >= MIN_REQUEST_INTERVAL_MILLIS,
    }
}

/// One tick: a stopped container ends the listener; without files or on a remote
/// host nothing happens; otherwise the directory is prepared and, when the interval
/// since the last request has passed, the command file is read.
pub fn listener_tick(container_running: bool, has_paths: bool, remote: bool, since_last_millis: Option<
    u128,
>) -> (t: ListenerTick)
    ensures
        t == (if !container_running {
            ListenerTick::Exit
        } else if !has_paths || remote {
            ListenerTick::Idle
        } else if match since_last_millis {
            None => true,
            Some(ms) => ms >= MIN_REQUEST_INTERVAL_MILLIS,
        } {
            ListenerTick::PrepareDirAndPoll
        } else {
            ListenerTick::PrepareDir
        }),
{
    if !container_running {
        return ListenerTick::Exit;
    }
    if !has_paths || remote {
        return ListenerTick::Idle;
    }
    if can_process_command(since_last_millis) {
        ListenerTick::PrepareDirAndPoll
    } else {
        ListenerTick::PrepareDir
    }
}

// ---------------------------------------------------------------------------
// Reading a request
// ---------------------------------------------------------------------------

/// A file modified less than the grace period ago (in whole milliseconds) is
/// recent; one whose modification time is unknown or ahead of the clock is not.
pub fn is_recently_modified(elapsed_millis: Option<u128>) -> (b: bool)
    ensures
        b == (elapsed_millis matches Some(ms) && ms < COMMAND_WRITE_GRACE_MILLIS),
{
    match elapsed_millis {
        Some(ms) => ms < COMMAND_WRITE_GRACE_MILLIS,
        None => false,
    }
}

/// What an existing command file holds: its request, or, when it does not parse,
/// a retry while it is recent and an error after that.
pub fn classify_command_file(parsed: Result<UpdateCommandRequest, String>, recently_modified: bool) -> (r: CommandLoad)
    ensures
        match parsed {
            Ok(req) => r == CommandLoad::Parsed(req),
            Err(e) => if recently_modified {
                r == CommandLoad::Retry
            } else {
                r matches CommandLoad::Invalid(m) && m@ == "Invalid update command JSON: "@ + e@
            },
        },
{
    match parsed {
        Ok(req) => CommandLoad::Parsed(req),
        Err(e) => {
            if recently_modified {
                return CommandLoad::Retry;
            }
            let mut m = owned("Invalid update command JSON: ");
            append(&mut m, e.as_str());
            CommandLoad::Invalid(m)
        },
    }
}

/// The refusal of a request that is not `update_opencode`, or that names both a
/// branch and a commit.
pub open spec fn spec_request_error(req: UpdateCommandRequest) -> Option<Seq<char>> {
    if req.command@ != UPDATE_OPENCODE_COMMAND@ {
        Some("Unsupported command '"@ + req.command@ + "'. Expected: update_opencode"@)
    } else if req.branch is Some && req.commit is Some {
        Some("Specify only one of branch or commit."@)
    } else {
        None
    }
}

/// The update a request asks for, without questions; or why it is refused.
pub fn update_args_for_request(req: &UpdateCommandRequest) -> (r: Result<UpdateOpencodeArgs, String>)
    ensures
        match spec_request_error(*req) {
            Some(e) => r matches Err(m) && m@ == e,
            None => r matches Ok(a) && opt_view(a.branch) == opt_view(req.branch) && opt_view(a.commit)
                == opt_view(req.commit) && a.yes,
        },
{
    if !str_eq(req.command.as_str(), UPDATE_OPENCODE_COMMAND) {
        let mut m = owned("Unsupported command '");
        append(&mut m, req.command.as_str());
        append(&mut m, "'. Expected: update_opencode");
        return Err(m);
    }
    if req.branch.is_some() && req.commit.is_some() {
        return Err(owned("Specify only one of branch or commit."));
    }
    Ok(UpdateOpencodeArgs { branch: req.branch.clone(), commit: req.commit.clone(), yes: true })
}

/// The message of a request that ran to the end.
pub const UPDATE_COMPLETED_MESSAGE: &'static str = "Update completed";

/// A result record.
pub fn build_result(request_id: Option<String>, status: &str, message: String, started_at: String, finished_at: String) -> (r: UpdateCommandResult)
    ensures
        r.status@ == status@,
        opt_view(r.request_id) == opt_view(request_id),
        r.message@ == message@,
        r.started_at@ == started_at@,
        r.finished_at@ == finished_at@,
{
    UpdateCommandResult { status: owned(status), request_id, message, started_at, finished_at }
}

/// The result of a request that was run: `success` with the completion message, or
/// `error` with the reason; it carries the request's id.
pub fn finish_request(req: &UpdateCommandRequest, outcome: Result<(), String>, started_at: String, finished_at: String) -> (r: UpdateCommandResult)
    ensures
        opt_view(r.request_id) == opt_view(req.request_id),
        r.started_at@ == started_at@,
        r.finished_at@ == finished_at@,
        match outcome {
            Ok(()) => r.status@ == "success"@ && r.message@ == UPDATE_COMPLETED_MESSAGE@,
            Err(e) => r.status@ == "error"@ && r.message@ == e@,
        },
{
    match outcome {
        Ok(()) => build_result(req.request_id.clone(), "success", owned(UPDATE_COMPLETED_MESSAGE), started_at, finished_at),
        Err(e) => build_result(req.request_id.clone(), "error", e, started_at, finished_at),
    }
}

/// The result of a command file that could not be read as a request: an error
/// without a request id, stamped `now`.
pub fn invalid_command_result(error: String, now: String) -> (r: UpdateCommandResult)
    ensures
        r.status@ == "error"@,
        r.request_id is None,
        r.message@ == error@,
        r.started_at@ == now@,
        r.finished_at@ == now@,
{
    let stamp = now.clone();
    build_result(None, "error", error, now, stamp)
}

/// What is done with the command file once read.
#[derive(Debug, Clone, PartialEq, Eq)]
pub enum PollAction {
    /// Nothing now: no file, or one still being written.
    Wait,
    /// Answer that the file is not a request, with the reason, and remove it.
    ReportInvalid(String),
    /// Answer the request with the reason it is refused, and remove the file.
    Refuse(UpdateCommandRequest, String),
    /// Run this update for the request, then answer it and remove the file.
    Run(UpdateCommandRequest, UpdateOpencodeArgs),
}

/// What follows a look at the command file: nothing while there is no request yet;
/// otherwise the request is answered, after running it when it is accepted.
pub fn poll_action(load: CommandLoad) -> (a: PollAction)
    ensures
        match load {
            CommandLoad::Missing => a == PollAction::Wait,
            CommandLoad::Retry => a == PollAction::Wait,
            CommandLoad::Invalid(e) => a == PollAction::ReportInvalid(e),
            CommandLoad::Parsed(req) => match spec_request_error(req) {
                Some(e) => a matches PollAction::Refuse(q, m) && q == req && m@ == e,
                None => a matches PollAction::Run(q, args) && q == req && opt_view(args.branch)
                    == opt_view(req.branch) && opt_view(args.commit) == opt_view(req.commit)
                    && args.yes,
            },
        },
{
    match load {
        CommandLoad::Missing => PollAction::Wait,
        CommandLoad::Retry => PollAction::Wait,
        CommandLoad::Invalid(e) => PollAction::ReportInvalid(e),
        CommandLoad::Parsed(req) => {
            match update_args_for_request(&req) {
                Ok(args) => PollAction::Run(req, args),
                Err(e) => PollAction::Refuse(req, e),
            }
        },
    }
}

} // verus!
