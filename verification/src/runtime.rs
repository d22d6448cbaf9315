//! Runtime status: health probes mapped to statuses, the status snapshot shared by
//! the host and container runtimes, and the local asset drift report.

use vstd::prelude::*;
use crate::style::{ansi_open, is_painted, is_painted_then, paint, Paint};
use crate::text::{
    push_decimal, spec_decimal,
    append, chars_of, is_hex_letter, is_ascii_hexdigit, join, lines, owned, spec_join, spec_lines,
    spec_split_by, spec_trim, split_chars, string_of, string_of_range, string_views, trim, views,
    Separator, separator_pred,
};

verus! {

// ---------------------------------------------------------------------------
// Status model
// ---------------------------------------------------------------------------

/// Runtime constraints used to normalize behaviour across runtimes (`None` where the
/// runtime cannot tell).
#[derive(Clone, Copy, Debug, Default, PartialEq, Eq, Structural)]
pub struct RuntimeCapabilities {
    /// Whether systemd is available in this runtime.
    pub systemd_available: Option<bool>,
    /// Whether journalctl is available in this runtime.
    pub journalctl_available: Option<bool>,
    /// Whether user management operations require root privileges.
    pub root_required_for_user_management: Option<bool>,
}

/// Raw result of probing opencode's HTTP endpoint.
#[derive(Clone, Copy, Debug, PartialEq, Eq, Structural)]
pub enum OpencodeHttpProbe {
    Healthy,
    ConnectionRefused,
    Timeout,
    Unhealthy(u16),
    Failed,
}

/// Normalized opencode health shown by the status outputs.
#[derive(Clone, Copy, Debug, PartialEq, Eq, Structural)]
pub enum OpencodeHealthStatus {
    Healthy,
    Starting,
    Unhealthy(u16),
    CheckFailed,
}

/// Normalized broker health shown by the status outputs.
#[derive(Clone, Copy, Debug, PartialEq, Eq, Structural)]
pub enum BrokerHealthStatus {
    Healthy,
    Degraded,
    Unhealthy,
    CheckFailed,
}

/// The status snapshot collected through a runtime backend.
#[derive(Clone, Debug)]
pub struct StatusViewModel {
    pub opencode_health: Option<OpencodeHealthStatus>,
    pub broker_health: BrokerHealthStatus,
    pub opencode_version: String,
    pub opencode_commit: String,
    pub image_version: String,
    pub capabilities: RuntimeCapabilities,
}

/// Broker health from its two signals: both up is healthy, one up is degraded.
pub open spec fn spec_broker_health(process_ok: bool, socket_ok: bool) -> BrokerHealthStatus {
    if process_ok && socket_ok {
        BrokerHealthStatus::Healthy
    } else if process_ok || socket_ok {
        BrokerHealthStatus::Degraded
    } else {
        BrokerHealthStatus::Unhealthy
    }
}

/// Opencode health from an HTTP probe: a refused or timed-out connection means the
/// service is still starting; an HTTP error code is kept.
pub open spec fn spec_opencode_health(probe: OpencodeHttpProbe) -> OpencodeHealthStatus {
    match probe {
        OpencodeHttpProbe::Healthy => OpencodeHealthStatus::Healthy,
        OpencodeHttpProbe::ConnectionRefused => OpencodeHealthStatus::Starting,
        OpencodeHttpProbe::Timeout => OpencodeHealthStatus::Starting,
        OpencodeHttpProbe::Unhealthy(code) => OpencodeHealthStatus::Unhealthy(code),
        OpencodeHttpProbe::Failed => OpencodeHealthStatus::CheckFailed,
    }
}

/// Maps the broker's process and socket signals to its health.
pub fn map_broker_health_status(process_ok: bool, socket_ok: bool) -> (r: BrokerHealthStatus)
    ensures
        r == spec_broker_health(process_ok, socket_ok),
{
    match (process_ok, socket_ok) {
        (true, true) => BrokerHealthStatus::Healthy,
        (true, false) | (false, true) => BrokerHealthStatus::Degraded,
        (false, false) => BrokerHealthStatus::Unhealthy,
    }
}

/// Maps an HTTP probe result to opencode's health.
pub fn map_opencode_health_status(probe: OpencodeHttpProbe) -> (r: OpencodeHealthStatus)
    ensures
        r == spec_opencode_health(probe),
{
    match probe {
        OpencodeHttpProbe::Healthy => OpencodeHealthStatus::Healthy,
        OpencodeHttpProbe::ConnectionRefused | OpencodeHttpProbe::Timeout => {
            OpencodeHealthStatus::Starting
        },
        OpencodeHttpProbe::Unhealthy(code) => OpencodeHealthStatus::Unhealthy(code),
        OpencodeHttpProbe::Failed => OpencodeHealthStatus::CheckFailed,
    }
}

/// Whether the broker can serve logins: only when it is healthy.
pub fn broker_is_ready(status: BrokerHealthStatus) -> (b: bool)
    ensures
        b <==> status == BrokerHealthStatus::Healthy,
{
    matches!(status, BrokerHealthStatus::Healthy)
}

/// Broker health from the two probes' outcomes (`None` where a probe failed to run):
/// a failed probe makes the check fail.
pub fn broker_health_from_probes(process: Option<bool>, socket: Option<bool>) -> (r:
    BrokerHealthStatus)
    ensures
        r == (match (process, socket) {
            (Some(p), Some(s)) => spec_broker_health(p, s),
            _ => BrokerHealthStatus::CheckFailed,
        }),
{
    match (process, socket) {
        (Some(p), Some(s)) => map_broker_health_status(p, s),
        _ => BrokerHealthStatus::CheckFailed,
    }
}

/// `value`, or `unknown` where it could not be read.
fn or_unknown(value: Option<String>) -> (s: String)
    ensures
        s@ == (match value {
            Some(v) => v@,
            None => "unknown"@,
        }),
{
    match value {
        Some(v) => v,
        None => owned("unknown"),
    }
}

/// The status snapshot from what a backend reported. `opencode_probe` is the HTTP
/// probe's result (`None` where the probe itself failed), used only when
/// `include_opencode_probe`; the broker probes are `None` where they failed; the
/// versions are `None` where they could not be read, and show as `unknown`.
pub fn build_status_view(
    include_opencode_probe: bool,
    opencode_probe: Option<OpencodeHttpProbe>,
    broker_process: Option<bool>,
    broker_socket: Option<bool>,
    opencode_version: Option<String>,
    opencode_commit: Option<String>,
    image_version: Option<String>,
    capabilities: RuntimeCapabilities,
) -> (v: StatusViewModel)
    ensures
        v.opencode_health == (if include_opencode_probe {
            Some(
                spec_opencode_health(
                    match opencode_probe {
                        Some(p) => p,
                        None => OpencodeHttpProbe::Failed,
                    },
                ),
            )
        } else {
            None
        }),
        v.broker_health == (match (broker_process, broker_socket) {
            (Some(p), Some(s)) => spec_broker_health(p, s),
            _ => BrokerHealthStatus::CheckFailed,
        }),
        v.opencode_version@ == (match opencode_version {
            Some(s) => s@,
            None => "unknown"@,
        }),
        v.opencode_commit@ == (match opencode_commit {
            Some(s) => s@,
            None => "unknown"@,
        }),
        v.image_version@ == (match image_version {
            Some(s) => s@,
            None => "unknown"@,
        }),
        v.capabilities == capabilities,
{
    let opencode_health = if include_opencode_probe {
        let probe = match opencode_probe {
            Some(p) => p,
            None => OpencodeHttpProbe::Failed,
        };
        Some(map_opencode_health_status(probe))
    } else {
        None
    };
    StatusViewModel {
        opencode_health,
        broker_health: broker_health_from_probes(broker_process, broker_socket),
        opencode_version: or_unknown(opencode_version),
        opencode_commit: or_unknown(opencode_commit),
        image_version: or_unknown(image_version),
        capabilities,
    }
}

/// The label of opencode's health in status output.
pub fn format_opencode_health_label(status: OpencodeHealthStatus) -> (s: String)
    ensures
        match status {
            OpencodeHealthStatus::Healthy => is_painted(s@, "Healthy"@, Paint::Green),
            OpencodeHealthStatus::Starting => is_painted(s@, "Service starting..."@, Paint::Yellow),
            OpencodeHealthStatus::Unhealthy(code) => is_painted_then(
                s@,
                "Unhealthy"@,
                Paint::Red,
                " (HTTP "@ + spec_decimal(code as nat) + ")"@,
            ),
            OpencodeHealthStatus::CheckFailed => is_painted(s@, "Check failed"@, Paint::Yellow),
        },
{
    match status {
        OpencodeHealthStatus::Healthy => paint("Healthy", Paint::Green),
        OpencodeHealthStatus::Starting => paint("Service starting...", Paint::Yellow),
        OpencodeHealthStatus::Unhealthy(code) => {
            let mut s = paint("Unhealthy", Paint::Red);
            let ghost s0 = s@;
            append(&mut s, " (HTTP ");
            push_decimal(&mut s, code as u64);
            append(&mut s, ")");
            proof {
                let rest = " (HTTP "@ + spec_decimal(code as nat) + ")"@;
                assert(s@ =~= s0 + rest);
                if s0 != "Unhealthy"@ {
                    assert(s0 + rest =~= ansi_open(Paint::Red) + "Unhealthy"@ + "\x1b[0m"@ + rest);
                }
            }
            s
        },
        OpencodeHealthStatus::CheckFailed => paint("Check failed", Paint::Yellow),
    }
}

/// The label of the broker's health in status output.
pub fn format_broker_health_label(status: BrokerHealthStatus) -> (s: String)
    ensures
        match status {
            BrokerHealthStatus::Healthy => is_painted(s@, "Healthy"@, Paint::Green),
            BrokerHealthStatus::Degraded => is_painted(s@, "Degraded"@, Paint::Yellow),
            BrokerHealthStatus::Unhealthy => is_painted(s@, "Unhealthy"@, Paint::Red),
            BrokerHealthStatus::CheckFailed => is_painted(s@, "Check failed"@, Paint::Yellow),
        },
{
    match status {
        BrokerHealthStatus::Healthy => paint("Healthy", Paint::Green),
        BrokerHealthStatus::Degraded => paint("Degraded", Paint::Yellow),
        BrokerHealthStatus::Unhealthy => paint("Unhealthy", Paint::Red),
        BrokerHealthStatus::CheckFailed => paint("Check failed", Paint::Yellow),
    }
}

// ---------------------------------------------------------------------------
// Backends
// ---------------------------------------------------------------------------

/// The backend that runs inside the opencode container.
pub struct ContainerBackend {
    systemd_available: bool,
}

impl ContainerBackend {
    pub fn new(systemd_available: bool) -> (b: ContainerBackend)
        ensures
            b.systemd() == systemd_available,
    {
        ContainerBackend { systemd_available }
    }

    pub closed spec fn systemd(&self) -> bool {
        self.systemd_available
    }
}

/// Where the runtime commands run, as far as the library decides on it: what that
/// place can do. The probes themselves are I/O and run outside the library.
pub trait RuntimeBackend {
    fn runtime_capabilities(&self) -> (c: RuntimeCapabilities);
}

impl RuntimeBackend for ContainerBackend {
    /// Inside the container systemd and journalctl go together, and managing users
    /// needs root.
    fn runtime_capabilities(&self) -> (c: RuntimeCapabilities)
        ensures
            c == (RuntimeCapabilities {
                systemd_available: Some(self.systemd()),
                journalctl_available: Some(self.systemd()),
                root_required_for_user_management: Some(true),
            }),
    {
        RuntimeCapabilities {
            systemd_available: Some(self.systemd_available),
            journalctl_available: Some(self.systemd_available),
            root_required_for_user_management: Some(true),
        }
    }
}

/// The host backend knows nothing of the container's constraints.
pub fn host_runtime_capabilities() -> (c: RuntimeCapabilities)
    ensures
        c == (RuntimeCapabilities {
            systemd_available: None,
            journalctl_available: None,
            root_required_for_user_management: None,
        }),
{
    RuntimeCapabilities {
        systemd_available: None,
        journalctl_available: None,
        root_required_for_user_management: None,
    }
}

/// A version file's first line, trimmed; `None` when that is empty.
pub open spec fn spec_first_line_version(output: Seq<char>) -> Option<Seq<char>> {
    let ls = spec_lines(output);
    let first = if ls.len() > 0 {
        spec_trim(ls[0])
    } else {
        Seq::<char>::empty()
    };
    if first.len() == 0 {
        None
    } else {
        Some(first)
    }
}

/// The version in a `--version` output or a version file: its first line, trimmed.
pub fn first_line_version(output: &str) -> (r: Option<String>)
    ensures
        r matches Some(s) ==> spec_first_line_version(output@) == Some(s@),
        r is None ==> spec_first_line_version(output@) is None,
{
    let chars = chars_of(output);
    let ls = lines(&chars);
    if ls.len() == 0 {
        return None;
    }
    let first = trim(&ls[0]);
    assert(first@ == spec_trim(views(ls@)[0]));
    if first.len() == 0 {
        None
    } else {
        Some(string_of(&first))
    }
}

/// A commit hash candidate: at least seven hex digits, one of them a letter, so that
/// numeric version stamps are not taken for one.
pub open spec fn is_commit_token(t: Seq<char>) -> bool {
    &&& t.len() >= 7
    &&& forall|i: int| 0 <= i < t.len() ==> is_ascii_hexdigit(#[trigger] t[i])
    &&& exists|i: int| 0 <= i < t.len() && is_hex_letter(#[trigger] t[i])
}

/// The runs of hex digits in `s`.
pub open spec fn hex_runs(s: Seq<char>) -> Seq<Seq<char>> {
    spec_split_by(s, separator_pred(Separator::NonHexDigit))
}

fn commit_token(t: &Vec<char>) -> (b: bool)
    ensures
        b == is_commit_token(t@),
{
    if t.len() < 7 {
        return false;
    }
    let mut all_hex = true;
    let mut letter = false;
    let mut i: usize = 0;
    while i < t.len()
        invariant
            i <= t@.len(),
            all_hex == (forall|j: int| 0 <= j < i ==> is_ascii_hexdigit(#[trigger] t@[j])),
            letter == (exists|j: int| 0 <= j < i && is_hex_letter(#[trigger] t@[j])),
        decreases t@.len() - i,
    {
        let c = t[i];
        let hex = ('0' <= c && c <= '9') || ('a' <= c && c <= 'f') || ('A' <= c && c <= 'F');
        let is_letter = ('a' <= c && c <= 'f') || ('A' <= c && c <= 'F');
        proof {
            if !hex {
                assert(!is_ascii_hexdigit(t@[i as int]));
            }
            if is_letter {
                assert(is_hex_letter(t@[i as int]));
            }
        }
        all_hex = all_hex && hex;
        letter = letter || is_letter;
        i = i + 1;
    }
    all_hex && letter
}

/// The short (seven character) commit hash in a commit file or version output: the
/// first run of hex digits that is a commit candidate.
pub fn extract_short_commit(version_output: &str) -> (r: Option<String>)
    ensures
        r is None <==> forall|i: int|
            0 <= i < hex_runs(version_output@).len() ==> !is_commit_token(
                #[trigger] hex_runs(version_output@)[i],
            ),
        r matches Some(s) ==> exists|i: int|
            0 <= i < hex_runs(version_output@).len() && is_commit_token(
                #[trigger] hex_runs(version_output@)[i],
            ) && (forall|j: int| 0 <= j < i ==> !is_commit_token(hex_runs(version_output@)[j]))
                && s@ == hex_runs(version_output@)[i].take(7),
{
    let chars = chars_of(version_output);
    let runs = split_chars(&chars, Separator::NonHexDigit);
    let ghost rv = views(runs@);
    let mut i: usize = 0;
    while i < runs.len()
        invariant
            i <= runs@.len(),
            rv == views(runs@),
            rv == hex_runs(version_output@),
            forall|j: int| 0 <= j < i ==> !is_commit_token(#[trigger] rv[j]),
        decreases runs@.len() - i,
    {
        if commit_token(&runs[i]) {
            assert(runs@[i as int]@ == rv[i as int]);
            let short = string_of_range(&runs[i], 0, 7);
            assert(runs[i as int]@.subrange(0, 7) =~= rv[i as int].take(7));
            return Some(short);
        }
        assert(!is_commit_token(rv[i as int]));
        i = i + 1;
    }
    None
}

// ---------------------------------------------------------------------------
// Local asset drift
// ---------------------------------------------------------------------------

/// Rebuild from cache when the container's assets are stale.
pub const REBUILD_CACHED_COMMAND: &'static str = "occ start --cached-rebuild-sandbox-image";

/// Rebuild without cache when the cached rebuild is not enough.
pub const REBUILD_FULL_COMMAND: &'static str = "occ start --full-rebuild-sandbox-image";

/// How the running container's copies of the local runtime assets compare.
#[derive(Debug, Clone, Default)]
pub struct RuntimeAssetDrift {
    pub drift_detected: bool,
    pub mismatched_assets: Vec<String>,
    pub diagnostics: Vec<String>,
}

/// The comparison of one asset with the running container's copy.
#[derive(Debug, Clone)]
pub enum AssetProbeOutcome {
    Match,
    Mismatch,
    ProbeFailed(String),
}

impl RuntimeAssetDrift {
    /// Drift is reported exactly when some asset differs.
    pub fn from_outcomes(mismatched_assets: Vec<String>, diagnostics: Vec<String>) -> (r: Self)
        ensures
            r.drift_detected <==> mismatched_assets@.len() > 0,
            r.mismatched_assets@ == mismatched_assets@,
            r.diagnostics@ == diagnostics@,
    {
        RuntimeAssetDrift {
            drift_detected: mismatched_assets.len() > 0,
            mismatched_assets,
            diagnostics,
        }
    }
}

/// The names of the assets that differ, in probe order.
pub open spec fn spec_mismatched(results: Seq<(String, AssetProbeOutcome)>) -> Seq<Seq<char>>
    decreases results.len(),
{
    if results.len() == 0 {
        Seq::empty()
    } else {
        let prev = spec_mismatched(results.drop_last());
        match results.last().1 {
            AssetProbeOutcome::Mismatch => prev.push(results.last().0@),
            _ => prev,
        }
    }
}

/// `name: detail` for each probe that failed, in probe order.
pub open spec fn spec_diagnostics(results: Seq<(String, AssetProbeOutcome)>) -> Seq<Seq<char>>
    decreases results.len(),
{
    if results.len() == 0 {
        Seq::empty()
    } else {
        let prev = spec_diagnostics(results.drop_last());
        match results.last().1 {
            AssetProbeOutcome::ProbeFailed(detail) => prev.push(results.last().0@ + ": "@ + detail@),
            _ => prev,
        }
    }
}

/// The drift report from the outcome of probing each tracked asset.
pub fn build_drift_report(results: &[(String, AssetProbeOutcome)]) -> (r: RuntimeAssetDrift)
    ensures
        string_views(r.mismatched_assets@) == spec_mismatched(results@),
        string_views(r.diagnostics@) == spec_diagnostics(results@),
        r.drift_detected <==> spec_mismatched(results@).len() > 0,
{
    let mut mismatched_assets: Vec<String> = Vec::new();
    let mut diagnostics: Vec<String> = Vec::new();
    let mut i: usize = 0;
    while i < results.len()
        invariant
            i <= results@.len(),
            string_views(mismatched_assets@) == spec_mismatched(results@.take(i as int)),
            string_views(diagnostics@) == spec_diagnostics(results@.take(i as int)),
        decreases results@.len() - i,
    {
        let ghost m0 = string_views(mismatched_assets@);
        let ghost d0 = string_views(diagnostics@);
        proof {
            assert(results@.take(i + 1).drop_last() =~= results@.take(i as int));
            assert(results@.take(i + 1).last() == results@[i as int]);
        }
        let (name, outcome) = &results[i];
        match outcome {
            AssetProbeOutcome::Match => {},
            AssetProbeOutcome::Mismatch => {
                mismatched_assets.push(name.clone());
                assert(string_views(mismatched_assets@) =~= m0.push(name@));
            },
            AssetProbeOutcome::ProbeFailed(detail) => {
                let mut line = name.clone();
                append(&mut line, ": ");
                append(&mut line, detail.as_str());
                diagnostics.push(line);
                proof {
                    reveal_strlit(": ");
                }
                assert(string_views(diagnostics@) =~= d0.push(name@ + ": "@ + detail@));
            },
        }
        i = i + 1;
    }
    assert(results@.take(results@.len() as int) =~= results@);
    RuntimeAssetDrift::from_outcomes(mismatched_assets, diagnostics)
}

/// The warning shown when the running container is stale: nothing without drift.
pub open spec fn spec_stale_warning_lines(report: RuntimeAssetDrift) -> Seq<Seq<char>> {
    if !report.drift_detected {
        Seq::empty()
    } else {
        seq![
            "Running container is out of sync with local development assets."@,
            "Mismatched assets: "@ + spec_join(string_views(report.mismatched_assets@), ", "@),
            "Rebuild with: "@ + REBUILD_CACHED_COMMAND@,
            "If needed (no cache): "@ + REBUILD_FULL_COMMAND@,
        ]
    }
}

fn concat(a: &str, b: &str) -> (s: String)
    ensures
        s@ == a@ + b@,
{
    let mut s = owned(a);
    append(&mut s, b);
    s
}

/// The warning lines for a stale container, with the commands that rebuild it.
pub fn stale_container_warning_lines(report: &RuntimeAssetDrift) -> (lines: Vec<String>)
    ensures
        string_views(lines@) == spec_stale_warning_lines(*report),
{
    let mut lines: Vec<String> = Vec::new();
    if !report.drift_detected {
        assert(string_views(lines@) =~= spec_stale_warning_lines(*report));
        return lines;
    }
    let mismatched = join(&report.mismatched_assets, ", ");
    lines.push(owned("Running container is out of sync with local development assets."));
    lines.push(concat("Mismatched assets: ", mismatched.as_str()));
    lines.push(concat("Rebuild with: ", REBUILD_CACHED_COMMAND));
    lines.push(concat("If needed (no cache): ", REBUILD_FULL_COMMAND));
    assert(string_views(lines@) =~= spec_stale_warning_lines(*report));
    lines
}

/// The drift lines shown in status output: the warning, then, when verbose, each
/// diagnostic.
pub open spec fn spec_drift_lines(report: RuntimeAssetDrift, verbose: u8) -> Seq<Seq<char>> {
    let base = spec_stale_warning_lines(report);
    if verbose > 0 {
        base + string_views(report.diagnostics@).map_values(|d: Seq<char>| "diagnostic: "@ + d)
    } else {
        base
    }
}

/// The drift warning lines, with the probe diagnostics when verbose.
pub fn render_runtime_asset_drift_lines(report: &RuntimeAssetDrift, verbose: u8) -> (lines: Vec<
    String,
>)
    ensures
        string_views(lines@) == spec_drift_lines(*report, verbose),
{
    let mut lines = stale_container_warning_lines(report);
    if verbose > 0 {
        let ghost base = string_views(lines@);
        let ghost ds = string_views(report.diagnostics@);
        let mut i: usize = 0;
        while i < report.diagnostics.len()
            invariant
                i <= ds.len(),
                ds == string_views(report.diagnostics@),
                string_views(lines@) == base + ds.take(i as int).map_values(
                    |d: Seq<char>| "diagnostic: "@ + d,
                ),
            decreases ds.len() - i,
        {
            let line = concat("diagnostic: ", report.diagnostics[i].as_str());
            let ghost prev = string_views(lines@);
            lines.push(line);
            proof {
                assert(ds[i as int] == report.diagnostics@[i as int]@);
                assert(ds.take(i + 1) =~= ds.take(i as int).push(ds[i as int]));
                assert(ds.take(i + 1).map_values(|d: Seq<char>| "diagnostic: "@ + d) =~= ds.take(
                    i as int,
                ).map_values(|d: Seq<char>| "diagnostic: "@ + d).push("diagnostic: "@ + ds[i as int]));
                assert(string_views(lines@) =~= prev.push(line@));
            }
            assert(string_views(lines@) =~= base + ds.take(i + 1).map_values(
                |d: Seq<char>| "diagnostic: "@ + d,
            ));
            i = i + 1;
        }
        assert(ds.take(ds.len() as int) =~= ds);
    }
    lines
}

/// The drift lines of the preflight check before a command; the same as in status.
pub fn render_runtime_asset_preflight_lines(report: &RuntimeAssetDrift, verbose: u8) -> (lines:
    Vec<String>)
    ensures
        string_views(lines@) == spec_drift_lines(*report, verbose),
{
    render_runtime_asset_drift_lines(report, verbose)
}

} // verus!
