//! Log viewing: the journalctl command line, line filtering and output framing.

use vstd::prelude::*;
use crate::text::{
    all_digits, append, ascii_lowercase, chars_of, contains_str, eq_str, is_ascii_digit, owned,
    spec_ascii_lowercase, spec_contains, spec_trim, string_of, string_views, trim,
};
use crate::style::{is_painted, log_level_style, piece_views, render, shows_pieces, spec_log_level_paint, Paint, Piece};

verus! {

/// Arguments of the logs command.
#[derive(Debug, Clone)]
pub struct LogsArgs {
    /// Number of lines to show, or `all` (default: 50).
    pub lines: String,
    /// Dump once instead of following new output.
    pub no_follow: bool,
    /// Prefix lines with timestamps.
    pub timestamps: bool,
    /// Show only lines containing this pattern.
    pub grep: Option<String>,
    /// Show the broker's logs instead of opencode's.
    pub broker: bool,
}

/// The systemd unit whose journal is shown.
pub fn logs_service_name(broker: bool) -> (s: &'static str)
    ensures
        s@ == (if broker { "opencode-broker"@ } else { "opencode"@ }),
{
    if broker {
        "opencode-broker"
    } else {
        "opencode"
    }
}

/// The journalctl arguments for `service`, or `None` when the line count is neither
/// `all` (in any case) nor a number. Lines count is trimmed first; timestamps switch
/// the output format; following adds `-f`.
pub open spec fn spec_journalctl(
    lines: Seq<char>,
    timestamps: bool,
    no_follow: bool,
    service: Seq<char>,
) -> Option<Seq<Seq<char>>> {
    let head = seq!["journalctl"@, "--no-pager"@, "-u"@, service];
    let format = if timestamps {
        seq!["-o"@, "short-iso"@, "--no-hostname"@]
    } else {
        seq!["-o"@, "cat"@]
    };
    let follow = if no_follow {
        Seq::<Seq<char>>::empty()
    } else {
        seq!["-f"@]
    };
    let t = spec_trim(lines);
    if spec_ascii_lowercase(t) == "all"@ {
        Some(head + format + follow)
    } else if t.len() > 0 && forall|i: int| 0 <= i < t.len() ==> is_ascii_digit(#[trigger] t[i]) {
        Some(head + format + seq!["-n"@, t] + follow)
    } else {
        None
    }
}

fn push_str(v: &mut Vec<String>, s: &str)
    ensures
        string_views(final(v)@) == string_views(old(v)@).push(s@),
{
    v.push(owned(s));
    assert(string_views(v@) =~= string_views(old(v)@).push(s@));
}

/// The journalctl arguments, or `None` when the line count is invalid.
fn journalctl_args(args: &LogsArgs, service: &str) -> (r: Option<Vec<String>>)
    ensures
        r matches Some(v) ==> spec_journalctl(args.lines@, args.timestamps, args.no_follow, service@)
            == Some(string_views(v@)),
        r is None ==> spec_journalctl(args.lines@, args.timestamps, args.no_follow, service@) is None,
{
    let mut cmd: Vec<String> = Vec::new();
    push_str(&mut cmd, "journalctl");
    push_str(&mut cmd, "--no-pager");
    push_str(&mut cmd, "-u");
    push_str(&mut cmd, service);
    if args.timestamps {
        push_str(&mut cmd, "-o");
        push_str(&mut cmd, "short-iso");
        push_str(&mut cmd, "--no-hostname");
    } else {
        push_str(&mut cmd, "-o");
        push_str(&mut cmd, "cat");
    }
    let ghost prefix = string_views(cmd@);
    let t = trim(&chars_of(args.lines.as_str()));
    let lower = ascii_lowercase(&t);
    if eq_str(&lower, "all") {
    } else if t.len() > 0 && all_digits(&t) {
        push_str(&mut cmd, "-n");
        let ghost with_n = string_views(cmd@);
        let count = string_of(&t);
        cmd.push(count);
        assert(string_views(cmd@) =~= with_n.push(t@));
        assert(string_views(cmd@) =~= prefix + seq!["-n"@, t@]);
    } else {
        return None;
    }
    let ghost mid = string_views(cmd@);
    if !args.no_follow {
        push_str(&mut cmd, "-f");
    }
    proof {
        let s = spec_journalctl(args.lines@, args.timestamps, args.no_follow, service@);
        assert(s is Some);
        assert(string_views(cmd@) =~= s.unwrap());
    }
    Some(cmd)
}

/// The journalctl command that shows `service`'s journal inside the container.
pub fn build_journalctl_command(args: &LogsArgs, service: &str) -> (r: Result<Vec<String>, String>)
    ensures
        r matches Ok(v) ==> spec_journalctl(args.lines@, args.timestamps, args.no_follow, service@)
            == Some(string_views(v@)),
        r matches Err(e) ==> spec_journalctl(args.lines@, args.timestamps, args.no_follow, service@)
            is None && e@ == "Invalid value for --lines. Use a number or 'all'."@,
{
    match journalctl_args(args, service) {
        Some(v) => Ok(v),
        None => Err(owned("Invalid value for --lines. Use a number or 'all'.")),
    }
}

/// The journalctl command that shows the broker's journal from the host.
pub fn build_broker_journalctl_command(args: &LogsArgs) -> (r: Result<Vec<String>, String>)
    ensures
        r matches Ok(v) ==> spec_journalctl(
            args.lines@,
            args.timestamps,
            args.no_follow,
            "opencode-broker"@,
        ) == Some(string_views(v@)),
        r matches Err(e) ==> spec_journalctl(
            args.lines@,
            args.timestamps,
            args.no_follow,
            "opencode-broker"@,
        ) is None && e@ == "Invalid value for --lines with --broker. Use a number or 'all'."@,
{
    match journalctl_args(args, "opencode-broker") {
        Some(v) => Ok(v),
        None => Err(owned("Invalid value for --lines with --broker. Use a number or 'all'.")),
    }
}

/// Whether a log line is shown: with a grep pattern, only lines containing it.
pub fn line_passes_filter(line: &str, grep: Option<&str>) -> (b: bool)
    ensures
        b == (match grep {
            Some(p) => spec_contains(line@, p@),
            None => true,
        }),
{
    match grep {
        Some(p) => contains_str(&chars_of(line), p),
        None => true,
    }
}

/// The text printed for a log line: the prefix, the line, and a line ending unless
/// the line already has one.
pub open spec fn spec_log_output(line: Seq<char>, prefix: Option<Seq<char>>) -> Seq<char> {
    let out = match prefix {
        Some(p) => p + line,
        None => line,
    };
    if out.len() > 0 && out.last() == '\n' {
        out
    } else {
        out.push('\n')
    }
}

/// The text to print for a log line.
pub fn log_output(line: &str, prefix: Option<&str>) -> (s: String)
    ensures
        s@ == spec_log_output(
            line@,
            match prefix {
                Some(p) => Some(p@),
                None => None,
            },
        ),
{
    let mut out = match prefix {
        Some(p) => owned(p),
        None => String::new(),
    };
    append(&mut out, line);
    let ghost joined = match prefix {
        Some(p) => p@ + line@,
        None => line@,
    };
    assert(out@ =~= joined);
    let chars = chars_of(out.as_str());
    if chars.len() == 0 || chars[chars.len() - 1] != '\n' {
        crate::text::push_char(&mut out, '\n');
    }
    out
}

/// The notice shown before following logs.
pub fn follow_label(broker: bool) -> (s: &'static str)
    ensures
        s@ == (if broker {
            "Following broker logs (Ctrl+C to exit)..."@
        } else {
            "Following logs (Ctrl+C to exit)..."@
        }),
{
    if broker {
        "Following broker logs (Ctrl+C to exit)..."
    } else {
        "Following logs (Ctrl+C to exit)..."
    }
}

/// The view of an optional text.
pub open spec fn opt_str_view(o: Option<&str>) -> Option<Seq<char>> {
    match o {
        Some(s) => Some(s@),
        None => None,
    }
}

/// The prefix of log lines from a remote host: its name in brackets, in cyan.
pub fn host_line_prefix(host_name: Option<&str>) -> (r: Option<String>)
    ensures
        match host_name {
            None => r is None,
            Some(n) => r matches Some(p) && shows_pieces(p@, seq![("["@, None), (n@, Some(Paint::Cyan)), ("] "@, None)]),
        },
{
    match host_name {
        None => None,
        Some(n) => {
            let v: Vec<(&str, Option<Paint>)> = vec![("[", None), (n, Some(Paint::Cyan)), ("] ", None)];
            assert(piece_views(v@) =~~= seq![("["@, None), (n@, Some(Paint::Cyan)), ("] "@, None)]);
            Some(render(&v))
        },
    }
}

/// What is printed for a log line, if anything: lines without the grep pattern
/// are dropped; on a colored terminal (and unless quiet) the line is styled by its
/// level; the prefix goes first and a line ending last, unless there is one.
pub fn emit_log_text(line: &str, grep: Option<&str>, prefix: Option<&str>, quiet: bool, colors_enabled: bool) -> (r: Option<String>)
    ensures
        r is None <==> !(match grep {
            Some(p) => spec_contains(line@, p@),
            None => true,
        }),
        r matches Some(out) ==> if quiet || !colors_enabled {
            out@ == spec_log_output(line@, opt_str_view(prefix))
        } else {
            exists|styled: Seq<char>|
                out@ == #[trigger] spec_log_output(styled, opt_str_view(prefix)) && match spec_log_level_paint(line@) {
                    Some(p) => is_painted(styled, line@, p),
                    None => styled == line@,
                }
        },
{
    if !line_passes_filter(line, grep) {
        return None;
    }
    if quiet || !colors_enabled {
        return Some(log_output(line, prefix));
    }
    let styled = log_level_style(line);
    let out = log_output(styled.as_str(), prefix);
    proof {
        let w = styled@;
        assert(out@ == spec_log_output(w, opt_str_view(prefix)) && match spec_log_level_paint(line@) {
            Some(p) => is_painted(w, line@, p),
            None => w == line@,
        });
    }
    Some(out)
}

/// The refusal of showing logs without a container.
pub fn no_container_message() -> (s: String)
    ensures
        shows_pieces(s@, seq![("No container found. Run '"@, None), ("occ start"@, Some(Paint::Cyan)), ("' first."@, None)]),
{
    let v: Vec<(&str, Option<Paint>)> = vec![("No container found. Run '", None), ("occ start", Some(Paint::Cyan)), ("' first.", None)];
    assert(piece_views(v@) =~~= seq![("No container found. Run '"@, None), ("occ start"@, Some(Paint::Cyan)), ("' first."@, None)]);
    render(&v)
}

/// The pieces of the refusal of broker logs without systemd in the container.
pub open spec fn spec_broker_systemd_error() -> Seq<Piece> {
    seq![
        ("Broker logs require systemd/journald inside the container.\nThis host doesn't support systemd-in-container or the container was created in Tini mode.\nRecreate the container on a supported Linux host with:\n  "@, None),
        ("occ stop --remove"@, Some(Paint::Cyan)),
        ("\n  "@, None),
        ("occ start"@, Some(Paint::Cyan)),
    ]
}

/// The refusal of broker logs without systemd in the container.
pub fn broker_systemd_error() -> (s: String)
    ensures
        shows_pieces(s@, spec_broker_systemd_error()),
{
    let v: Vec<(&str, Option<Paint>)> = vec![
        ("Broker logs require systemd/journald inside the container.\nThis host doesn't support systemd-in-container or the container was created in Tini mode.\nRecreate the container on a supported Linux host with:\n  ", None),
        ("occ stop --remove", Some(Paint::Cyan)),
        ("\n  ", None),
        ("occ start", Some(Paint::Cyan)),
    ];
    assert(piece_views(v@) =~~= spec_broker_systemd_error());
    render(&v)
}

/// The refusal of logs inside a container without systemd.
pub const CONTAINER_LOGS_NEED_SYSTEMD: &'static str = "Logs unavailable in container runtime without systemd.\nUse host runtime instead: occ --runtime host logs";

/// Whether the end of a log stream is explained: when following, not quiet, and
/// the container no longer runs.
pub fn stream_end_notice(follow: bool, running: bool, quiet: bool) -> (b: bool)
    ensures
        b == (follow && !running && !quiet),
{
    follow && !running && !quiet
}

/// Why a log stream ended early.
pub const CONTAINER_STOPPED_NOTICE: &'static str = "Container stopped";

} // verus!
