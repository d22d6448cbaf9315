//! Running inside the opencode container: its status output, which updates it
//! allows, and the messages of an opencode rebuild (also run from the host).

use vstd::prelude::*;
use crate::runtime::{BrokerHealthStatus, OpencodeHealthStatus};
use crate::status_view::{
    label_piece, line_pieces, plain_line, render_lines, shows_lines, state_line,
};
use crate::style::{is_painted, piece_views, render, shows_pieces, Paint, Piece};
use crate::text::{
    append, chars_of, owned, push_signed_decimal, spec_signed_decimal, spec_trim, str_eq,
    string_of, string_views, trim,
};
use crate::update::{UpdateArgs, UpdateCommand, UpdateOpencodeArgs};

verus! {

/// Opencode's version and commit as one text: what is known of each.
pub open spec fn spec_opencode_display(version: Seq<char>, commit: Seq<char>) -> Seq<char> {
    if version == "unknown"@ && commit == "unknown"@ {
        "unknown"@
    } else if version == "unknown"@ {
        "unknown ("@ + commit + ")"@
    } else if commit == "unknown"@ {
        version
    } else {
        version + " ("@ + commit + ")"@
    }
}

/// Opencode's version and commit as one text.
pub fn format_opencode_display(version: &str, commit: &str) -> (s: String)
    ensures
        s@ == spec_opencode_display(version@, commit@),
{
    let v_unknown = str_eq(version, "unknown");
    let c_unknown = str_eq(commit, "unknown");
    if v_unknown && c_unknown {
        owned("unknown")
    } else if v_unknown {
        let mut s = owned("unknown (");
        append(&mut s, commit);
        append(&mut s, ")");
        s
    } else if c_unknown {
        owned(version)
    } else {
        let mut s = owned(version);
        append(&mut s, " (");
        append(&mut s, commit);
        append(&mut s, ")");
        s
    }
}

/// The state shown inside the container: a running service by its health.
pub fn container_state_label(running: bool, health: Option<OpencodeHealthStatus>) -> (s: &'static str)
    ensures
        s@ == (if !running {
            "stopped"@
        } else {
            match health {
                None => "running"@,
                Some(OpencodeHealthStatus::Healthy) => "running"@,
                Some(OpencodeHealthStatus::Starting) => "starting"@,
                Some(OpencodeHealthStatus::Unhealthy(_)) => "unhealthy"@,
                Some(OpencodeHealthStatus::CheckFailed) => "unknown"@,
            }
        }),
{
    if !running {
        return "stopped";
    }
    match health {
        None => "running",
        Some(OpencodeHealthStatus::Healthy) => "running",
        Some(OpencodeHealthStatus::Starting) => "starting",
        Some(OpencodeHealthStatus::Unhealthy(_)) => "unhealthy",
        Some(OpencodeHealthStatus::CheckFailed) => "unknown",
    }
}

/// The container's init: systemd when the backend reports it (or, when it does not
/// know, when it was detected), else tini.
pub fn container_runtime_label(reported: Option<bool>, detected: bool) -> (s: &'static str)
    ensures
        s@ == (if (match reported {
            Some(b) => b,
            None => detected,
        }) {
            "systemd"@
        } else {
            "tini"@
        }),
{
    let systemd = match reported {
        Some(b) => b,
        None => detected,
    };
    if systemd {
        "systemd"
    } else {
        "tini"
    }
}

/// The broker health as shown: its label in its color.
pub open spec fn spec_broker_piece(status: BrokerHealthStatus) -> Piece {
    match status {
        BrokerHealthStatus::Healthy => ("Healthy"@, Some(Paint::Green)),
        BrokerHealthStatus::Degraded => ("Degraded"@, Some(Paint::Yellow)),
        BrokerHealthStatus::Unhealthy => ("Unhealthy"@, Some(Paint::Red)),
        BrokerHealthStatus::CheckFailed => ("Check failed"@, Some(Paint::Yellow)),
    }
}

/// What the container status shows after its state line.
#[derive(Debug, Clone)]
pub struct ContainerStatus {
    pub url: String,
    pub opencode_version: String,
    pub opencode_commit: String,
    pub broker: BrokerHealthStatus,
    pub runtime: String,
    pub image_version: String,
    pub cli_version: String,
}

/// The lines after the state line: the URL, opencode, the broker, the init, the
/// image and the CLI.
pub open spec fn spec_container_status_lines(c: ContainerStatus) -> Seq<Seq<Piece>> {
    seq![
        seq![label_piece("URL:"@), (c.url@, Some(Paint::Cyan))],
        seq![label_piece("Opencode:"@), (spec_opencode_display(c.opencode_version@, c.opencode_commit@), None)],
        seq![label_piece("Broker:"@), spec_broker_piece(c.broker)],
        seq![label_piece("Runtime:"@), (c.runtime@, None)],
        seq![label_piece("Image:"@), (c.image_version@, None)],
        seq![label_piece("CLI:"@), ("v"@ + c.cli_version@, None)],
    ]
}

/// The status output inside the container: the state line, then the rest.
pub fn container_status_lines(state_label: &str, c: &ContainerStatus) -> (r: Vec<String>)
    ensures
        r@.len() == 7,
        exists|st: Seq<char>|
            r@[0]@ == label_piece("State:"@).0 + st && is_painted(
                st,
                state_label@,
                crate::style::spec_state_paint(state_label@),
            ),
        shows_lines(string_views(r@).skip(1), spec_container_status_lines(*c)),
{
    let first = state_line(state_label);
    let l1 = crate::status_view::label_text("URL:");
    let l2 = crate::status_view::label_text("Opencode:");
    let l3 = crate::status_view::label_text("Broker:");
    let l4 = crate::status_view::label_text("Runtime:");
    let l5 = crate::status_view::label_text("Image:");
    let l6 = crate::status_view::label_text("CLI:");
    let display = format_opencode_display(c.opencode_version.as_str(), c.opencode_commit.as_str());
    let broker: (&str, Option<Paint>) = match c.broker {
        BrokerHealthStatus::Healthy => ("Healthy", Some(Paint::Green)),
        BrokerHealthStatus::Degraded => ("Degraded", Some(Paint::Yellow)),
        BrokerHealthStatus::Unhealthy => ("Unhealthy", Some(Paint::Red)),
        BrokerHealthStatus::CheckFailed => ("Check failed", Some(Paint::Yellow)),
    };
    let mut cli = owned("v");
    append(&mut cli, c.cli_version.as_str());
    let lines: Vec<Vec<(&str, Option<Paint>)>> = vec![
        vec![(l1.as_str(), None), (c.url.as_str(), Some(Paint::Cyan))],
        vec![(l2.as_str(), None), (display.as_str(), None)],
        vec![(l3.as_str(), None), broker],
        vec![(l4.as_str(), None), (c.runtime.as_str(), None)],
        vec![(l5.as_str(), None), (c.image_version.as_str(), None)],
        vec![(l6.as_str(), None), (cli.as_str(), None)],
    ];
    let rest = render_lines(&lines);
    assert(line_pieces(lines@) =~~= spec_container_status_lines(*c));
    let mut r: Vec<String> = Vec::new();
    r.push(first);
    let ghost rv = string_views(rest@);
    let mut rest_mut = rest;
    r.append(&mut rest_mut);
    proof {
        assert(string_views(r@).skip(1) =~= rv);
    }
    r
}

/// The refusal of a rollback inside the container.
pub const CONTAINER_ROLLBACK_UNSUPPORTED: &'static str = "Rollback is not supported in container runtime.\nUse host runtime instead: occ --runtime host update --rollback";

/// The refusal of updating anything but opencode inside the container.
pub const CONTAINER_UPDATE_ONLY_OPENCODE: &'static str = "Only `occ update opencode` is supported in container runtime.\nTo use host runtime: occ --runtime host update <target>";

/// The refusal of an opencode update inside a container without systemd.
pub const CONTAINER_UPDATE_NEEDS_SYSTEMD: &'static str = "Opencode update requires systemd in container runtime.\nRun the update from the host instead: occ --runtime host update opencode";

/// Inside the container only `update opencode` runs; a rollback is refused first.
pub fn check_container_update(args: &UpdateArgs) -> (r: Result<UpdateOpencodeArgs, String>)
    ensures
        args.rollback ==> (r matches Err(e) && e@ == CONTAINER_ROLLBACK_UNSUPPORTED@),
        !args.rollback ==> match args.command {
            Some(UpdateCommand::Opencode(op)) => r matches Ok(a) && crate::update_listener::opt_view(a.branch)
                == crate::update_listener::opt_view(op.branch) && crate::update_listener::opt_view(a.commit)
                == crate::update_listener::opt_view(op.commit) && a.yes == op.yes,
            _ => r matches Err(e) && e@ == CONTAINER_UPDATE_ONLY_OPENCODE@,
        },
{
    if args.rollback {
        return Err(owned(CONTAINER_ROLLBACK_UNSUPPORTED));
    }
    match &args.command {
        Some(UpdateCommand::Opencode(op)) => Ok(
            UpdateOpencodeArgs { branch: op.branch.clone(), commit: op.commit.clone(), yes: op.yes },
        ),
        _ => Err(owned(CONTAINER_UPDATE_ONLY_OPENCODE)),
    }
}

// ---------------------------------------------------------------------------
// Rebuilding opencode
// ---------------------------------------------------------------------------

/// The refusal of an opencode update without a container.
pub const OPENCODE_NO_CONTAINER: &'static str = "Container does not exist. Start it first with:\n  occ start";

/// The refusal after the user declined to start a stopped container.
pub const OPENCODE_CONTAINER_NOT_STARTED: &'static str = "Container not started. Run:\n  occ start\nthen retry the update.";

/// The note that the container must run for an opencode update.
pub fn container_stopped_note() -> (s: String)
    ensures
        shows_pieces(
            s@,
            seq![("Note:"@, Some(Paint::Yellow)), (" Container is stopped. It must be running to update opencode."@, None)],
        ),
{
    let v: Vec<(&str, Option<Paint>)> = vec![
        ("Note:", Some(Paint::Yellow)),
        (" Container is stopped. It must be running to update opencode.", None),
    ];
    assert(piece_views(v@) =~~= seq![
        ("Note:"@, Some(Paint::Yellow)),
        (" Container is stopped. It must be running to update opencode."@, None),
    ]);
    render(&v)
}

/// The line saying opencode is current, with its commit.
pub fn opencode_up_to_date_line(commit: &str) -> (s: String)
    ensures
        shows_pieces(
            s@,
            seq![
                ("✓"@, Some(Paint::Green)),
                (" Opencode is already up to date (hash: "@, None),
                (commit@, Some(Paint::Dim)),
                (")."@, None),
            ],
        ),
{
    let v: Vec<(&str, Option<Paint>)> = vec![
        ("✓", Some(Paint::Green)),
        (" Opencode is already up to date (hash: ", None),
        (commit, Some(Paint::Dim)),
        (").", None),
    ];
    assert(piece_views(v@) =~~= seq![
        ("✓"@, Some(Paint::Green)),
        (" Opencode is already up to date (hash: "@, None),
        (commit@, Some(Paint::Dim)),
        (")."@, None),
    ]);
    render(&v)
}

pub open spec fn or_unknown_str(o: Option<&str>) -> Seq<char> {
    match o {
        Some(s) => s@,
        None => "unknown"@,
    }
}

/// What is shown before rebuilding opencode: what happens, the current version and
/// commit, and the commit that comes.
pub open spec fn spec_opencode_plan(target_ref: Seq<char>, version: Seq<char>, commit: Seq<char>, next: Seq<char>) -> Seq<
    Seq<Piece>,
> {
    seq![
        plain_line(Seq::empty()),
        seq![
            ("Warning:"@, Some(Paint::YellowBold)),
            (" This will stop the opencode service, update from "@ + target_ref + ", rebuild, and restart."@, None),
        ],
        seq![
            ("Current:    version="@, None),
            (version, Some(Paint::Dim)),
            (", hash="@, None),
            (commit, Some(Paint::Dim)),
        ],
        seq![("Next hash:  "@, None), (next, Some(Paint::Dim))],
        plain_line(Seq::empty()),
    ]
}

/// The lines shown before rebuilding opencode; unknown values read `unknown`.
pub fn opencode_plan_lines(target_ref: &str, version: Option<&str>, commit: Option<&str>, next: Option<&str>) -> (r: Vec<
    String,
>)
    ensures
        shows_lines(
            string_views(r@),
            spec_opencode_plan(target_ref@, or_unknown_str(version), or_unknown_str(commit), or_unknown_str(next)),
        ),
{
    let mut warn = owned(" This will stop the opencode service, update from ");
    append(&mut warn, target_ref);
    append(&mut warn, ", rebuild, and restart.");
    let v = match version {
        Some(x) => x,
        None => "unknown",
    };
    let c = match commit {
        Some(x) => x,
        None => "unknown",
    };
    let n = match next {
        Some(x) => x,
        None => "unknown",
    };
    let lines: Vec<Vec<(&str, Option<Paint>)>> = vec![
        vec![("", None)],
        vec![("Warning:", Some(Paint::YellowBold)), (warn.as_str(), None)],
        vec![("Current:    version=", None), (v, Some(Paint::Dim)), (", hash=", None), (c, Some(Paint::Dim))],
        vec![("Next hash:  ", None), (n, Some(Paint::Dim))],
        vec![("", None)],
    ];
    let r = render_lines(&lines);
    proof {
        reveal_strlit("");
    }
    assert(line_pieces(lines@) =~~= spec_opencode_plan(
        target_ref@,
        or_unknown_str(version),
        or_unknown_str(commit),
        or_unknown_str(next),
    ));
    r
}

/// The `[info]` report of a command's output, when it printed anything.
pub fn command_output_info(what: &str, output: &str) -> (r: Option<String>)
    ensures
        spec_trim(output@).len() == 0 ==> r is None,
        spec_trim(output@).len() > 0 ==> (r matches Some(s) && shows_pieces(
            s@,
            seq![("[info]"@, Some(Paint::Cyan)), (" "@ + what@ + " output:\n"@ + spec_trim(output@), None)],
        )),
{
    let t = trim(&chars_of(output));
    if t.len() == 0 {
        return None;
    }
    let ts = string_of(&t);
    let mut text = owned(" ");
    append(&mut text, what);
    append(&mut text, " output:\n");
    append(&mut text, ts.as_str());
    let v: Vec<(&str, Option<Paint>)> = vec![("[info]", Some(Paint::Cyan)), (text.as_str(), None)];
    assert(piece_views(v@) =~~= seq![
        ("[info]"@, Some(Paint::Cyan)),
        (" "@ + what@ + " output:\n"@ + spec_trim(output@), None),
    ]);
    Some(render(&v))
}

/// The error of a failed opencode rebuild: its exit code and its whole output.
pub fn opencode_update_failed(status: i64, output: &str) -> (e: String)
    ensures
        e@ == "Opencode update failed (exit "@ + spec_signed_decimal(status as int) + ").\n"@ + output@,
{
    let mut e = owned("Opencode update failed (exit ");
    push_signed_decimal(&mut e, status);
    append(&mut e, ").\n");
    append(&mut e, output);
    e
}

/// The error of a failed stop of the opencode processes.
pub fn opencode_stop_failed(status: i64, output: &str) -> (e: String)
    ensures
        e@ == "Failed to stop opencode processes (exit "@ + spec_signed_decimal(status as int) + ").\n"@ + output@,
{
    let mut e = owned("Failed to stop opencode processes (exit ");
    push_signed_decimal(&mut e, status);
    append(&mut e, ").\n");
    append(&mut e, output);
    e
}

/// The error when the rebuilt commit is not the one expected.
pub fn update_not_applied(expected: &str, found: Option<&str>, output: &str) -> (e: String)
    ensures
        e@ == "Opencode update did not apply (expected "@ + expected@ + ", found "@ + or_unknown_str(found)
            + ").\n"@ + output@,
{
    let mut e = owned("Opencode update did not apply (expected ");
    append(&mut e, expected);
    append(&mut e, ", found ");
    append(
        &mut e,
        match found {
            Some(f) => f,
            None => "unknown",
        },
    );
    append(&mut e, ").\n");
    append(&mut e, output);
    e
}

/// The warning after systemd failed to stop opencode, with its output dimmed when
/// there is any; the update goes on.
pub fn systemd_stop_warning_lines(status: i64, output: &str) -> (r: Vec<String>)
    ensures
        shows_lines(
            string_views(r@),
            seq![seq![
                ("Warning:"@, Some(Paint::Yellow)),
                (" Failed to stop opencode via systemd (exit "@ + spec_signed_decimal(status as int)
                    + "). Continuing update."@, None),
            ]] + (if spec_trim(output@).len() == 0 {
                Seq::empty()
            } else {
                seq![seq![(spec_trim(output@), Some(Paint::Dim))]]
            }),
        ),
{
    let mut w = owned(" Failed to stop opencode via systemd (exit ");
    push_signed_decimal(&mut w, status);
    append(&mut w, "). Continuing update.");
    let t = trim(&chars_of(output));
    let ts = string_of(&t);
    let mut lines: Vec<Vec<(&str, Option<Paint>)>> = vec![vec![("Warning:", Some(Paint::Yellow)), (w.as_str(), None)]];
    if t.len() > 0 {
        lines.push(vec![(ts.as_str(), Some(Paint::Dim))]);
    }
    let r = render_lines(&lines);
    assert(line_pieces(lines@) =~~= seq![seq![
        ("Warning:"@, Some(Paint::Yellow)),
        (" Failed to stop opencode via systemd (exit "@ + spec_signed_decimal(status as int) + "). Continuing update."@, None),
    ]] + (if spec_trim(output@).len() == 0 {
        Seq::empty()
    } else {
        seq![seq![(spec_trim(output@), Some(Paint::Dim))]]
    }));
    r
}

/// The error after systemd failed to restart opencode, with its trimmed output.
pub fn systemd_restart_failed(status: i64, output: &str) -> (e: String)
    ensures
        e@ == "Failed to restart opencode via systemd (exit "@ + spec_signed_decimal(status as int) + ")."@ + (if spec_trim(
            output@,
        ).len() == 0 {
            Seq::empty()
        } else {
            "\n"@ + spec_trim(output@)
        }),
{
    let mut e = owned("Failed to restart opencode via systemd (exit ");
    push_signed_decimal(&mut e, status);
    append(&mut e, ").");
    let t = trim(&chars_of(output));
    if t.len() > 0 {
        append(&mut e, "\n");
        let ts = string_of(&t);
        append(&mut e, ts.as_str());
    }
    e
}

/// What is shown after opencode was rebuilt.
pub fn opencode_updated_lines() -> (r: Vec<String>)
    ensures
        shows_lines(
            string_views(r@),
            seq![
                plain_line(Seq::empty()),
                seq![("Success:"@, Some(Paint::GreenBold)), (" Opencode updated successfully!"@, None)],
                plain_line(Seq::empty()),
            ],
        ),
{
    let lines: Vec<Vec<(&str, Option<Paint>)>> = vec![
        vec![("", None)],
        vec![("Success:", Some(Paint::GreenBold)), (" Opencode updated successfully!", None)],
        vec![("", None)],
    ];
    let r = render_lines(&lines);
    proof {
        reveal_strlit("");
    }
    assert(line_pieces(lines@) =~~= seq![
        plain_line(Seq::empty()),
        seq![("Success:"@, Some(Paint::GreenBold)), (" Opencode updated successfully!"@, None)],
        plain_line(Seq::empty()),
    ]);
    r
}

} // verus!
