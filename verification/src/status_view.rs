//! The lines of `occ status`: each section as the styled pieces it is made of.

use vstd::prelude::*;
use crate::runtime::{render_runtime_asset_drift_lines, spec_drift_lines, RuntimeAssetDrift};
use crate::status::{
    format_continuation, format_duration, format_kv, parse_timestamp_display, parse_uptime,
    spec_format_duration, spec_rfc3339_candidate, spec_rfc3339_parse, spec_uptime_at, STATUS_LABEL_WIDTH,
};
use crate::style::{is_painted, piece_views, render, shows_pieces, Paint, Piece};
use crate::text::{append, decimal_string, owned, spec_decimal, spec_join, spec_pad_right, str_eq, string_views};
use crate::mounts::{config_views, host_paths_match, spec_host_paths_match, ConfigMount, ConfigMountView};
use crate::update_listener::MOUNT_STATE;
use crate::iotp::{render_iotp_status, spec_render_iotp, IotpSnapshot, IotpSnapshotView, IotpState, IOTP_FALLBACK_COMMAND};

verus! {

/// Whether each of `lines` shows the pieces expected of it.
pub open spec fn shows_lines(lines: Seq<Seq<char>>, expected: Seq<Seq<Piece>>) -> bool {
    &&& lines.len() == expected.len()
    &&& forall|i: int| 0 <= i < lines.len() ==> shows_pieces(#[trigger] lines[i], expected[i])
}

/// The label column of a status line: the label padded, and a space.
pub open spec fn label_piece(label: Seq<char>) -> Piece {
    (spec_pad_right(label, STATUS_LABEL_WIDTH as nat) + " "@, None)
}

/// The indentation of a continuation line.
pub open spec fn indent_piece() -> Piece {
    (Seq::new((STATUS_LABEL_WIDTH + 1) as nat, |i: int| ' '), None)
}

/// A line of plain text.
pub open spec fn plain_line(t: Seq<char>) -> Seq<Piece> {
    seq![(t, None)]
}

pub(crate) fn label_text(label: &str) -> (s: String)
    ensures
        s@ == label_piece(label@).0,
{
    let s = format_kv(label, "");
    proof {
        reveal_strlit("");
    }
    assert(s@ =~= label_piece(label@).0);
    s
}

fn indent_text() -> (s: String)
    ensures
        s@ == indent_piece().0,
{
    let s = format_continuation("");
    proof {
        reveal_strlit("");
    }
    assert(s@ =~= indent_piece().0);
    s
}

/// Renders one more line.
pub(crate) fn push_rendered(out: &mut Vec<String>, v: &Vec<(&str, Option<Paint>)>, Ghost(expected): Ghost<Seq<Seq<Piece>>>)
    requires
        shows_lines(string_views(old(out)@), expected),
    ensures
        shows_lines(string_views(final(out)@), expected.push(piece_views(v@))),
{
    let s = render(v);
    let ghost before = string_views(out@);
    out.push(s);
    proof {
        let after = string_views(out@);
        let exp = expected.push(piece_views(v@));
        assert(after =~= before.push(s@));
        assert forall|i: int| 0 <= i < after.len() implies shows_pieces(#[trigger] after[i], exp[i]) by {
            if i < before.len() {
                assert(after[i] == before[i]);
                assert(exp[i] == expected[i]);
            }
        }
    }
}

/// The pieces of each line.
pub open spec fn line_pieces<'a>(lines: Seq<Vec<(&'a str, Option<Paint>)>>) -> Seq<Seq<Piece>> {
    lines.map_values(|v: Vec<(&'a str, Option<Paint>)>| piece_views(v@))
}

/// Renders each line from its pieces.
pub fn render_lines(lines: &Vec<Vec<(&str, Option<Paint>)>>) -> (r: Vec<String>)
    ensures
        shows_lines(string_views(r@), line_pieces(lines@)),
{
    let mut r: Vec<String> = Vec::new();
    assert(string_views(r@) =~= Seq::<Seq<char>>::empty());
    let mut i: usize = 0;
    assert(line_pieces(lines@.take(0)) =~= Seq::<Seq<Piece>>::empty());
    while i < lines.len()
        invariant
            i <= lines@.len(),
            shows_lines(string_views(r@), line_pieces(lines@.take(i as int))),
        decreases lines@.len() - i,
    {
        push_rendered(&mut r, &lines[i], Ghost(line_pieces(lines@.take(i as int))));
        assert(line_pieces(lines@.take(i as int)).push(piece_views(lines@[i as int]@)) =~= line_pieces(
            lines@.take(i + 1),
        ));
        i = i + 1;
    }
    assert(lines@.take(lines@.len() as int) =~= lines@);
    r
}

/// Each item on a line of its own, indented by two spaces and styled `p`.
pub open spec fn item_lines(items: Seq<Seq<char>>, p: Paint) -> Seq<Seq<Piece>> {
    items.map_values(|t: Seq<char>| seq![("  "@, None), (t, Some(p))])
}

/// Renders each item on a line of its own.
pub(crate) fn push_items(out: &mut Vec<String>, items: &Vec<String>, p: Paint, Ghost(expected): Ghost<Seq<Seq<Piece>>>)
    requires
        shows_lines(string_views(old(out)@), expected),
    ensures
        shows_lines(string_views(final(out)@), expected + item_lines(string_views(items@), p)),
{
    let ghost all = string_views(items@);
    let mut i: usize = 0;
    assert(expected + item_lines(all.take(0), p) =~= expected);
    while i < items.len()
        invariant
            i <= items@.len(),
            all == string_views(items@),
            shows_lines(string_views(out@), expected + item_lines(all.take(i as int), p)),
        decreases items@.len() - i,
    {
        let ghost before = expected + item_lines(all.take(i as int), p);
        let v: Vec<(&str, Option<Paint>)> = vec![("  ", None), (items[i].as_str(), Some(p))];
        push_rendered(out, &v, Ghost(before));
        proof {
            assert(all[i as int] == items@[i as int]@);
            assert(all.take(i + 1) =~= all.take(i as int).push(all[i as int]));
            assert(before.push(piece_views(v@)) =~~= expected + item_lines(all.take(i + 1), p));
        }
        i = i + 1;
    }
    assert(all.take(items@.len() as int) =~= all);
}

/// The header of a section: a blank line, the title in bold and a dim rule.
pub open spec fn spec_section_header(title: Seq<char>, rule: Seq<char>) -> Seq<Seq<Piece>> {
    seq![plain_line(Seq::empty()), seq![(title, Some(Paint::Bold))], seq![(rule, Some(Paint::Dim))]]
}

fn push_section_header(out: &mut Vec<String>, title: &str, rule: &str, Ghost(expected): Ghost<Seq<Seq<Piece>>>)
    requires
        shows_lines(string_views(old(out)@), expected),
    ensures
        shows_lines(string_views(final(out)@), expected + spec_section_header(title@, rule@)),
{
    proof {
        reveal_strlit("");
    }
    let v1: Vec<(&str, Option<Paint>)> = vec![("", None)];
    push_rendered(out, &v1, Ghost(expected));
    let ghost e1 = expected.push(piece_views(v1@));
    let v2: Vec<(&str, Option<Paint>)> = vec![(title, Some(Paint::Bold))];
    push_rendered(out, &v2, Ghost(e1));
    let ghost e2 = e1.push(piece_views(v2@));
    let v3: Vec<(&str, Option<Paint>)> = vec![(rule, Some(Paint::Dim))];
    push_rendered(out, &v3, Ghost(e2));
    assert(e2.push(piece_views(v3@)) =~~= expected + spec_section_header(title@, rule@));
}

/// The lines that open a section of the status output.
pub fn section_header_lines(title: &str) -> (r: Vec<String>)
    ensures
        shows_lines(string_views(r@), spec_section_header(title@, "------"@)),
{
    let mut r: Vec<String> = Vec::new();
    assert(string_views(r@) =~= Seq::<Seq<char>>::empty());
    push_section_header(&mut r, title, "------", Ghost(Seq::empty()));
    assert(Seq::<Seq<Piece>>::empty() + spec_section_header(title@, "------"@) =~= spec_section_header(
        title@,
        "------"@,
    ));
    r
}

// ---------------------------------------------------------------------------
// The service section
// ---------------------------------------------------------------------------

/// The URLs of the service: the local one; for a remote host the remote one, and
/// the local one marked as being on that host.
pub open spec fn spec_url_lines(remote_url: Option<Seq<char>>, local_url: Seq<char>) -> Seq<Seq<Piece>> {
    match remote_url {
        None => seq![seq![label_piece("Local URL:"@), (local_url, Some(Paint::Cyan))]],
        Some(r) => seq![
            seq![label_piece("Remote URL:"@), (r, Some(Paint::Cyan))],
            seq![
                label_piece("Local URL:"@),
                (local_url, Some(Paint::Dim)),
                (" "@, None),
                ("(on remote host)"@, Some(Paint::Dim)),
            ],
        ],
    }
}

/// The URL lines of the service.
pub fn url_lines(remote_url: Option<&str>, local_url: &str) -> (r: Vec<String>)
    ensures
        shows_lines(
            string_views(r@),
            spec_url_lines(
                match remote_url {
                    Some(u) => Some(u@),
                    None => None,
                },
                local_url@,
            ),
        ),
{
    let mut r: Vec<String> = Vec::new();
    assert(string_views(r@) =~= Seq::<Seq<char>>::empty());
    match remote_url {
        None => {
            let l = label_text("Local URL:");
            let v: Vec<(&str, Option<Paint>)> = vec![(l.as_str(), None), (local_url, Some(Paint::Cyan))];
            push_rendered(&mut r, &v, Ghost(Seq::empty()));
            assert(Seq::<Seq<Piece>>::empty().push(piece_views(v@)) =~~= spec_url_lines(None, local_url@));
        },
        Some(u) => {
            let l1 = label_text("Remote URL:");
            let v1: Vec<(&str, Option<Paint>)> = vec![(l1.as_str(), None), (u, Some(Paint::Cyan))];
            push_rendered(&mut r, &v1, Ghost(Seq::empty()));
            let ghost e1 = Seq::<Seq<Piece>>::empty().push(piece_views(v1@));
            let l2 = label_text("Local URL:");
            let v2: Vec<(&str, Option<Paint>)> = vec![
                (l2.as_str(), None),
                (local_url, Some(Paint::Dim)),
                (" ", None),
                ("(on remote host)", Some(Paint::Dim)),
            ];
            push_rendered(&mut r, &v2, Ghost(e1));
            assert(e1.push(piece_views(v2@)) =~~= spec_url_lines(Some(u@), local_url@));
        },
    }
    r
}

/// The uptime line: how long the service runs, and since when.
pub open spec fn spec_uptime_line(secs: nat, since: Seq<char>) -> Seq<char> {
    label_piece("Uptime:"@).0 + spec_format_duration(secs) + " (since "@ + since + ")"@
}

/// The uptime line for an uptime in whole seconds and the start as shown.
pub fn uptime_line(secs: u64, since: &str) -> (s: String)
    ensures
        s@ == spec_uptime_line(secs as nat, since@),
{
    let mut v = format_duration(secs);
    append(&mut v, " (since ");
    append(&mut v, since);
    append(&mut v, ")");
    let s = format_kv("Uptime:", v.as_str());
    assert(s@ =~= spec_uptime_line(secs as nat, since@));
    s
}

/// The uptime line of a container started at `started_at` when the clock reads
/// `now`: none without a start time, when it does not parse or when it lies ahead;
/// otherwise the whole seconds elapsed since the start, shown in UTC.
pub open spec fn spec_uptime_status(started_at: Option<Seq<char>>, now: (int, int)) -> Option<Seq<char>> {
    match started_at {
        None => None,
        Some(t) => match spec_uptime_at(t, now) {
            None => None,
            Some(u) => Some(spec_uptime_line(u.0, u.1)),
        },
    }
}

/// The uptime line of a container started at `started_at`, read against the clock:
/// none without a start time or when it does not parse; otherwise the uptime line
/// at the instant the clock was read (none if the start lies ahead of it).
pub fn uptime_status_line(started_at: Option<&str>) -> (r: Option<String>)
    ensures
        started_at is None ==> r is None,
        started_at matches Some(t) && spec_rfc3339_parse(spec_rfc3339_candidate(t@)) is None ==> r is None,
        r matches Some(s) ==> started_at matches Some(t) && spec_rfc3339_parse(spec_rfc3339_candidate(t@))
            matches Some(p) && exists|secs: nat| s@ == spec_uptime_line(secs, p.1),
        exists|now: (int, int)|
            #[trigger] spec_uptime_status(crate::logs::opt_str_view(started_at), now) == (match r {
                Some(s) => Some(s@),
                None => None,
            }),
{
    match started_at {
        None => {
            assert(spec_uptime_status(None, (0, 0)) == None::<Seq<char>>);
            None
        },
        Some(t) => {
            let u = parse_uptime(t);
            let ghost now = choose|now: (int, int)| #[trigger] spec_uptime_at(t@, now) == (match u {
                Some(x) => Some((x.0 as nat, x.1@)),
                None => None,
            });
            match u {
                None => {
                    assert(spec_uptime_status(Some(t@), now) == None::<Seq<char>>);
                    None
                },
                Some((secs, since)) => {
                    let s = uptime_line(secs, since.as_str());
                    assert(s@ == spec_uptime_line(secs as nat, since@));
                    assert(spec_uptime_status(Some(t@), now) == Some(s@));
                    Some(s)
                },
            }
        },
    }
}

/// The port line: the host port mapped to the container's.
pub open spec fn spec_port_line(port: u16) -> Seq<Piece> {
    seq![label_piece("Port:"@), (spec_decimal(port as nat), Some(Paint::Cyan)), (" -> container:3000"@, None)]
}

/// The port line.
pub fn port_line(port: u16) -> (s: String)
    ensures
        shows_pieces(s@, spec_port_line(port)),
{
    let l = label_text("Port:");
    let p = decimal_string(port as u64);
    let v: Vec<(&str, Option<Paint>)> = vec![(l.as_str(), None), (p.as_str(), Some(Paint::Cyan)), (" -> container:3000", None)];
    assert(piece_views(v@) =~= spec_port_line(port));
    render(&v)
}

/// The version and commit lines, with a link to a known commit.
pub open spec fn spec_version_commit_lines(version: Seq<char>, commit: Seq<char>) -> Seq<Seq<Piece>> {
    let base = seq![
        seq![label_piece("Version:"@), (version, None)],
        seq![label_piece("Commit:"@), (commit, None)],
    ];
    if commit == "unknown"@ {
        base
    } else {
        base.push(seq![
            label_piece("Commit link:"@),
            ("https://github.com/pRizz/opencode/commit/"@ + commit, Some(Paint::Cyan)),
        ])
    }
}

/// The version and commit lines of opencode.
pub fn version_commit_lines(version: &str, commit: &str) -> (r: Vec<String>)
    ensures
        shows_lines(string_views(r@), spec_version_commit_lines(version@, commit@)),
{
    let mut r: Vec<String> = Vec::new();
    assert(string_views(r@) =~= Seq::<Seq<char>>::empty());
    let l1 = label_text("Version:");
    let v1: Vec<(&str, Option<Paint>)> = vec![(l1.as_str(), None), (version, None)];
    push_rendered(&mut r, &v1, Ghost(Seq::empty()));
    let ghost e1 = Seq::<Seq<Piece>>::empty().push(piece_views(v1@));
    let l2 = label_text("Commit:");
    let v2: Vec<(&str, Option<Paint>)> = vec![(l2.as_str(), None), (commit, None)];
    push_rendered(&mut r, &v2, Ghost(e1));
    let ghost e2 = e1.push(piece_views(v2@));
    if !str_eq(commit, "unknown") {
        let mut link = owned("https://github.com/pRizz/opencode/commit/");
        append(&mut link, commit);
        let l3 = label_text("Commit link:");
        let v3: Vec<(&str, Option<Paint>)> = vec![(l3.as_str(), None), (link.as_str(), Some(Paint::Cyan))];
        push_rendered(&mut r, &v3, Ghost(e2));
        assert(e2.push(piece_views(v3@)) =~~= spec_version_commit_lines(version@, commit@));
    } else {
        assert(e2 =~~= spec_version_commit_lines(version@, commit@));
    }
    r
}

/// The command that creates a container user, on the remote host when there is one.
pub open spec fn spec_user_add_command(host_name: Option<Seq<char>>) -> Seq<char> {
    match host_name {
        Some(n) => "occ user add <username> --remote-host "@ + n,
        None => "occ user add <username>"@,
    }
}

/// The Cockpit lines, shown only when Cockpit is enabled and exposed: its URL, and
/// how to create the container user it authenticates.
pub open spec fn spec_cockpit_lines(enabled: bool, exposed: bool, url: Seq<char>, host_name: Option<Seq<char>>) -> Seq<
    Seq<Piece>,
> {
    if !enabled || !exposed {
        Seq::empty()
    } else {
        seq![
            seq![label_piece("Cockpit:"@), (url, Some(Paint::Cyan)), (" -> container:9090"@, None)],
            seq![indent_piece(), ("Cockpit authenticates against container system users."@, Some(Paint::Dim))],
            seq![
                indent_piece(),
                ("Create a container user with:"@, Some(Paint::Dim)),
                (" "@, None),
                (spec_user_add_command(host_name), Some(Paint::Cyan)),
            ],
        ]
    }
}

/// The Cockpit lines of the status output.
pub fn cockpit_lines(enabled: bool, exposed: bool, url: &str, host_name: Option<&str>) -> (r: Vec<String>)
    ensures
        shows_lines(
            string_views(r@),
            spec_cockpit_lines(
                enabled,
                exposed,
                url@,
                match host_name {
                    Some(n) => Some(n@),
                    None => None,
                },
            ),
        ),
{
    let ghost hn = match host_name {
        Some(n) => Some(n@),
        None => None,
    };
    let mut r: Vec<String> = Vec::new();
    assert(string_views(r@) =~= Seq::<Seq<char>>::empty());
    if !enabled || !exposed {
        return r;
    }
    let l1 = label_text("Cockpit:");
    let v1: Vec<(&str, Option<Paint>)> = vec![(l1.as_str(), None), (url, Some(Paint::Cyan)), (" -> container:9090", None)];
    push_rendered(&mut r, &v1, Ghost(Seq::empty()));
    let ghost e1 = Seq::<Seq<Piece>>::empty().push(piece_views(v1@));
    let ind = indent_text();
    let v2: Vec<(&str, Option<Paint>)> = vec![
        (ind.as_str(), None),
        ("Cockpit authenticates against container system users.", Some(Paint::Dim)),
    ];
    push_rendered(&mut r, &v2, Ghost(e1));
    let ghost e2 = e1.push(piece_views(v2@));
    let user_cmd = match host_name {
        Some(n) => {
            let mut c = owned("occ user add <username> --remote-host ");
            append(&mut c, n);
            c
        },
        None => owned("occ user add <username>"),
    };
    assert(user_cmd@ == spec_user_add_command(hn));
    let v3: Vec<(&str, Option<Paint>)> = vec![
        (ind.as_str(), None),
        ("Create a container user with:", Some(Paint::Dim)),
        (" ", None),
        (user_cmd.as_str(), Some(Paint::Cyan)),
    ];
    push_rendered(&mut r, &v3, Ghost(e2));
    assert(e2.push(piece_views(v3@)) =~~= spec_cockpit_lines(enabled, exposed, url@, hn));
    r
}

/// The style of a sandbox health value: green when healthy, red when unhealthy,
/// yellow while starting, dim otherwise.
pub open spec fn spec_health_paint(health: Seq<char>) -> Paint {
    if health == "healthy"@ {
        Paint::Green
    } else if health == "unhealthy"@ {
        Paint::Red
    } else if health == "starting"@ {
        Paint::Yellow
    } else {
        Paint::Dim
    }
}

/// The sandbox health line of a remote host, when its health is known.
pub fn remote_health_line(health: Option<&str>) -> (r: Option<String>)
    ensures
        match health {
            None => r is None,
            Some(h) => r matches Some(s) && shows_pieces(
                s@,
                seq![label_piece("Sandbox Health:"@), (h@, Some(spec_health_paint(h@)))],
            ),
        },
{
    match health {
        None => None,
        Some(h) => {
            let p = if str_eq(h, "healthy") {
                Paint::Green
            } else if str_eq(h, "unhealthy") {
                Paint::Red
            } else if str_eq(h, "starting") {
                Paint::Yellow
            } else {
                Paint::Dim
            };
            let l = label_text("Sandbox Health:");
            let v: Vec<(&str, Option<Paint>)> = vec![(l.as_str(), None), (h, Some(p))];
            assert(piece_views(v@) =~= seq![label_piece("Sandbox Health:"@), (h@, Some(spec_health_paint(h@)))]);
            Some(render(&v))
        },
    }
}

/// The stale-assets warning: nothing without drift; otherwise a yellow heading and
/// each warning line, yellow, under the value column.
pub open spec fn spec_drift_warning_lines(report: RuntimeAssetDrift, verbose: u8) -> Seq<Seq<Piece>> {
    if !report.drift_detected {
        Seq::empty()
    } else {
        seq![seq![label_piece("Dev sync:"@), ("stale container assets detected"@, Some(Paint::Yellow))]]
            + spec_drift_lines(report, verbose).map_values(
            |l: Seq<char>| seq![indent_piece(), (l, Some(Paint::Yellow))],
        )
    }
}

/// The stale-assets warning of the status output.
pub fn drift_warning_lines(report: &RuntimeAssetDrift, verbose: u8) -> (r: Vec<String>)
    ensures
        shows_lines(string_views(r@), spec_drift_warning_lines(*report, verbose)),
{
    let mut r: Vec<String> = Vec::new();
    assert(string_views(r@) =~= Seq::<Seq<char>>::empty());
    if !report.drift_detected {
        return r;
    }
    let l = label_text("Dev sync:");
    let v: Vec<(&str, Option<Paint>)> = vec![(l.as_str(), None), ("stale container assets detected", Some(Paint::Yellow))];
    push_rendered(&mut r, &v, Ghost(Seq::empty()));
    let ghost head = Seq::<Seq<Piece>>::empty().push(piece_views(v@));
    let lines = render_runtime_asset_drift_lines(report, verbose);
    let ghost all = spec_drift_lines(*report, verbose);
    let ind = indent_text();
    let mut i: usize = 0;
    while i < lines.len()
        invariant
            i <= lines@.len(),
            string_views(lines@) == all,
            ind@ == indent_piece().0,
            shows_lines(
                string_views(r@),
                head + all.take(i as int).map_values(|l: Seq<char>| seq![indent_piece(), (l, Some(Paint::Yellow))]),
            ),
        decreases lines@.len() - i,
    {
        let ghost before = head + all.take(i as int).map_values(
            |l: Seq<char>| seq![indent_piece(), (l, Some(Paint::Yellow))],
        );
        let w: Vec<(&str, Option<Paint>)> = vec![(ind.as_str(), None), (lines[i].as_str(), Some(Paint::Yellow))];
        push_rendered(&mut r, &w, Ghost(before));
        proof {
            assert(all[i as int] == lines@[i as int]@);
            assert(all.take(i + 1) =~= all.take(i as int).push(all[i as int]));
            assert(before.push(piece_views(w@)) =~~= head + all.take(i + 1).map_values(
                |l: Seq<char>| seq![indent_piece(), (l, Some(Paint::Yellow))],
            ));
        }
        i = i + 1;
    }
    assert(all.take(lines@.len() as int) =~= all);
    assert(head + all.map_values(|l: Seq<char>| seq![indent_piece(), (l, Some(Paint::Yellow))])
        =~~= spec_drift_warning_lines(*report, verbose));
    r
}

/// The line that shows the configuration file; on a remote host it is the local one.
pub fn config_path_line(remote: bool, config_path: &str) -> (s: String)
    ensures
        shows_pieces(
            s@,
            seq![
                label_piece(if remote { "Local Config:"@ } else { "Config:"@ }),
                (config_path@, Some(Paint::Dim)),
            ],
        ),
{
    let l = label_text(crate::status::config_path_label(remote));
    let v: Vec<(&str, Option<Paint>)> = vec![(l.as_str(), None), (config_path, Some(Paint::Dim))];
    assert(piece_views(v@) =~= seq![
        label_piece(if remote { "Local Config:"@ } else { "Config:"@ }),
        (config_path@, Some(Paint::Dim)),
    ]);
    render(&v)
}

/// The stopped section: when the last run's end parses, a blank line and that time;
/// then a blank line and how to start the service.
pub open spec fn spec_stopped_lines(last_run: Option<Seq<char>>) -> Seq<Seq<Piece>> {
    let tail = seq![
        plain_line(Seq::empty()),
        seq![("Run '"@, None), ("occ start"@, Some(Paint::Cyan)), ("' to start the service."@, None)],
    ];
    match last_run {
        Some(d) => seq![plain_line(Seq::empty()), seq![label_piece("Last run:"@), (d, Some(Paint::Dim))]] + tail,
        None => tail,
    }
}

/// The lines shown for a stopped service.
pub fn stopped_section_lines(finished_at: Option<&str>) -> (r: Vec<String>)
    ensures
        shows_lines(
            string_views(r@),
            spec_stopped_lines(
                match finished_at {
                    Some(f) => match spec_rfc3339_parse(spec_rfc3339_candidate(f@)) {
                        Some(p) => Some(p.0),
                        None => None,
                    },
                    None => None,
                },
            ),
        ),
{
    let mut r: Vec<String> = Vec::new();
    assert(string_views(r@) =~= Seq::<Seq<char>>::empty());
    let shown = match finished_at {
        Some(f) => parse_timestamp_display(f),
        None => None,
    };
    let ghost mut e: Seq<Seq<Piece>> = Seq::empty();
    match &shown {
        Some(d) => {
            let v1: Vec<(&str, Option<Paint>)> = vec![("", None)];
            push_rendered(&mut r, &v1, Ghost(e));
            proof {
                e = e.push(piece_views(v1@));
            }
            let l = label_text("Last run:");
            let v2: Vec<(&str, Option<Paint>)> = vec![(l.as_str(), None), (d.as_str(), Some(Paint::Dim))];
            push_rendered(&mut r, &v2, Ghost(e));
            proof {
                e = e.push(piece_views(v2@));
            }
        },
        None => {},
    }
    let v3: Vec<(&str, Option<Paint>)> = vec![("", None)];
    push_rendered(&mut r, &v3, Ghost(e));
    proof {
        e = e.push(piece_views(v3@));
    }
    let v4: Vec<(&str, Option<Paint>)> = vec![("Run '", None), ("occ start", Some(Paint::Cyan)), ("' to start the service.", None)];
    push_rendered(&mut r, &v4, Ghost(e));
    proof {
        reveal_strlit("");
        e = e.push(piece_views(v4@));
        let lr = match finished_at {
            Some(f) => match spec_rfc3339_parse(spec_rfc3339_candidate(f@)) {
                Some(p) => Some(p.0),
                None => None,
            },
            None => None,
        };
        match shown {
            Some(d) => {
                assert(lr == Some(d@));
            },
            None => {
                assert(lr is None);
            },
        }
        assert(e =~~= spec_stopped_lines(lr));
    }
    r
}

// ---------------------------------------------------------------------------
// Mounts
// ---------------------------------------------------------------------------

/// The container path of opencode's data.
pub const MOUNT_SESSION: &'static str = "/home/opencoder/.local/share/opencode";

/// The container path of opencode's cache.
pub const MOUNT_CACHE: &'static str = "/home/opencoder/.cache/opencode";

/// The container path of the workspace.
pub const MOUNT_PROJECTS: &'static str = "/home/opencoder/workspace";

/// The container path of opencode's configuration.
pub const MOUNT_CONFIG: &'static str = "/home/opencoder/.config/opencode";

/// What a well-known container path holds.
pub open spec fn spec_mount_purpose(target: Seq<char>) -> Option<Seq<char>> {
    if target == MOUNT_SESSION@ {
        Some("opencode data"@)
    } else if target == MOUNT_STATE@ {
        Some("opencode state"@)
    } else if target == MOUNT_CACHE@ {
        Some("opencode cache"@)
    } else if target == MOUNT_PROJECTS@ {
        Some("workspace files"@)
    } else if target == MOUNT_CONFIG@ {
        Some("opencode config"@)
    } else {
        None
    }
}

/// Names what a well-known container path holds.
pub fn mount_purpose(target: &str) -> (r: Option<&'static str>)
    ensures
        match r {
            Some(p) => spec_mount_purpose(target@) == Some(p@),
            None => spec_mount_purpose(target@) is None,
        },
{
    if str_eq(target, MOUNT_SESSION) {
        Some("opencode data")
    } else if str_eq(target, MOUNT_STATE) {
        Some("opencode state")
    } else if str_eq(target, MOUNT_CACHE) {
        Some("opencode cache")
    } else if str_eq(target, MOUNT_PROJECTS) {
        Some("workspace files")
    } else if str_eq(target, MOUNT_CONFIG) {
        Some("opencode config")
    } else {
        None
    }
}

/// The kind of a mount of the container.
#[derive(Debug, Clone, Copy, PartialEq, Eq, Structural)]
pub enum MountKind {
    Volume,
    Bind,
    Other,
}

/// A mount of the running container, as Docker reports it.
#[derive(Debug, Clone)]
pub struct ContainerMount {
    pub kind: MountKind,
    pub source: Option<String>,
    pub target: Option<String>,
    pub read_only: Option<bool>,
}

pub open spec fn or_unknown(o: Option<String>) -> Seq<char> {
    match o {
        Some(s) => s@,
        None => "unknown"@,
    }
}

pub open spec fn spec_mode(read_only: Option<bool>) -> Seq<char> {
    if read_only == Some(true) {
        "ro"@
    } else {
        "rw"@
    }
}

/// The value of `key` in a list of distinct keys and their values.
pub open spec fn spec_lookup(pairs: Seq<(Seq<char>, Seq<char>)>, key: Seq<char>) -> Option<Seq<char>>
    decreases pairs.len(),
{
    if pairs.len() == 0 {
        None
    } else if pairs[0].0 == key {
        Some(pairs[0].1)
    } else {
        spec_lookup(pairs.skip(1), key)
    }
}

pub open spec fn pair_views(v: Seq<(String, String)>) -> Seq<(Seq<char>, Seq<char>)> {
    v.map_values(|p: (String, String)| (p.0@, p.1@))
}

/// The dim note on what a mount holds, when its target is well known.
pub open spec fn spec_annotation(target: Seq<char>) -> Seq<char> {
    match spec_mount_purpose(target) {
        Some(p) => " - "@ + p,
        None => Seq::empty(),
    }
}

/// The two lines of a volume: where it is, marked when that is the volume's
/// mount point rather than its name, then how to look inside it.
pub open spec fn spec_volume_entry(m: ContainerMount, mountpoints: Seq<(Seq<char>, Seq<char>)>) -> Seq<Seq<Piece>> {
    let source = or_unknown(m.source);
    let target = or_unknown(m.target);
    let shown = match spec_lookup(mountpoints, source) {
        Some(p) => p,
        None => source,
    };
    let name_tag = if shown == source { Seq::empty() } else { " (volume)"@ };
    seq![
        seq![
            ("    "@, None),
            (shown, Some(Paint::Cyan)),
            (" -> "@, None),
            (target, None),
            (" "@, None),
            (spec_mode(m.read_only), Some(Paint::Dim)),
            (name_tag, Some(Paint::Dim)),
            (spec_annotation(target), Some(Paint::Dim)),
        ],
        seq![
            ("      "@, None),
            ("docker run --rm -it -v "@ + source + ":/data -w /data alpine sh"@, Some(Paint::Dim)),
        ],
    ]
}

/// The lines of the volumes among `ms`, in order.
pub open spec fn spec_volume_section(ms: Seq<ContainerMount>, mountpoints: Seq<(Seq<char>, Seq<char>)>) -> Seq<
    Seq<Piece>,
>
    decreases ms.len(),
{
    if ms.len() == 0 {
        Seq::empty()
    } else {
        spec_volume_section(ms.drop_last(), mountpoints) + if ms.last().kind == MountKind::Volume {
            spec_volume_entry(ms.last(), mountpoints)
        } else {
            Seq::empty()
        }
    }
}

/// Whether a bind mount is one of the configured ones: same target, and a source
/// that is the configured host path as Docker reports it.
pub open spec fn spec_from_config(source: Seq<char>, target: Seq<char>, config: Seq<ConfigMountView>) -> bool {
    exists|j: int|
        0 <= j < config.len() && (#[trigger] config[j]).parsed is Some && spec_host_paths_match(
            source,
            config[j].parsed->0.host,
        ) && target == config[j].parsed->0.target
}

/// The line of a bind mount: its source as the host shows it, its target and
/// mode, and whether it came from the configuration or the command line.
pub open spec fn spec_bind_entry(m: ContainerMount, config: Seq<ConfigMountView>, is_macos: bool) -> Seq<Piece> {
    let source = or_unknown(m.source);
    let target = or_unknown(m.target);
    let shown = if is_macos && "/host_mnt"@.is_prefix_of(source) {
        source.skip("/host_mnt"@.len() as int)
    } else {
        source
    };
    let tag = if spec_from_config(source, target, config) {
        ("(config)"@, Some(Paint::Dim))
    } else {
        ("(cli)"@, Some(Paint::Cyan))
    };
    seq![
        ("    "@, None),
        (shown, Some(Paint::Cyan)),
        (" -> "@, None),
        (target, None),
        (" "@, None),
        (spec_mode(m.read_only), Some(Paint::Dim)),
        (" "@, None),
        tag,
        (spec_annotation(target), Some(Paint::Dim)),
    ]
}

/// The lines of the bind mounts among `ms`, in order.
pub open spec fn spec_bind_section(ms: Seq<ContainerMount>, config: Seq<ConfigMountView>, is_macos: bool) -> Seq<
    Seq<Piece>,
>
    decreases ms.len(),
{
    if ms.len() == 0 {
        Seq::empty()
    } else {
        spec_bind_section(ms.drop_last(), config, is_macos) + if ms.last().kind == MountKind::Bind {
            seq![spec_bind_entry(ms.last(), config, is_macos)]
        } else {
            Seq::empty()
        }
    }
}

/// How to look inside volumes; on macOS they live in Docker Desktop's VM.
pub open spec fn spec_mounts_hint(is_macos: bool) -> Seq<char> {
    if is_macos {
        "Hint: Docker Desktop stores volumes inside its VM. Use `docker run --rm -it -v <volume>:/data -w /data alpine sh` to inspect volumes."@
    } else {
        "Hint: Inspect volumes with: docker run --rm -it -v <volume>:/data -w /data alpine sh"@
    }
}

/// The Mounts section: nothing without volumes or bind mounts; otherwise its header,
/// the hint, then the volumes and the bind mounts, each list or `(none)`.
pub open spec fn spec_mounts_section(
    ms: Seq<ContainerMount>,
    config: Seq<ConfigMountView>,
    mountpoints: Seq<(Seq<char>, Seq<char>)>,
    is_macos: bool,
) -> Seq<Seq<Piece>> {
    let vols = spec_volume_section(ms, mountpoints);
    let binds = spec_bind_section(ms, config, is_macos);
    if vols.len() == 0 && binds.len() == 0 {
        Seq::empty()
    } else {
        spec_section_header("Mounts"@, "------"@) + seq![seq![(spec_mounts_hint(is_macos), Some(Paint::Dim))]] + (if vols.len()
            == 0 {
            seq![seq![("  Volumes: "@, None), ("(none)"@, Some(Paint::Dim))]]
        } else {
            seq![plain_line("  Volumes:"@)] + vols
        }) + (if binds.len() == 0 {
            seq![seq![("  Bind mounts: "@, None), ("(none)"@, Some(Paint::Dim))]]
        } else {
            seq![plain_line("  Bind mounts:"@)] + binds
        })
    }
}

pub(crate) fn push_all_lines(out: &mut Vec<String>, more: Vec<String>, Ghost(e1): Ghost<Seq<Seq<Piece>>>, Ghost(e2): Ghost<Seq<Seq<Piece>>>)
    requires
        shows_lines(string_views(old(out)@), e1),
        shows_lines(string_views(more@), e2),
    ensures
        shows_lines(string_views(final(out)@), e1 + e2),
{
    let mut m = more;
    let ghost a = string_views(out@);
    let ghost b = string_views(m@);
    out.append(&mut m);
    proof {
        let c = string_views(out@);
        let e = e1 + e2;
        assert(c =~= a + b);
        assert forall|i: int| 0 <= i < c.len() implies shows_pieces(#[trigger] c[i], e[i]) by {
            if i < a.len() {
                assert(c[i] == a[i]);
                assert(e[i] == e1[i]);
            } else {
                assert(c[i] == b[i - a.len()]);
                assert(e[i] == e2[i - a.len()]);
            }
        }
    }
}

fn lookup_mountpoint(pairs: &Vec<(String, String)>, key: &str) -> (r: Option<String>)
    ensures
        match r {
            Some(v) => spec_lookup(pair_views(pairs@), key@) == Some(v@),
            None => spec_lookup(pair_views(pairs@), key@) is None,
        },
{
    let ghost all = pair_views(pairs@);
    assert(all.skip(0) =~= all);
    let mut i: usize = 0;
    while i < pairs.len()
        invariant
            i <= pairs@.len(),
            all == pair_views(pairs@),
            spec_lookup(all, key@) == spec_lookup(all.skip(i as int), key@),
        decreases pairs@.len() - i,
    {
        proof {
            assert(all.skip(i as int)[0] == all[i as int]);
            assert(all.skip(i as int).skip(1) =~= all.skip(i + 1));
        }
        if str_eq(pairs[i].0.as_str(), key) {
            return Some(pairs[i].1.clone());
        }
        i = i + 1;
    }
    assert(all.skip(pairs@.len() as int).len() == 0);
    None
}

fn from_config(source: &str, target: &str, config: &Vec<ConfigMount>) -> (b: bool)
    ensures
        b == spec_from_config(source@, target@, config_views(config@)),
{
    let ghost cv = config_views(config@);
    let mut i: usize = 0;
    while i < config.len()
        invariant
            i <= config@.len(),
            cv == config_views(config@),
            forall|j: int|
                0 <= j < i ==> !((#[trigger] cv[j]).parsed is Some && spec_host_paths_match(
                    source@,
                    cv[j].parsed->0.host,
                ) && target@ == cv[j].parsed->0.target),
        decreases config@.len() - i,
    {
        proof {
            assert(cv[i as int] == config@[i as int]@);
        }
        match &config[i].parsed {
            Some(c) => {
                if host_paths_match(source, c.host_path.as_str()) && str_eq(target, c.container_path.as_str()) {
                    return true;
                }
            },
            None => {},
        }
        i = i + 1;
    }
    false
}

fn str_or_unknown(o: &Option<String>) -> (s: &str)
    ensures
        s@ == or_unknown(*o),
{
    match o {
        Some(v) => v.as_str(),
        None => "unknown",
    }
}

fn volume_entry_lines(m: &ContainerMount, mountpoints: &Vec<(String, String)>) -> (r: Vec<String>)
    ensures
        shows_lines(string_views(r@), spec_volume_entry(*m, pair_views(mountpoints@))),
{
    let source = str_or_unknown(&m.source);
    let target = str_or_unknown(&m.target);
    let found = lookup_mountpoint(mountpoints, source);
    let shown: String = match found {
        Some(p) => p,
        None => owned(source),
    };
    let name_tag = if str_eq(shown.as_str(), source) { "" } else { " (volume)" };
    let mode = if m.read_only == Some(true) { "ro" } else { "rw" };
    let mut annotation = String::new();
    match mount_purpose(target) {
        Some(p) => {
            append(&mut annotation, " - ");
            append(&mut annotation, p);
        },
        None => {},
    }
    proof {
        reveal_strlit("");
    }
    let mut r: Vec<String> = Vec::new();
    assert(string_views(r@) =~= Seq::<Seq<char>>::empty());
    let v1: Vec<(&str, Option<Paint>)> = vec![
        ("    ", None),
        (shown.as_str(), Some(Paint::Cyan)),
        (" -> ", None),
        (target, None),
        (" ", None),
        (mode, Some(Paint::Dim)),
        (name_tag, Some(Paint::Dim)),
        (annotation.as_str(), Some(Paint::Dim)),
    ];
    push_rendered(&mut r, &v1, Ghost(Seq::empty()));
    let ghost e1 = Seq::<Seq<Piece>>::empty().push(piece_views(v1@));
    let mut cmd = owned("docker run --rm -it -v ");
    append(&mut cmd, source);
    append(&mut cmd, ":/data -w /data alpine sh");
    let v2: Vec<(&str, Option<Paint>)> = vec![("      ", None), (cmd.as_str(), Some(Paint::Dim))];
    push_rendered(&mut r, &v2, Ghost(e1));
    assert(e1.push(piece_views(v2@)) =~~= spec_volume_entry(*m, pair_views(mountpoints@)));
    r
}

fn bind_entry_line(m: &ContainerMount, config: &Vec<ConfigMount>, is_macos: bool) -> (s: String)
    ensures
        shows_pieces(s@, spec_bind_entry(*m, config_views(config@), is_macos)),
{
    let source = str_or_unknown(&m.source);
    let target = str_or_unknown(&m.target);
    let shown = crate::mounts::format_bind_source_for_display(source, is_macos);
    let mode = if m.read_only == Some(true) { "ro" } else { "rw" };
    let tag: (&str, Option<Paint>) = if from_config(source, target, config) {
        ("(config)", Some(Paint::Dim))
    } else {
        ("(cli)", Some(Paint::Cyan))
    };
    let mut annotation = String::new();
    match mount_purpose(target) {
        Some(p) => {
            append(&mut annotation, " - ");
            append(&mut annotation, p);
        },
        None => {},
    }
    proof {
        reveal_strlit("");
    }
    let v: Vec<(&str, Option<Paint>)> = vec![
        ("    ", None),
        (shown.as_str(), Some(Paint::Cyan)),
        (" -> ", None),
        (target, None),
        (" ", None),
        (mode, Some(Paint::Dim)),
        (" ", None),
        tag,
        (annotation.as_str(), Some(Paint::Dim)),
    ];
    assert(piece_views(v@) =~~= spec_bind_entry(*m, config_views(config@), is_macos));
    render(&v)
}

/// The Mounts section of the status output. `mountpoints` pairs volume names with
/// their mount points; `config` holds the configured mounts.
pub fn mounts_section_lines(
    mounts: &Vec<ContainerMount>,
    config: &Vec<ConfigMount>,
    mountpoints: &Vec<(String, String)>,
    is_macos: bool,
) -> (r: Vec<String>)
    ensures
        shows_lines(
            string_views(r@),
            spec_mounts_section(mounts@, config_views(config@), pair_views(mountpoints@), is_macos),
        ),
{
    let ghost ms = mounts@;
    let ghost mps = pair_views(mountpoints@);
    let ghost cv = config_views(config@);
    let mut vols: Vec<String> = Vec::new();
    let mut binds: Vec<String> = Vec::new();
    assert(string_views(vols@) =~= Seq::<Seq<char>>::empty());
    assert(string_views(binds@) =~= Seq::<Seq<char>>::empty());
    assert(ms.take(0) =~= Seq::<ContainerMount>::empty());
    let mut i: usize = 0;
    while i < mounts.len()
        invariant
            i <= ms.len(),
            ms == mounts@,
            mps == pair_views(mountpoints@),
            cv == config_views(config@),
            shows_lines(string_views(vols@), spec_volume_section(ms.take(i as int), mps)),
            shows_lines(string_views(binds@), spec_bind_section(ms.take(i as int), cv, is_macos)),
        decreases ms.len() - i,
    {
        let ghost before_v = spec_volume_section(ms.take(i as int), mps);
        let ghost before_b = spec_bind_section(ms.take(i as int), cv, is_macos);
        proof {
            assert(ms.take(i + 1).drop_last() =~= ms.take(i as int));
            assert(ms.take(i + 1).last() == ms[i as int]);
        }
        let m = &mounts[i];
        match m.kind {
            MountKind::Volume => {
                let lines = volume_entry_lines(m, mountpoints);
                push_all_lines(&mut vols, lines, Ghost(before_v), Ghost(spec_volume_entry(*m, mps)));
                assert(before_b + Seq::<Seq<Piece>>::empty() =~= before_b);
            },
            MountKind::Bind => {
                let line = bind_entry_line(m, config, is_macos);
                let mut one: Vec<String> = Vec::new();
                one.push(line);
                proof {
                    let sv = string_views(one@);
                    assert(sv =~= seq![line@]);
                    assert(sv[0] == line@);
                }
                let ghost one_e = seq![spec_bind_entry(*m, cv, is_macos)];
                push_all_lines(&mut binds, one, Ghost(before_b), Ghost(one_e));
                assert(before_v + Seq::<Seq<Piece>>::empty() =~= before_v);
            },
            MountKind::Other => {
                assert(before_v + Seq::<Seq<Piece>>::empty() =~= before_v);
                assert(before_b + Seq::<Seq<Piece>>::empty() =~= before_b);
            },
        }
        i = i + 1;
    }
    assert(ms.take(ms.len() as int) =~= ms);
    let mut r: Vec<String> = Vec::new();
    assert(string_views(r@) =~= Seq::<Seq<char>>::empty());
    if vols.len() == 0 && binds.len() == 0 {
        return r;
    }
    push_section_header(&mut r, "Mounts", "------", Ghost(Seq::empty()));
    let ghost mut e: Seq<Seq<Piece>> = Seq::<Seq<Piece>>::empty() + spec_section_header("Mounts"@, "------"@);
    let hint = if is_macos {
        "Hint: Docker Desktop stores volumes inside its VM. Use `docker run --rm -it -v <volume>:/data -w /data alpine sh` to inspect volumes."
    } else {
        "Hint: Inspect volumes with: docker run --rm -it -v <volume>:/data -w /data alpine sh"
    };
    let h: Vec<(&str, Option<Paint>)> = vec![(hint, Some(Paint::Dim))];
    push_rendered(&mut r, &h, Ghost(e));
    proof {
        e = e.push(piece_views(h@));
    }
    let ghost vs = spec_volume_section(ms, mps);
    let ghost bs = spec_bind_section(ms, cv, is_macos);
    if vols.len() == 0 {
        let v: Vec<(&str, Option<Paint>)> = vec![("  Volumes: ", None), ("(none)", Some(Paint::Dim))];
        push_rendered(&mut r, &v, Ghost(e));
        proof {
            e = e.push(piece_views(v@));
        }
    } else {
        let v: Vec<(&str, Option<Paint>)> = vec![("  Volumes:", None)];
        push_rendered(&mut r, &v, Ghost(e));
        proof {
            e = e.push(piece_views(v@));
        }
        push_all_lines(&mut r, vols, Ghost(e), Ghost(vs));
        proof {
            e = e + vs;
        }
    }
    if binds.len() == 0 {
        let v: Vec<(&str, Option<Paint>)> = vec![("  Bind mounts: ", None), ("(none)", Some(Paint::Dim))];
        push_rendered(&mut r, &v, Ghost(e));
        proof {
            e = e.push(piece_views(v@));
        }
    } else {
        let v: Vec<(&str, Option<Paint>)> = vec![("  Bind mounts:", None)];
        push_rendered(&mut r, &v, Ghost(e));
        proof {
            e = e.push(piece_views(v@));
        }
        push_all_lines(&mut r, binds, Ghost(e), Ghost(bs));
        proof {
            e = e + bs;
        }
    }
    assert(e =~~= spec_mounts_section(ms, cv, mps, is_macos));
    r
}

// ---------------------------------------------------------------------------
// Security
// ---------------------------------------------------------------------------

/// The security settings the status output shows.
#[derive(Debug, Clone)]
pub struct SecuritySettings {
    pub bind_address: String,
    /// Whether the bind address reaches beyond the machine.
    pub network_exposed: bool,
    /// Whether the bind address is a loopback address.
    pub localhost: bool,
    pub users: Vec<String>,
    pub trust_proxy: bool,
    pub rate_limit_attempts: u64,
    pub rate_limit_window_seconds: u64,
    pub allow_unauthenticated_network: bool,
}

/// The IOTP lines: its state, its password (dimmed `not available` unless it can be
/// shown) and the detail; for a completed IOTP how to reset it; unless it is active,
/// how to find it in the logs.
pub open spec fn spec_iotp_lines(s: IotpSnapshotView, running: bool, allow_unauth: bool, localhost: bool) -> Seq<
    Seq<Piece>,
> {
    let (state, value, detail) = spec_render_iotp(s, running, allow_unauth);
    let value_piece = if running && s.state == IotpState::ActiveUnused {
        (value, None)
    } else {
        ("not available"@, Some(Paint::Dim))
    };
    let base = seq![plain_line("IOTP state:  "@ + state), seq![("IOTP value:  "@, None), value_piece]];
    let with_detail = match detail {
        Some(d) => base.push(seq![indent_piece(), (d, Some(Paint::Dim))]),
        None => base,
    };
    let reset = if s.state == IotpState::InactiveCompleted {
        let first = seq![indent_piece(), ("Reset IOTP:"@, Some(Paint::Dim)), (" "@, None), ("occ reset iotp"@, Some(Paint::Cyan))];
        if !localhost {
            seq![first, seq![indent_piece(), ("Use --force for exposed bind configurations."@, Some(Paint::Dim))]]
        } else {
            seq![first]
        }
    } else {
        Seq::empty()
    };
    let extract = if s.state != IotpState::ActiveUnused {
        seq![seq![
            indent_piece(),
            ("Extract manually:"@, Some(Paint::Dim)),
            (" "@, None),
            (IOTP_FALLBACK_COMMAND@, Some(Paint::Cyan)),
        ]]
    } else {
        Seq::empty()
    };
    with_detail + reset + extract
}

/// The Security section: the binding and whether it is exposed, the users, proxy
/// trust and rate limit, the IOTP, and a warning when the network is exposed
/// without any authentication.
pub open spec fn spec_security_lines(c: SecuritySettings, s: IotpSnapshotView, running: bool) -> Seq<Seq<Piece>> {
    let badge = if c.network_exposed {
        ("[NETWORK EXPOSED]"@, Some(Paint::YellowBold))
    } else {
        ("[LOCAL ONLY]"@, Some(Paint::Green))
    };
    let users = if c.users@.len() == 0 {
        seq![("Auth users:  "@, None), ("None configured"@, Some(Paint::Yellow))]
    } else {
        plain_line("Auth users:  "@ + spec_join(string_views(c.users@), ", "@))
    };
    let settings = seq![
        seq![("Binding:     "@, None), (c.bind_address@, Some(Paint::Cyan)), (" "@, None), badge],
        users,
        plain_line("Trust proxy: "@ + (if c.trust_proxy { "yes"@ } else { "no"@ })),
        plain_line(
            "Rate limit:  "@ + spec_decimal(c.rate_limit_attempts as nat) + " attempts / "@ + spec_decimal(
                c.rate_limit_window_seconds as nat,
            ) + "s window"@,
        ),
    ];
    let warning = if c.network_exposed && c.users@.len() == 0 && !c.allow_unauthenticated_network {
        seq![
            plain_line(Seq::empty()),
            seq![("Warning: Network exposed without authentication!"@, Some(Paint::YellowBold))],
            seq![("Add users: "@, None), ("occ user add"@, Some(Paint::Cyan))],
        ]
    } else {
        Seq::empty()
    };
    spec_section_header("Security"@, "--------"@) + settings + spec_iotp_lines(
        s,
        running,
        c.allow_unauthenticated_network,
        c.localhost,
    ) + warning
}

pub(crate) fn push_plain(out: &mut Vec<String>, text: String, Ghost(expected): Ghost<Seq<Seq<Piece>>>)
    requires
        shows_lines(string_views(old(out)@), expected),
    ensures
        shows_lines(string_views(final(out)@), expected.push(plain_line(text@))),
{
    let v: Vec<(&str, Option<Paint>)> = vec![(text.as_str(), None)];
    push_rendered(out, &v, Ghost(expected));
    assert(piece_views(v@) =~~= plain_line(text@));
}

fn push_iotp_lines(
    out: &mut Vec<String>,
    snapshot: &IotpSnapshot,
    running: bool,
    allow_unauth: bool,
    localhost: bool,
    Ghost(expected): Ghost<Seq<Seq<Piece>>>,
)
    requires
        shows_lines(string_views(old(out)@), expected),
    ensures
        shows_lines(
            string_views(final(out)@),
            expected + spec_iotp_lines(snapshot@, running, allow_unauth, localhost),
        ),
{
    let ghost sv = snapshot@;
    let ghost rendered = spec_render_iotp(sv, running, allow_unauth);
    let (state, _value, detail) = render_iotp_status(snapshot, running, allow_unauth);
    let ghost mut e = expected;
    let mut line = owned("IOTP state:  ");
    append(&mut line, state.as_str());
    push_plain(out, line, Ghost(e));
    proof {
        e = e.push(plain_line("IOTP state:  "@ + rendered.0));
    }
    let shown = running && snapshot.state == IotpState::ActiveUnused;
    let otp_text = crate::iotp::or_default(&snapshot.otp, "not available");
    let v: Vec<(&str, Option<Paint>)> = if shown {
        vec![("IOTP value:  ", None), (otp_text.as_str(), None)]
    } else {
        vec![("IOTP value:  ", None), ("not available", Some(Paint::Dim))]
    };
    push_rendered(out, &v, Ghost(e));
    proof {
        e = e.push(piece_views(v@));
    }
    let ind = indent_text();
    match &detail {
        Some(d) => {
            let w: Vec<(&str, Option<Paint>)> = vec![(ind.as_str(), None), (d.as_str(), Some(Paint::Dim))];
            push_rendered(out, &w, Ghost(e));
            proof {
                e = e.push(piece_views(w@));
            }
        },
        None => {},
    }
    if snapshot.state == IotpState::InactiveCompleted {
        let w: Vec<(&str, Option<Paint>)> = vec![
            (ind.as_str(), None),
            ("Reset IOTP:", Some(Paint::Dim)),
            (" ", None),
            ("occ reset iotp", Some(Paint::Cyan)),
        ];
        push_rendered(out, &w, Ghost(e));
        proof {
            e = e.push(piece_views(w@));
        }
        if !localhost {
            let w2: Vec<(&str, Option<Paint>)> = vec![
                (ind.as_str(), None),
                ("Use --force for exposed bind configurations.", Some(Paint::Dim)),
            ];
            push_rendered(out, &w2, Ghost(e));
            proof {
                e = e.push(piece_views(w2@));
            }
        }
    }
    if snapshot.state != IotpState::ActiveUnused {
        let w: Vec<(&str, Option<Paint>)> = vec![
            (ind.as_str(), None),
            ("Extract manually:", Some(Paint::Dim)),
            (" ", None),
            (IOTP_FALLBACK_COMMAND, Some(Paint::Cyan)),
        ];
        push_rendered(out, &w, Ghost(e));
        proof {
            e = e.push(piece_views(w@));
        }
    }
    assert(e =~~= expected + spec_iotp_lines(sv, running, allow_unauth, localhost));
}

/// The Security section of the status output, with the IOTP `snapshot` read from
/// the container (or marked unavailable when it is not running).
pub fn security_section_lines(settings: &SecuritySettings, snapshot: &IotpSnapshot, running: bool) -> (r: Vec<String>)
    ensures
        shows_lines(string_views(r@), spec_security_lines(*settings, snapshot@, running)),
{
    let mut r: Vec<String> = Vec::new();
    assert(string_views(r@) =~= Seq::<Seq<char>>::empty());
    push_section_header(&mut r, "Security", "--------", Ghost(Seq::empty()));
    let ghost mut e: Seq<Seq<Piece>> = Seq::<Seq<Piece>>::empty() + spec_section_header("Security"@, "--------"@);
    let badge: (&str, Option<Paint>) = if settings.network_exposed {
        ("[NETWORK EXPOSED]", Some(Paint::YellowBold))
    } else {
        ("[LOCAL ONLY]", Some(Paint::Green))
    };
    let b: Vec<(&str, Option<Paint>)> = vec![
        ("Binding:     ", None),
        (settings.bind_address.as_str(), Some(Paint::Cyan)),
        (" ", None),
        badge,
    ];
    push_rendered(&mut r, &b, Ghost(e));
    proof {
        e = e.push(piece_views(b@));
    }
    if settings.users.len() == 0 {
        let u: Vec<(&str, Option<Paint>)> = vec![("Auth users:  ", None), ("None configured", Some(Paint::Yellow))];
        push_rendered(&mut r, &u, Ghost(e));
        proof {
            e = e.push(piece_views(u@));
        }
    } else {
        let mut line = owned("Auth users:  ");
        let joined = crate::text::join(&settings.users, ", ");
        append(&mut line, joined.as_str());
        push_plain(&mut r, line, Ghost(e));
        proof {
            e = e.push(plain_line("Auth users:  "@ + spec_join(string_views(settings.users@), ", "@)));
        }
    }
    let mut tp = owned("Trust proxy: ");
    append(&mut tp, if settings.trust_proxy { "yes" } else { "no" });
    push_plain(&mut r, tp, Ghost(e));
    proof {
        e = e.push(plain_line("Trust proxy: "@ + (if settings.trust_proxy { "yes"@ } else { "no"@ })));
    }
    let mut rl = owned("Rate limit:  ");
    crate::text::push_decimal(&mut rl, settings.rate_limit_attempts);
    append(&mut rl, " attempts / ");
    crate::text::push_decimal(&mut rl, settings.rate_limit_window_seconds);
    append(&mut rl, "s window");
    let ghost rl_text = rl@;
    push_plain(&mut r, rl, Ghost(e));
    proof {
        e = e.push(plain_line(rl_text));
    }
    push_iotp_lines(
        &mut r,
        snapshot,
        running,
        settings.allow_unauthenticated_network,
        settings.localhost,
        Ghost(e),
    );
    proof {
        e = e + spec_iotp_lines(snapshot@, running, settings.allow_unauthenticated_network, settings.localhost);
    }
    if settings.network_exposed && settings.users.len() == 0 && !settings.allow_unauthenticated_network {
        push_plain(&mut r, String::new(), Ghost(e));
        proof {
            e = e.push(plain_line(Seq::empty()));
        }
        let w: Vec<(&str, Option<Paint>)> = vec![("Warning: Network exposed without authentication!", Some(Paint::YellowBold))];
        push_rendered(&mut r, &w, Ghost(e));
        proof {
            e = e.push(piece_views(w@));
        }
        let a: Vec<(&str, Option<Paint>)> = vec![("Add users: ", None), ("occ user add", Some(Paint::Cyan))];
        push_rendered(&mut r, &a, Ghost(e));
        proof {
            e = e.push(piece_views(a@));
        }
    }
    assert(e =~~= spec_security_lines(*settings, snapshot@, running));
    r
}

// ---------------------------------------------------------------------------
// Container summary
// ---------------------------------------------------------------------------

/// The port of the service when Docker reports none that parses.
pub const DEFAULT_WEB_PORT: u16 = 3000;

/// The host port bound to the service, from Docker's binding text.
pub fn host_port_from(binding: Option<&str>) -> (p: u16)
    ensures
        p == (match binding {
            Some(b) => match crate::text::spec_parse_unsigned(b@, 65535) {
                Some(n) => n as u16,
                None => DEFAULT_WEB_PORT,
            },
            None => DEFAULT_WEB_PORT,
        }),
{
    match binding {
        Some(b) => match crate::text::parse_unsigned(&crate::text::chars_of(b), 65535) {
            Some(n) => n as u16,
            None => DEFAULT_WEB_PORT,
        },
        None => DEFAULT_WEB_PORT,
    }
}

/// What status shows without a container.
pub open spec fn spec_no_service_lines() -> Seq<Seq<Piece>> {
    seq![
        seq![("No service found."@, Some(Paint::Yellow))],
        plain_line(Seq::empty()),
        seq![("Run '"@, None), ("occ start"@, Some(Paint::Cyan)), ("' to start the service."@, None)],
    ]
}

/// The lines status shows without a container.
pub fn no_service_lines() -> (r: Vec<String>)
    ensures
        shows_lines(string_views(r@), spec_no_service_lines()),
{
    let lines: Vec<Vec<(&str, Option<Paint>)>> = vec![
        vec![("No service found.", Some(Paint::Yellow))],
        vec![("", None)],
        vec![("Run '", None), ("occ start", Some(Paint::Cyan)), ("' to start the service.", None)],
    ];
    let r = render_lines(&lines);
    proof {
        reveal_strlit("");
    }
    assert(line_pieces(lines@) =~~= spec_no_service_lines());
    r
}

/// The state line: the container's state, styled by what it means.
pub fn state_line(status: &str) -> (s: String)
    ensures
        exists|st: Seq<char>|
            s@ == label_piece("State:"@).0 + st && is_painted(st, status@, crate::style::spec_state_paint(status@)),
{
    let st = crate::style::state_style(status);
    let s = format_kv("State:", st.as_str());
    assert(s@ =~= label_piece("State:"@).0 + st@);
    s
}

/// The installation line: whether the service is registered, and whether it
/// starts on boot (system mode) or on login.
pub open spec fn spec_installed_line(installed: bool, boot_mode: Seq<char>) -> Seq<Piece> {
    if installed {
        seq![
            label_piece("Installed:"@),
            ("yes"@, Some(Paint::Green)),
            (" ("@ + (if boot_mode == "system"@ { "starts on boot"@ } else { "starts on login"@ }) + ")"@, None),
        ]
    } else {
        seq![label_piece("Installed:"@), ("no"@, Some(Paint::Yellow))]
    }
}

/// The installation line.
pub fn installed_line(installed: bool, boot_mode: &str) -> (s: String)
    ensures
        shows_pieces(s@, spec_installed_line(installed, boot_mode@)),
{
    let l = label_text("Installed:");
    if installed {
        let mut tail = owned(" (");
        append(&mut tail, if str_eq(boot_mode, "system") { "starts on boot" } else { "starts on login" });
        append(&mut tail, ")");
        let v: Vec<(&str, Option<Paint>)> = vec![(l.as_str(), None), ("yes", Some(Paint::Green)), (tail.as_str(), None)];
        assert(piece_views(v@) =~~= spec_installed_line(installed, boot_mode@));
        render(&v)
    } else {
        let v: Vec<(&str, Option<Paint>)> = vec![(l.as_str(), None), ("no", Some(Paint::Yellow))];
        assert(piece_views(v@) =~~= spec_installed_line(installed, boot_mode@));
        render(&v)
    }
}

/// What the Sandbox section shows of the container and the versions.
#[derive(Debug, Clone)]
pub struct SandboxInfo {
    pub container_name: String,
    pub container_id: String,
    pub instance_id: Option<String>,
    pub image: String,
    pub cli_label: String,
    pub cli_version: String,
    /// The image's version label, when it could be read.
    pub image_version: Option<String>,
    /// The image's provenance, when it is recorded.
    pub image_source: Option<(String, Option<String>)>,
}

/// The Sandbox section's lines: the container with its short id, the instance if
/// any, the image, the CLI's version and the image's (a dev image shows none; one
/// that differs from the CLI is marked), and where the image came from.
pub open spec fn spec_sandbox_lines(i: SandboxInfo) -> Seq<Seq<Piece>> {
    let short = i.container_id@.take(if i.container_id@.len() < 12 { i.container_id@.len() as int } else { 12 });
    let container = seq![seq![
        label_piece("Container:"@),
        (i.container_name@ + " "@, None),
        ("("@ + short + ")"@, Some(Paint::Dim)),
    ]];
    let instance = match i.instance_id {
        Some(id) => seq![seq![label_piece("Instance:"@), (id@, None)]],
        None => Seq::empty(),
    };
    let versions = seq![
        seq![label_piece("Image:"@), (i.image@, None)],
        seq![label_piece(i.cli_label@ + ":"@), ("v"@ + i.cli_version@, None)],
    ];
    let image_version = match i.image_version {
        Some(v) => if v@ == "dev"@ {
            Seq::empty()
        } else if v@ == i.cli_version@ {
            seq![seq![label_piece("Image ver:"@), ("v"@ + v@, None)]]
        } else {
            seq![seq![
                label_piece("Image ver:"@),
                ("v"@ + v@ + " "@, None),
                ("(differs from "@ + i.cli_label@ + ")"@, Some(Paint::YellowDim)),
            ]]
        },
        None => Seq::empty(),
    };
    let source = match i.image_source {
        Some(src) => seq![seq![
            label_piece("Image src:"@),
            (if src.0@ == "prebuilt"@ {
                match src.1 {
                    Some(r) => "prebuilt from "@ + r@,
                    None => "prebuilt"@,
                }
            } else {
                "built from source"@
            }, Some(Paint::Dim)),
        ]],
        None => Seq::empty(),
    };
    container + instance + versions + image_version + source
}

/// The Sandbox section's lines.
pub fn sandbox_lines(info: &SandboxInfo) -> (r: Vec<String>)
    ensures
        shows_lines(string_views(r@), spec_sandbox_lines(*info)),
{
    let short = crate::maintenance::short_container_id(info.container_id.as_str());
    let mut id = owned("(");
    append(&mut id, short.as_str());
    append(&mut id, ")");
    let mut name = owned(info.container_name.as_str());
    append(&mut name, " ");
    let l1 = label_text("Container:");
    let mut lines: Vec<Vec<(&str, Option<Paint>)>> = Vec::new();
    lines.push(vec![(l1.as_str(), None), (name.as_str(), None), (id.as_str(), Some(Paint::Dim))]);
    let l2 = label_text("Instance:");
    if let Some(inst) = &info.instance_id {
        lines.push(vec![(l2.as_str(), None), (inst.as_str(), None)]);
    }
    let l3 = label_text("Image:");
    lines.push(vec![(l3.as_str(), None), (info.image.as_str(), None)]);
    let mut cli_label = owned(info.cli_label.as_str());
    append(&mut cli_label, ":");
    let l4 = label_text(cli_label.as_str());
    let mut cli_v = owned("v");
    append(&mut cli_v, info.cli_version.as_str());
    lines.push(vec![(l4.as_str(), None), (cli_v.as_str(), None)]);
    let l5 = label_text("Image ver:");
    let mut img_v = owned("v");
    let mut differs = owned("(differs from ");
    append(&mut differs, info.cli_label.as_str());
    append(&mut differs, ")");
    if let Some(v) = &info.image_version {
        if !str_eq(v.as_str(), "dev") {
            append(&mut img_v, v.as_str());
            if str_eq(v.as_str(), info.cli_version.as_str()) {
                lines.push(vec![(l5.as_str(), None), (img_v.as_str(), None)]);
            } else {
                append(&mut img_v, " ");
                lines.push(vec![(l5.as_str(), None), (img_v.as_str(), None), (differs.as_str(), Some(Paint::YellowDim))]);
            }
        }
    }
    let l6 = label_text("Image src:");
    let src_text: String = match &info.image_source {
        Some((source, registry)) => crate::status::image_source_text(
            source.as_str(),
            match registry {
                Some(r) => Some(r.as_str()),
                None => None,
            },
        ),
        None => String::new(),
    };
    if info.image_source.is_some() {
        lines.push(vec![(l6.as_str(), None), (src_text.as_str(), Some(Paint::Dim))]);
    }
    let r = render_lines(&lines);
    proof {
        assert(short@ =~= info.container_id@.take(
            if info.container_id@.len() < 12 { info.container_id@.len() as int } else { 12 },
        ));
    }
    assert(line_pieces(lines@) =~~= spec_sandbox_lines(*info));
    r
}

/// The Disk section: its header, Docker's disk usage or the warning why it is
/// missing, then the host's disk (after a blank line), or, for a remote host
/// without host statistics, a note; or the warning why they are missing.
pub open spec fn spec_disk_section(
    usage: Result<Seq<Seq<char>>, Seq<char>>,
    host: Result<Option<Seq<Seq<char>>>, Seq<char>>,
    remote: bool,
) -> Seq<Seq<Piece>> {
    let warn = |e: Seq<char>| seq![("Warning:"@, Some(Paint::YellowBold)), (" "@ + e, None)];
    let first = match usage {
        Ok(ls) => ls.map_values(|l: Seq<char>| plain_line(l)),
        Err(e) => seq![warn(e)],
    };
    let second = match host {
        Ok(Some(ls)) => seq![plain_line(Seq::empty())] + ls.map_values(|l: Seq<char>| plain_line(l)),
        Ok(None) => if remote {
            seq![seq![label_piece("Note:"@), ("Host disk stats unavailable for remote Docker hosts."@, Some(Paint::Dim))]]
        } else {
            Seq::empty()
        },
        Err(e) => seq![warn(e)],
    };
    spec_section_header("Disk"@, "------"@) + first + second
}

fn plain_lines_of(texts: &Vec<String>) -> (r: Vec<String>)
    ensures
        shows_lines(string_views(r@), string_views(texts@).map_values(|l: Seq<char>| plain_line(l))),
{
    let mut r: Vec<String> = Vec::new();
    let ghost all = string_views(texts@);
    assert(string_views(r@) =~= Seq::<Seq<char>>::empty());
    assert(all.take(0).map_values(|l: Seq<char>| plain_line(l)) =~= Seq::<Seq<Piece>>::empty());
    let mut i: usize = 0;
    while i < texts.len()
        invariant
            i <= texts@.len(),
            all == string_views(texts@),
            shows_lines(string_views(r@), all.take(i as int).map_values(|l: Seq<char>| plain_line(l))),
        decreases texts@.len() - i,
    {
        let ghost before = all.take(i as int).map_values(|l: Seq<char>| plain_line(l));
        push_plain(&mut r, texts[i].clone(), Ghost(before));
        proof {
            assert(all[i as int] == texts@[i as int]@);
            assert(all.take(i + 1) =~= all.take(i as int).push(all[i as int]));
            assert(before.push(plain_line(all[i as int])) =~~= all.take(i + 1).map_values(|l: Seq<char>| plain_line(l)));
        }
        i = i + 1;
    }
    assert(all.take(texts@.len() as int) =~= all);
    r
}

fn push_warning(out: &mut Vec<String>, e: &str, Ghost(expected): Ghost<Seq<Seq<Piece>>>)
    requires
        shows_lines(string_views(old(out)@), expected),
    ensures
        shows_lines(
            string_views(final(out)@),
            expected.push(seq![("Warning:"@, Some(Paint::YellowBold)), (" "@ + e@, None)]),
        ),
{
    let mut t = owned(" ");
    append(&mut t, e);
    let v: Vec<(&str, Option<Paint>)> = vec![("Warning:", Some(Paint::YellowBold)), (t.as_str(), None)];
    push_rendered(out, &v, Ghost(expected));
    assert(piece_views(v@) =~~= seq![("Warning:"@, Some(Paint::YellowBold)), (" "@ + e@, None)]);
}

/// The Disk section of the status output, from the already formatted reports (or
/// the errors that kept them from being read).
pub fn disk_section_lines(usage: &Result<Vec<String>, String>, host: &Result<Option<Vec<String>>, String>, remote: bool) -> (r: Vec<String>)
    ensures
        shows_lines(
            string_views(r@),
            spec_disk_section(
                match usage {
                    Ok(ls) => Ok(string_views(ls@)),
                    Err(e) => Err(e@),
                },
                match host {
                    Ok(Some(ls)) => Ok(Some(string_views(ls@))),
                    Ok(None) => Ok(None),
                    Err(e) => Err(e@),
                },
                remote,
            ),
        ),
{
    let ghost u = match usage {
        Ok(ls) => Ok(string_views(ls@)),
        Err(e) => Err(e@),
    };
    let ghost h = match host {
        Ok(Some(ls)) => Ok(Some(string_views(ls@))),
        Ok(None) => Ok(None),
        Err(e) => Err(e@),
    };
    let mut r: Vec<String> = Vec::new();
    assert(string_views(r@) =~= Seq::<Seq<char>>::empty());
    push_section_header(&mut r, "Disk", "------", Ghost(Seq::empty()));
    let ghost mut e: Seq<Seq<Piece>> = Seq::<Seq<Piece>>::empty() + spec_section_header("Disk"@, "------"@);
    match usage {
        Ok(ls) => {
            let more = plain_lines_of(ls);
            push_all_lines(&mut r, more, Ghost(e), Ghost(string_views(ls@).map_values(|l: Seq<char>| plain_line(l))));
            proof {
                e = e + string_views(ls@).map_values(|l: Seq<char>| plain_line(l));
            }
        },
        Err(msg) => {
            push_warning(&mut r, msg.as_str(), Ghost(e));
            proof {
                e = e.push(seq![("Warning:"@, Some(Paint::YellowBold)), (" "@ + msg@, None)]);
            }
        },
    }
    let ghost mid = e;
    match host {
        Ok(Some(ls)) => {
            push_plain(&mut r, String::new(), Ghost(e));
            proof {
                e = e.push(plain_line(Seq::empty()));
            }
            let more = plain_lines_of(ls);
            push_all_lines(&mut r, more, Ghost(e), Ghost(string_views(ls@).map_values(|l: Seq<char>| plain_line(l))));
            proof {
                e = e + string_views(ls@).map_values(|l: Seq<char>| plain_line(l));
            }
        },
        Ok(None) => {
            if remote {
                let l = label_text("Note:");
                let v: Vec<(&str, Option<Paint>)> = vec![
                    (l.as_str(), None),
                    ("Host disk stats unavailable for remote Docker hosts.", Some(Paint::Dim)),
                ];
                push_rendered(&mut r, &v, Ghost(e));
                proof {
                    e = e.push(piece_views(v@));
                }
            }
        },
        Err(msg) => {
            push_warning(&mut r, msg.as_str(), Ghost(e));
            proof {
                e = e.push(seq![("Warning:"@, Some(Paint::YellowBold)), (" "@ + msg@, None)]);
            }
        },
    }
    proof {
        reveal_strlit("");
    }
    assert(e =~~= spec_disk_section(u, h, remote));
    r
}


/// The exit status of a quiet `status`: 0 when the service container exists and
/// runs, 1 otherwise (no container, or a stopped one).
pub fn quiet_status_exit_code(container_found: bool, running: bool) -> (code: i32)
    ensures
        code == (if container_found && running { 0i32 } else { 1i32 }),
{
    if container_found && running {
        0
    } else {
        1
    }
}

} // verus!
