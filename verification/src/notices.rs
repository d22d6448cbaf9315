//! The notices of the command line on its way to a command: warnings, hints and
//! the rich errors of start-up.

use vstd::prelude::*;
use crate::runtime::{render_runtime_asset_preflight_lines, spec_drift_lines, RuntimeAssetDrift};
use crate::status_view::{line_pieces, render_lines, shows_lines};
use crate::style::{piece_views, render, shows_pieces, Paint, Piece};
use crate::text::{decimal_string, spec_decimal, string_views};

verus! {

/// The notice that a sandbox instance profile is in use.
pub fn sandbox_instance_notice(instance: &str) -> (s: String)
    ensures
        shows_pieces(
            s@,
            seq![("[info]"@, Some(Paint::Cyan)), (" Using sandbox instance profile: "@, None), (instance@, Some(Paint::Cyan))],
        ),
{
    let v: Vec<(&str, Option<Paint>)> = vec![
        ("[info]", Some(Paint::Cyan)),
        (" Using sandbox instance profile: ", None),
        (instance, Some(Paint::Cyan)),
    ];
    assert(piece_views(v@) =~~= seq![
        ("[info]"@, Some(Paint::Cyan)),
        (" Using sandbox instance profile: "@, None),
        (instance@, Some(Paint::Cyan)),
    ]);
    render(&v)
}

/// The text of the warning that the tool is unstable.
pub const WORK_IN_PROGRESS_TEXT: &'static str = " This tool is still a work in progress and is rapidly evolving. Expect frequent updates and breaking changes. Follow updates at https://github.com/pRizz/opencode-cloud. Stability will be announced at some point. Use with caution.";

/// The warning shown on every run that the tool is unstable.
pub fn work_in_progress_warning() -> (s: String)
    ensures
        shows_pieces(s@, seq![("Warning:"@, Some(Paint::YellowBold)), (WORK_IN_PROGRESS_TEXT@, None)]),
{
    let v: Vec<(&str, Option<Paint>)> = vec![("Warning:", Some(Paint::YellowBold)), (WORK_IN_PROGRESS_TEXT, None)];
    assert(piece_views(v@) =~~= seq![("Warning:"@, Some(Paint::YellowBold)), (WORK_IN_PROGRESS_TEXT@, None)]);
    render(&v)
}

/// The pieces of the note that the container runtime was detected.
pub open spec fn spec_auto_container_notice() -> Seq<Piece> {
    seq![
        ("Info:"@, Some(Paint::Cyan)),
        (" Detected opencode container; using container runtime. Override with "@, None),
        ("--runtime host"@, Some(Paint::Green)),
        (" or "@, None),
        ("OPENCODE_RUNTIME=host"@, Some(Paint::Green)),
        ("."@, None),
    ]
}

/// The note that the container runtime was detected, and how to override it.
pub fn auto_container_notice() -> (s: String)
    ensures
        shows_pieces(s@, spec_auto_container_notice()),
{
    let v: Vec<(&str, Option<Paint>)> = vec![
        ("Info:", Some(Paint::Cyan)),
        (" Detected opencode container; using container runtime. Override with ", None),
        ("--runtime host", Some(Paint::Green)),
        (" or ", None),
        ("OPENCODE_RUNTIME=host", Some(Paint::Green)),
        (".", None),
    ];
    assert(piece_views(v@) =~~= spec_auto_container_notice());
    render(&v)
}

/// The note before the first-time setup wizard runs.
pub fn first_time_setup_notice() -> (s: String)
    ensures
        shows_pieces(s@, seq![("Note:"@, Some(Paint::Cyan)), (" First-time setup required. Running wizard..."@, None)]),
{
    let v: Vec<(&str, Option<Paint>)> = vec![("Note:", Some(Paint::Cyan)), (" First-time setup required. Running wizard...", None)];
    assert(piece_views(v@) =~~= seq![
        ("Note:"@, Some(Paint::Cyan)),
        (" First-time setup required. Running wizard..."@, None),
    ]);
    render(&v)
}

/// The message after the first-time setup wizard saved its configuration.
pub fn setup_complete_notice() -> (s: String)
    ensures
        shows_pieces(
            s@,
            seq![
                ("Success:"@, Some(Paint::GreenBold)),
                (" Setup complete! Run your command again, or use 'occ start' to begin."@, None),
            ],
        ),
{
    let v: Vec<(&str, Option<Paint>)> = vec![
        ("Success:", Some(Paint::GreenBold)),
        (" Setup complete! Run your command again, or use 'occ start' to begin.", None),
    ];
    assert(piece_views(v@) =~~= seq![
        ("Success:"@, Some(Paint::GreenBold)),
        (" Setup complete! Run your command again, or use 'occ start' to begin."@, None),
    ]);
    render(&v)
}

/// A verbose `[info]` line.
pub open spec fn spec_info_line(text: Seq<char>) -> Seq<Piece> {
    seq![("[info]"@, Some(Paint::Cyan)), (text, None)]
}

/// The verbose lines on where the configuration and the data are.
pub open spec fn spec_paths_info(config_path: Seq<char>, data_dir: Option<Seq<char>>) -> Seq<Seq<Piece>> {
    seq![
        spec_info_line(" Config: "@ + config_path),
        spec_info_line(
            " Data: "@ + match data_dir {
                Some(d) => d,
                None => "unknown"@,
            },
        ),
    ]
}

/// The verbose lines on where the configuration and the data are.
pub fn paths_info_lines(config_path: &str, data_dir: Option<&str>) -> (r: Vec<String>)
    ensures
        shows_lines(
            string_views(r@),
            spec_paths_info(
                config_path@,
                match data_dir {
                    Some(d) => Some(d@),
                    None => None,
                },
            ),
        ),
{
    let mut c = crate::text::owned(" Config: ");
    crate::text::append(&mut c, config_path);
    let mut d = crate::text::owned(" Data: ");
    crate::text::append(
        &mut d,
        match data_dir {
            Some(x) => x,
            None => "unknown",
        },
    );
    let lines: Vec<Vec<(&str, Option<Paint>)>> = vec![
        vec![("[info]", Some(Paint::Cyan)), (c.as_str(), None)],
        vec![("[info]", Some(Paint::Cyan)), (d.as_str(), None)],
    ];
    let r = render_lines(&lines);
    assert(line_pieces(lines@) =~~= spec_paths_info(
        config_path@,
        match data_dir {
            Some(x) => Some(x@),
            None => None,
        },
    ));
    r
}

/// The verbose line on where the configuration was loaded from.
pub fn config_loaded_notice(config_path: &str) -> (s: String)
    ensures
        shows_pieces(s@, spec_info_line(" Config loaded from: "@ + config_path@)),
{
    let mut t = crate::text::owned(" Config loaded from: ");
    crate::text::append(&mut t, config_path);
    let v: Vec<(&str, Option<Paint>)> = vec![("[info]", Some(Paint::Cyan)), (t.as_str(), None)];
    assert(piece_views(v@) =~~= spec_info_line(" Config loaded from: "@ + config_path@));
    render(&v)
}

/// The lines shown when the configuration file cannot be loaded: the error, the
/// file, and where to look for help.
pub open spec fn spec_config_error_lines(error: Seq<char>, config_path: Seq<char>) -> Seq<Seq<Piece>> {
    seq![
        seq![("Error:"@, Some(Paint::RedBold)), (" Configuration error"@, None)],
        seq![(Seq::empty(), None)],
        seq![("  "@ + error, None)],
        seq![(Seq::empty(), None)],
        seq![("  Config file: "@, None), (config_path, Some(Paint::Yellow))],
        seq![(Seq::empty(), None)],
        seq![
            ("  "@, None),
            ("Tip:"@, Some(Paint::Cyan)),
            (" Check the config file for syntax errors or unknown fields."@, None),
        ],
        seq![
            ("  "@, None),
            ("Tip:"@, Some(Paint::Cyan)),
            (" See schemas/config.example.jsonc for valid configuration."@, None),
        ],
    ]
}

/// The lines shown when the configuration file cannot be loaded.
pub fn config_error_lines(error: &str, config_path: &str) -> (r: Vec<String>)
    ensures
        shows_lines(string_views(r@), spec_config_error_lines(error@, config_path@)),
{
    let mut e = crate::text::owned("  ");
    crate::text::append(&mut e, error);
    let lines: Vec<Vec<(&str, Option<Paint>)>> = vec![
        vec![("Error:", Some(Paint::RedBold)), (" Configuration error", None)],
        vec![("", None)],
        vec![(e.as_str(), None)],
        vec![("", None)],
        vec![("  Config file: ", None), (config_path, Some(Paint::Yellow))],
        vec![("", None)],
        vec![("  ", None), ("Tip:", Some(Paint::Cyan)), (" Check the config file for syntax errors or unknown fields.", None)],
        vec![("  ", None), ("Tip:", Some(Paint::Cyan)), (" See schemas/config.example.jsonc for valid configuration.", None)],
    ];
    let r = render_lines(&lines);
    proof {
        reveal_strlit("");
    }
    assert(line_pieces(lines@) =~~= spec_config_error_lines(error@, config_path@));
    r
}

/// A verbose `[warn]` line about the drift check before a command.
pub fn preflight_failure_notice(init_failed: bool, error: &str) -> (s: String)
    ensures
        shows_pieces(
            s@,
            seq![
                ("[warn]"@, Some(Paint::Yellow)),
                ((if init_failed {
                    " Failed to initialize runtime drift preflight: "@
                } else {
                    " Runtime drift preflight failed: "@
                }) + error@, None),
            ],
        ),
{
    let mut t = crate::text::owned(
        if init_failed {
            " Failed to initialize runtime drift preflight: "
        } else {
            " Runtime drift preflight failed: "
        },
    );
    crate::text::append(&mut t, error);
    let v: Vec<(&str, Option<Paint>)> = vec![("[warn]", Some(Paint::Yellow)), (t.as_str(), None)];
    assert(piece_views(v@) =~~= seq![
        ("[warn]"@, Some(Paint::Yellow)),
        ((if init_failed {
            " Failed to initialize runtime drift preflight: "@
        } else {
            " Runtime drift preflight failed: "@
        }) + error@, None),
    ]);
    render(&v)
}

/// The drift warning before a command: nothing without drift; otherwise a heading,
/// each line indented, and a blank line.
pub open spec fn spec_preflight_warning(report: RuntimeAssetDrift, verbose: u8) -> Seq<Seq<Piece>> {
    if !report.drift_detected {
        Seq::empty()
    } else {
        seq![seq![
            ("Warning:"@, Some(Paint::YellowBold)),
            (" "@, None),
            ("Local container drift detected."@, Some(Paint::Yellow)),
        ]] + spec_drift_lines(report, verbose).map_values(|l: Seq<char>| seq![("  "@ + l, None)])
            + seq![seq![(Seq::empty(), None)]]
    }
}

/// The drift warning printed before a command.
pub fn preflight_warning_lines(report: &RuntimeAssetDrift, verbose: u8) -> (r: Vec<String>)
    ensures
        shows_lines(string_views(r@), spec_preflight_warning(*report, verbose)),
{
    let mut lines: Vec<Vec<(&str, Option<Paint>)>> = Vec::new();
    if !report.drift_detected {
        let r = render_lines(&lines);
        assert(line_pieces(lines@) =~~= spec_preflight_warning(*report, verbose));
        return r;
    }
    let body = render_runtime_asset_preflight_lines(report, verbose);
    let mut indented: Vec<String> = Vec::new();
    let ghost all = string_views(body@);
    let mut i: usize = 0;
    while i < body.len()
        invariant
            i <= body@.len(),
            all == string_views(body@),
            all == spec_drift_lines(*report, verbose),
            string_views(indented@) == all.take(i as int).map_values(|l: Seq<char>| "  "@ + l),
        decreases body@.len() - i,
    {
        let mut t = crate::text::owned("  ");
        crate::text::append(&mut t, body[i].as_str());
        let ghost before = string_views(indented@);
        indented.push(t);
        proof {
            assert(all[i as int] == body@[i as int]@);
            assert(all.take(i + 1) =~= all.take(i as int).push(all[i as int]));
            assert(string_views(indented@) =~= before.push(t@));
        }
        assert(string_views(indented@) =~= all.take(i + 1).map_values(|l: Seq<char>| "  "@ + l));
        i = i + 1;
    }
    assert(all.take(body@.len() as int) =~= all);
    lines.push(vec![("Warning:", Some(Paint::YellowBold)), (" ", None), ("Local container drift detected.", Some(Paint::Yellow))]);
    let mut j: usize = 0;
    while j < indented.len()
        invariant
            j <= indented@.len(),
            lines@.len() == 1 + j,
            piece_views(lines@[0]@) == seq![
                ("Warning:"@, Some(Paint::YellowBold)),
                (" "@, None),
                ("Local container drift detected."@, Some(Paint::Yellow)),
            ],
            forall|k: int| 0 <= k < j ==> piece_views((#[trigger] lines@[k + 1])@) == seq![(indented@[k]@, None::<Paint>)],
        decreases indented@.len() - j,
    {
        lines.push(vec![(indented[j].as_str(), None)]);
        proof {
            assert(piece_views(lines@[j + 1]@) =~~= seq![(indented@[j as int]@, None::<Paint>)]);
        }
        j = j + 1;
    }
    lines.push(vec![("", None)]);
    let r = render_lines(&lines);
    proof {
        reveal_strlit("");
        let expected = spec_preflight_warning(*report, verbose);
        let got = line_pieces(lines@);
        assert(got.len() == expected.len());
        assert forall|k: int| 0 <= k < got.len() implies got[k] =~~= expected[k] by {
            if k == 0 {
            } else if k < got.len() - 1 {
                assert(piece_views(lines@[(k - 1) + 1]@) == seq![(indented@[k - 1]@, None::<Paint>)]);
                assert(string_views(indented@)[k - 1] == indented@[k - 1]@);
            } else {
            }
        }
        assert(got =~~= expected);
    }
    r
}

/// The note that the service is not running.
pub fn service_not_running_notice() -> (s: String)
    ensures
        shows_pieces(s@, seq![("Note:"@, Some(Paint::Yellow)), (" Service is not running."@, None)]),
{
    let v: Vec<(&str, Option<Paint>)> = vec![("Note:", Some(Paint::Yellow)), (" Service is not running.", None)];
    assert(piece_views(v@) =~~= seq![("Note:"@, Some(Paint::Yellow)), (" Service is not running."@, None)]);
    render(&v)
}

/// The hint shown without a command: the name and version, and where the help is.
pub open spec fn spec_help_hint(version: Seq<char>) -> Seq<Seq<Piece>> {
    seq![
        seq![("opencode-cloud"@, Some(Paint::CyanBold)), (" "@, None), (version, Some(Paint::Dim))],
        seq![(Seq::empty(), None)],
        seq![("Run "@, None), ("--help"@, Some(Paint::Green)), (" for available commands."@, None)],
    ]
}

/// The hint shown without a command.
pub fn help_hint_lines(version: &str) -> (r: Vec<String>)
    ensures
        shows_lines(string_views(r@), spec_help_hint(version@)),
{
    let lines: Vec<Vec<(&str, Option<Paint>)>> = vec![
        vec![("opencode-cloud", Some(Paint::CyanBold)), (" ", None), (version, Some(Paint::Dim))],
        vec![("", None)],
        vec![("Run ", None), ("--help", Some(Paint::Green)), (" for available commands.", None)],
    ];
    let r = render_lines(&lines);
    proof {
        reveal_strlit("");
    }
    assert(line_pieces(lines@) =~~= spec_help_hint(version@));
    r
}

/// Why the single-instance lock could not be taken.
#[derive(Debug, Clone)]
pub enum SingletonErrorKind {
    /// Another instance runs, with its process id.
    AlreadyRunning(u32),
    /// The data directory could not be created, with the reason.
    CreateDirFailed(String),
    /// The lock could not be taken, with the reason.
    LockFailed(String),
    /// No place for the lock file.
    InvalidPath,
}

/// A tip line: indented, `Tip:` in cyan, then the text.
pub open spec fn spec_tip(text: Seq<char>) -> Seq<Piece> {
    seq![("  "@, None), ("Tip:"@, Some(Paint::Cyan)), (text, None)]
}

/// What is shown when the single-instance lock fails, with the data directory
/// where it is known.
pub open spec fn spec_singleton_error(err: SingletonErrorKind, data_dir: Option<Seq<char>>) -> Seq<Seq<Piece>> {
    let blank = seq![(Seq::<char>::empty(), None::<Paint>)];
    match err {
        SingletonErrorKind::AlreadyRunning(pid) => seq![
            seq![("Error:"@, Some(Paint::RedBold)), (" Another instance is already running"@, None)],
            blank,
            seq![("  Process ID: "@, None), (spec_decimal(pid as nat), Some(Paint::Yellow))],
            blank,
            spec_tip(" Stop the existing instance first:"@),
            seq![("       "@, None), ("opencode-cloud"@, Some(Paint::Green)), (" stop"@, None)],
            blank,
            spec_tip(" If the process is stuck, kill it manually:"@),
            seq![("       "@, None), ("kill"@, Some(Paint::Green)), (" "@ + spec_decimal(pid as nat), None)],
        ],
        SingletonErrorKind::CreateDirFailed(msg) => seq![
            seq![("Error:"@, Some(Paint::RedBold)), (" Failed to create data directory"@, None)],
            blank,
            seq![("  "@ + msg@, None)],
            blank,
        ] + match data_dir {
            Some(d) => seq![
                spec_tip(" Check permissions for:"@),
                seq![("       "@, None), (d, Some(Paint::Yellow))],
            ],
            None => Seq::empty(),
        },
        SingletonErrorKind::LockFailed(msg) => seq![
            seq![("Error:"@, Some(Paint::RedBold)), (" Failed to acquire lock"@, None)],
            blank,
            seq![("  "@ + msg@, None)],
        ],
        SingletonErrorKind::InvalidPath => seq![
            seq![("Error:"@, Some(Paint::RedBold)), (" Could not determine lock file path"@, None)],
            blank,
            spec_tip(" Ensure XDG_DATA_HOME or HOME is set."@),
        ],
    }
}

/// The lines shown when the single-instance lock fails.
pub fn singleton_error_lines(err: &SingletonErrorKind, data_dir: Option<&str>) -> (r: Vec<String>)
    ensures
        shows_lines(
            string_views(r@),
            spec_singleton_error(
                *err,
                match data_dir {
                    Some(d) => Some(d@),
                    None => None,
                },
            ),
        ),
{
    let ghost dd = match data_dir {
        Some(d) => Some(d@),
        None => None,
    };
    proof {
        reveal_strlit("");
    }
    match err {
        SingletonErrorKind::AlreadyRunning(pid) => {
            let p = decimal_string(*pid as u64);
            let mut k = crate::text::owned(" ");
            crate::text::append(&mut k, p.as_str());
            let lines: Vec<Vec<(&str, Option<Paint>)>> = vec![
                vec![("Error:", Some(Paint::RedBold)), (" Another instance is already running", None)],
                vec![("", None)],
                vec![("  Process ID: ", None), (p.as_str(), Some(Paint::Yellow))],
                vec![("", None)],
                vec![("  ", None), ("Tip:", Some(Paint::Cyan)), (" Stop the existing instance first:", None)],
                vec![("       ", None), ("opencode-cloud", Some(Paint::Green)), (" stop", None)],
                vec![("", None)],
                vec![("  ", None), ("Tip:", Some(Paint::Cyan)), (" If the process is stuck, kill it manually:", None)],
                vec![("       ", None), ("kill", Some(Paint::Green)), (k.as_str(), None)],
            ];
            let r = render_lines(&lines);
            assert(line_pieces(lines@) =~~= spec_singleton_error(*err, dd));
            r
        },
        SingletonErrorKind::CreateDirFailed(msg) => {
            let mut m = crate::text::owned("  ");
            crate::text::append(&mut m, msg.as_str());
            let mut lines: Vec<Vec<(&str, Option<Paint>)>> = vec![
                vec![("Error:", Some(Paint::RedBold)), (" Failed to create data directory", None)],
                vec![("", None)],
                vec![(m.as_str(), None)],
                vec![("", None)],
            ];
            match data_dir {
                Some(d) => {
                    lines.push(vec![("  ", None), ("Tip:", Some(Paint::Cyan)), (" Check permissions for:", None)]);
                    lines.push(vec![("       ", None), (d, Some(Paint::Yellow))]);
                },
                None => {},
            }
            let r = render_lines(&lines);
            assert(line_pieces(lines@) =~~= spec_singleton_error(*err, dd));
            r
        },
        SingletonErrorKind::LockFailed(msg) => {
            let mut m = crate::text::owned("  ");
            crate::text::append(&mut m, msg.as_str());
            let lines: Vec<Vec<(&str, Option<Paint>)>> = vec![
                vec![("Error:", Some(Paint::RedBold)), (" Failed to acquire lock", None)],
                vec![("", None)],
                vec![(m.as_str(), None)],
            ];
            let r = render_lines(&lines);
            assert(line_pieces(lines@) =~~= spec_singleton_error(*err, dd));
            r
        },
        SingletonErrorKind::InvalidPath => {
            let lines: Vec<Vec<(&str, Option<Paint>)>> = vec![
                vec![("Error:", Some(Paint::RedBold)), (" Could not determine lock file path", None)],
                vec![("", None)],
                vec![("  ", None), ("Tip:", Some(Paint::Cyan)), (" Ensure XDG_DATA_HOME or HOME is set.", None)],
            ];
            let r = render_lines(&lines);
            assert(line_pieces(lines@) =~~= spec_singleton_error(*err, dd));
            r
        },
    }
}

} // verus!
