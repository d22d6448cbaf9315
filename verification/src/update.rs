//! The `update` command: what can be updated, which version is available, and the
//! decisions along the container and opencode update flows.

use vstd::prelude::*;
use crate::runtime::{first_line_version, spec_first_line_version};
use crate::style::{is_painted, paint, piece_views, render, shows_pieces, Paint, Piece};
use crate::status_view::{line_pieces, render_lines, shows_lines};
use crate::text::{
    append, chars_of, eq_str, first_word, lines, spec_first_word, owned, push_padded_right, spec_lines, spec_pad_right,
    spec_trim, spec_words, starts_with, string_of, string_of_range, string_views, trim, views,
    words,
};

verus! {

/// Arguments of the `update` command.
#[derive(Debug, Clone)]
pub struct UpdateArgs {
    /// What to update; without one, an interactive selection.
    pub command: Option<UpdateCommand>,
    /// Restore the previous image instead of updating.
    pub rollback: bool,
    /// Skip confirmation prompts.
    pub yes: bool,
}

/// The `update` subcommands.
#[derive(Debug, Clone)]
pub enum UpdateCommand {
    /// Update the command line binary.
    Cli(UpdateCliArgs),
    /// Update the container image.
    Container,
    /// Update opencode inside the running container.
    Opencode(UpdateOpencodeArgs),
}

/// Arguments of `update cli`.
#[derive(Debug, Clone, Copy)]
pub struct UpdateCliArgs {
    pub yes: bool,
}

/// Arguments of `update opencode`.
#[derive(Debug, Clone, PartialEq, Eq)]
pub struct UpdateOpencodeArgs {
    /// Branch to build (default `dev`).
    pub branch: Option<String>,
    /// Commit to build.
    pub commit: Option<String>,
    pub yes: bool,
}

/// Which flow an `update` invocation runs.
#[derive(Debug, Clone, Copy, PartialEq, Eq, Structural)]
pub enum UpdateRoute {
    Cli,
    Opencode,
    Selector,
    ContainerUpdate,
    Rollback,
}

/// The flow of an `update` invocation: a subcommand picks its own; the container
/// flow rolls back with `--rollback`; without a subcommand the interactive selection
/// runs unless rolling back.
pub fn update_route(args: &UpdateArgs) -> (r: UpdateRoute)
    ensures
        r == (match args.command {
            Some(UpdateCommand::Cli(_)) => UpdateRoute::Cli,
            Some(UpdateCommand::Opencode(_)) => UpdateRoute::Opencode,
            _ => if args.rollback {
                UpdateRoute::Rollback
            } else if args.command is None {
                UpdateRoute::Selector
            } else {
                UpdateRoute::ContainerUpdate
            },
        }),
{
    match &args.command {
        Some(UpdateCommand::Cli(_)) => UpdateRoute::Cli,
        Some(UpdateCommand::Opencode(_)) => UpdateRoute::Opencode,
        Some(UpdateCommand::Container) => if args.rollback {
            UpdateRoute::Rollback
        } else {
            UpdateRoute::ContainerUpdate
        },
        None => if args.rollback {
            UpdateRoute::Rollback
        } else {
            UpdateRoute::Selector
        },
    }
}

// ---------------------------------------------------------------------------
// Candidates
// ---------------------------------------------------------------------------

/// What can be updated.
#[derive(Debug, Clone, Copy, PartialEq, Eq, Structural)]
pub enum UpdateTarget {
    Cli,
    Container,
    Opencode,
}

/// One updatable thing: its current and available versions, whether an update is
/// available and can be chosen, and a note for the user.
#[derive(Debug, Clone)]
pub struct UpdateCandidate {
    pub target: UpdateTarget,
    pub label: String,
    pub current: String,
    pub target_display: Option<String>,
    pub available: bool,
    pub selectable: bool,
    pub note: Option<String>,
}

pub open spec fn opt_chars(o: Option<String>) -> Option<Seq<char>> {
    match o {
        Some(s) => Some(s@),
        None => None,
    }
}

pub struct CandidateView {
    pub target: UpdateTarget,
    pub label: Seq<char>,
    pub current: Seq<char>,
    pub target_display: Option<Seq<char>>,
    pub available: bool,
    pub selectable: bool,
    pub note: Option<Seq<char>>,
}

impl View for UpdateCandidate {
    type V = CandidateView;

    open spec fn view(&self) -> CandidateView {
        CandidateView {
            target: self.target,
            label: self.label@,
            current: self.current@,
            target_display: opt_chars(self.target_display),
            available: self.available,
            selectable: self.selectable,
            note: opt_chars(self.note),
        }
    }
}

/// The version a candidate would update to, `latest` when unknown.
pub open spec fn spec_target_display(c: CandidateView) -> Seq<char> {
    match c.target_display {
        Some(t) => t,
        None => "latest"@,
    }
}

/// Whether `s` is the label padded to ten columns, then `current` and `tail` with the
/// two values dimmed.
pub open spec fn candidate_line(s: Seq<char>, c: CandidateView, tail: Seq<char>) -> bool {
    exists|a: Seq<char>|
        is_painted(a, c.current, Paint::Dim) && #[trigger] (spec_pad_right(c.label, 10) + " "@ + a + tail)
            == s
}

/// Whether `s` reads `label current -> target` with both values dimmed.
pub open spec fn arrow_line(s: Seq<char>, c: CandidateView) -> bool {
    exists|a: Seq<char>, b: Seq<char>|
        is_painted(a, c.current, Paint::Dim) && is_painted(b, spec_target_display(c), Paint::Dim)
            && #[trigger] (spec_pad_right(c.label, 10) + " "@ + a + " -> "@ + b) == s
}

impl UpdateCandidate {
    /// The version this candidate would update to.
    pub fn target_display(&self) -> (s: String)
        ensures
            s@ == spec_target_display(self@),
    {
        match &self.target_display {
            Some(t) => t.clone(),
            None => owned("latest"),
        }
    }

    /// The candidate's line in the update summary: the versions when an update is
    /// available, else whether it is unavailable or up to date.
    pub fn summary_line(&self) -> (s: String)
        ensures
            self.available ==> arrow_line(s@, self@),
            !self.available && !self.selectable ==> candidate_line(s@, self@, " (unavailable)"@),
            !self.available && self.selectable ==> candidate_line(s@, self@, " (up to date)"@),
    {
        if self.available {
            return self.selection_label();
        }
        let mut s = String::new();
        push_padded_right(&mut s, self.label.as_str(), 10);
        append(&mut s, " ");
        let a = paint(self.current.as_str(), Paint::Dim);
        append(&mut s, a.as_str());
        let tail = if !self.selectable {
            " (unavailable)"
        } else {
            " (up to date)"
        };
        append(&mut s, tail);
        proof {
            assert(s@ =~= spec_pad_right(self.label@, 10) + " "@ + a@ + tail@);
            assert(is_painted(a@, self@.current, Paint::Dim) && (spec_pad_right(self@.label, 10) + " "@
                + a@ + tail@) == s@);
            if !self.selectable {
                assert(candidate_line(s@, self@, " (unavailable)"@));
            } else {
                assert(candidate_line(s@, self@, " (up to date)"@));
            }
        }
        s
    }

    /// The candidate's entry in the interactive selection: `label current -> target`.
    pub fn selection_label(&self) -> (s: String)
        ensures
            arrow_line(s@, self@),
    {
        let mut s = String::new();
        push_padded_right(&mut s, self.label.as_str(), 10);
        append(&mut s, " ");
        let a = paint(self.current.as_str(), Paint::Dim);
        append(&mut s, a.as_str());
        append(&mut s, " -> ");
        let t = self.target_display();
        let b = paint(t.as_str(), Paint::Dim);
        append(&mut s, b.as_str());
        proof {
            assert(s@ =~= spec_pad_right(self.label@, 10) + " "@ + a@ + " -> "@ + b@);
            assert(is_painted(a@, self@.current, Paint::Dim) && is_painted(b@, spec_target_display(self@), Paint::Dim)
                && (spec_pad_right(self@.label, 10) + " "@ + a@ + " -> "@ + b@) == s@);
        }
        s
    }
}

/// The version the CLI's package manager offers: the latest release, and where that
/// needs a newer toolchain, the latest compatible one.
#[derive(Debug, Clone)]
pub struct CliTargetVersion {
    pub target: String,
    pub compatible: Option<String>,
}

fn some_string(s: &str) -> (r: Option<String>)
    ensures
        r matches Some(x) && x@ == s@,
{
    Some(owned(s))
}

fn prefixed_v(version: &str) -> (s: String)
    ensures
        s@ == "v"@ + version@,
{
    let mut s = owned("v");
    append(&mut s, version);
    s
}

/// The CLI's candidate. `dev_binary` marks a build from the source tree; otherwise
/// `install_detected` tells whether the install method is known, and `target` is
/// what its package manager offers (`None` where that could not be read).
pub open spec fn spec_cli_candidate(
    current_cli: Seq<char>,
    label: Seq<char>,
    dev_binary: bool,
    install_detected: bool,
    target: Option<(Seq<char>, bool)>,
) -> CandidateView {
    let current = "v"@ + current_cli;
    if dev_binary {
        CandidateView {
            target: UpdateTarget::Cli,
            label,
            current,
            target_display: None,
            available: false,
            selectable: false,
            note: Some("Dev build detected; self-update is disabled. Nice job running a dev build 😃"@),
        }
    } else if !install_detected {
        CandidateView {
            target: UpdateTarget::Cli,
            label,
            current,
            target_display: None,
            available: false,
            selectable: false,
            note: Some(
                "Unable to detect install method. Try: cargo install opencode-cloud or npm install -g opencode-cloud."@,
            ),
        }
    } else {
        match target {
            Some((t, has_compatible)) => if t == current_cli {
                CandidateView {
                    target: UpdateTarget::Cli,
                    label,
                    current,
                    target_display: None,
                    available: false,
                    selectable: true,
                    note: None,
                }
            } else {
                CandidateView {
                    target: UpdateTarget::Cli,
                    label,
                    current,
                    target_display: Some("v"@ + t),
                    available: true,
                    selectable: true,
                    note: if has_compatible {
                        Some(
                            "Latest CLI requires a newer Rust toolchain. Run: rustup update, then re-run occ update cli."@,
                        )
                    } else {
                        None
                    },
                }
            },
            None => CandidateView {
                target: UpdateTarget::Cli,
                label,
                current,
                target_display: Some("latest (unknown)"@),
                available: true,
                selectable: true,
                note: None,
            },
        }
    }
}

/// Builds the CLI's candidate from what was found out about the installation.
pub fn build_cli_candidate(
    current_cli: &str,
    label: &str,
    dev_binary: bool,
    install_detected: bool,
    target: &Option<CliTargetVersion>,
) -> (c: UpdateCandidate)
    ensures
        c@ == spec_cli_candidate(
            current_cli@,
            label@,
            dev_binary,
            install_detected,
            match *target {
                Some(t) => Some((t.target@, t.compatible is Some)),
                None => None,
            },
        ),
{
    let current = prefixed_v(current_cli);
    let mut available = false;
    let mut selectable = true;
    let mut note: Option<String> = None;
    let mut target_display: Option<String> = None;
    if dev_binary {
        selectable = false;
        note = some_string("Dev build detected; self-update is disabled. Nice job running a dev build 😃");
    } else if install_detected {
        match target {
            Some(t) => {
                if crate::text::str_eq(t.target.as_str(), current_cli) {
                    available = false;
                } else {
                    available = true;
                    target_display = Some(prefixed_v(t.target.as_str()));
                    if t.compatible.is_some() {
                        note = some_string(
                            "Latest CLI requires a newer Rust toolchain. Run: rustup update, then re-run occ update cli.",
                        );
                    }
                }
            },
            None => {
                available = true;
                target_display = some_string("latest (unknown)");
            },
        }
    } else {
        selectable = false;
        note = some_string(
            "Unable to detect install method. Try: cargo install opencode-cloud or npm install -g opencode-cloud.",
        );
    }
    UpdateCandidate {
        target: UpdateTarget::Cli,
        label: owned(label),
        current,
        target_display,
        available,
        selectable,
        note,
    }
}

/// Whether the container candidate needs the registry's latest version: with a
/// configuration and Docker, for a non-dev image pulled from the registry.
pub open spec fn spec_container_needs_registry(
    config_present: bool,
    docker_available: bool,
    current_version: Option<Seq<char>>,
    use_build: bool,
) -> bool {
    config_present && docker_available && current_version != Some("dev"@) && !use_build
}

/// Whether the registry must be asked for its latest version.
pub fn container_needs_registry(
    config_present: bool,
    docker_available: bool,
    current_version: Option<&str>,
    use_build: bool,
) -> (b: bool)
    ensures
        b == spec_container_needs_registry(
            config_present,
            docker_available,
            match current_version {
                Some(v) => Some(v@),
                None => None,
            },
            use_build,
        ),
{
    let dev = match current_version {
        Some(v) => crate::text::str_eq(v, "dev"),
        None => false,
    };
    config_present && docker_available && !dev && !use_build
}

/// The current image as shown: not installed, `dev`, `v<version>`, or unknown.
pub open spec fn spec_image_display(image_present: bool, version: Option<Seq<char>>) -> Seq<char> {
    if !image_present {
        "not installed"@
    } else {
        match version {
            Some(v) => if v == "dev"@ {
                "dev"@
            } else {
                "v"@ + v
            },
            None => "unknown"@,
        }
    }
}

/// The container image's candidate. The image's version is read only when the image
/// is present; `registry` is the registry's answer (`Err` with its message), asked
/// only where [`spec_container_needs_registry`] holds.
pub open spec fn spec_container_candidate(
    config_present: bool,
    docker_available: bool,
    config_note: Option<Seq<char>>,
    docker_note: Option<Seq<char>>,
    image_present: bool,
    current_version: Option<Seq<char>>,
    use_build: bool,
    registry: Result<Option<Seq<char>>, Seq<char>>,
) -> CandidateView {
    let unknown = CandidateView {
        target: UpdateTarget::Container,
        label: "Container"@,
        current: "unknown"@,
        target_display: None,
        available: false,
        selectable: false,
        note: None,
    };
    let version = if image_present {
        current_version
    } else {
        None
    };
    let current = spec_image_display(image_present, version);
    if !config_present {
        CandidateView { note: config_note, ..unknown }
    } else if !docker_available {
        CandidateView { note: docker_note, ..unknown }
    } else if version == Some("dev"@) {
        CandidateView {
            current,
            note: Some(
                "Dev container detected; updates are disabled for dev images. Nice job running a dev build 👏"@,
            ),
            ..unknown
        }
    } else {
        let latest = if use_build {
            None
        } else {
            match registry {
                Ok(v) => v,
                Err(_) => None,
            }
        };
        let note = if use_build {
            None
        } else {
            match registry {
                Ok(_) => None,
                Err(e) => Some("Failed to fetch registry version: "@ + e),
            }
        };
        let target_display = if use_build {
            "build from source"@
        } else {
            match latest {
                Some(v) => "v"@ + v,
                None => "latest (unknown)"@,
            }
        };
        let up_to_date = !use_build && version is Some && latest is Some && version == latest;
        CandidateView {
            target: UpdateTarget::Container,
            label: "Container"@,
            current,
            target_display: Some(target_display),
            available: !up_to_date,
            selectable: true,
            note,
        }
    }
}

fn opt_str(o: Option<&str>) -> (r: Option<String>)
    ensures
        opt_chars(r) == (match o {
            Some(s) => Some(s@),
            None => None,
        }),
{
    match o {
        Some(s) => Some(owned(s)),
        None => None,
    }
}

fn opt_eq(a: &Option<String>, b: &Option<String>) -> (r: bool)
    ensures
        r == (opt_chars(*a) == opt_chars(*b)),
{
    match (a, b) {
        (Some(x), Some(y)) => crate::text::str_eq(x.as_str(), y.as_str()),
        (None, None) => true,
        _ => false,
    }
}

/// Builds the container image's candidate.
pub fn build_container_candidate(
    config_present: bool,
    docker_available: bool,
    config_note: Option<&str>,
    docker_note: Option<&str>,
    image_present: bool,
    current_version: Option<String>,
    use_build: bool,
    registry: Result<Option<String>, String>,
) -> (c: UpdateCandidate)
    ensures
        c@ == spec_container_candidate(
            config_present,
            docker_available,
            match config_note {
                Some(s) => Some(s@),
                None => None,
            },
            match docker_note {
                Some(s) => Some(s@),
                None => None,
            },
            image_present,
            opt_chars(current_version),
            use_build,
            match registry {
                Ok(v) => Ok(opt_chars(v)),
                Err(e) => Err(e@),
            },
        ),
{
    if !config_present || !docker_available {
        let note = if !config_present {
            opt_str(config_note)
        } else {
            opt_str(docker_note)
        };
        return UpdateCandidate {
            target: UpdateTarget::Container,
            label: owned("Container"),
            current: owned("unknown"),
            target_display: None,
            available: false,
            selectable: false,
            note,
        };
    }
    let version = if image_present {
        current_version
    } else {
        None
    };
    let current = if !image_present {
        owned("not installed")
    } else {
        match &version {
            Some(v) => if crate::text::str_eq(v.as_str(), "dev") {
                owned("dev")
            } else {
                prefixed_v(v.as_str())
            },
            None => owned("unknown"),
        }
    };
    let is_dev = match &version {
        Some(v) => crate::text::str_eq(v.as_str(), "dev"),
        None => false,
    };
    if is_dev {
        return UpdateCandidate {
            target: UpdateTarget::Container,
            label: owned("Container"),
            current,
            target_display: None,
            available: false,
            selectable: false,
            note: some_string(
                "Dev container detected; updates are disabled for dev images. Nice job running a dev build 👏",
            ),
        };
    }
    let (latest, note) = if use_build {
        (None, None)
    } else {
        match registry {
            Ok(v) => (v, None),
            Err(e) => {
                let mut n = owned("Failed to fetch registry version: ");
                append(&mut n, e.as_str());
                (None, Some(n))
            },
        }
    };
    let target_display = if use_build {
        owned("build from source")
    } else {
        match &latest {
            Some(v) => prefixed_v(v.as_str()),
            None => owned("latest (unknown)"),
        }
    };
    let up_to_date = !use_build && version.is_some() && latest.is_some() && opt_eq(&version, &latest);
    UpdateCandidate {
        target: UpdateTarget::Container,
        label: owned("Container"),
        current,
        target_display: Some(target_display),
        available: !up_to_date,
        selectable: true,
        note,
    }
}

/// The opencode candidate. Without a configuration or Docker it cannot be chosen;
/// without the container neither; a stopped container's commit is unknown.
pub open spec fn spec_opencode_candidate(
    config_present: bool,
    docker_available: bool,
    config_note: Option<Seq<char>>,
    docker_note: Option<Seq<char>>,
    latest_commit: Option<Seq<char>>,
    opencode_note: Option<Seq<char>>,
    container_exists: bool,
    running: bool,
    current_commit: Option<Seq<char>>,
) -> CandidateView {
    let target_display = Some(
        match latest_commit {
            Some(c) => c,
            None => "latest (unknown)"@,
        },
    );
    let first_note = |n: Option<Seq<char>>| if n is Some {
        n
    } else {
        opencode_note
    };
    if !config_present {
        CandidateView {
            target: UpdateTarget::Opencode,
            label: "Opencode"@,
            current: "unknown"@,
            target_display,
            available: false,
            selectable: false,
            note: first_note(config_note),
        }
    } else if !docker_available {
        CandidateView {
            target: UpdateTarget::Opencode,
            label: "Opencode"@,
            current: "unknown"@,
            target_display,
            available: false,
            selectable: false,
            note: first_note(docker_note),
        }
    } else if !container_exists {
        CandidateView {
            target: UpdateTarget::Opencode,
            label: "Opencode"@,
            current: "missing"@,
            target_display,
            available: false,
            selectable: false,
            note: Some("Container not found; start or update the container first."@),
        }
    } else {
        let commit = if running {
            current_commit
        } else {
            None
        };
        let current = if running {
            match commit {
                Some(c) => c,
                None => "missing"@,
            }
        } else {
            "unknown (stopped)"@
        };
        let up_to_date = commit is Some && latest_commit is Some && commit == latest_commit;
        CandidateView {
            target: UpdateTarget::Opencode,
            label: "Opencode"@,
            current,
            target_display,
            available: !up_to_date,
            selectable: true,
            note: opencode_note,
        }
    }
}

/// Builds the opencode candidate.
pub fn build_opencode_candidate(
    config_present: bool,
    docker_available: bool,
    config_note: Option<&str>,
    docker_note: Option<&str>,
    latest_commit: Option<&str>,
    opencode_note: Option<&str>,
    container_exists: bool,
    running: bool,
    current_commit: Option<String>,
) -> (c: UpdateCandidate)
    ensures
        c@ == spec_opencode_candidate(
            config_present,
            docker_available,
            match config_note {
                Some(s) => Some(s@),
                None => None,
            },
            match docker_note {
                Some(s) => Some(s@),
                None => None,
            },
            match latest_commit {
                Some(s) => Some(s@),
                None => None,
            },
            match opencode_note {
                Some(s) => Some(s@),
                None => None,
            },
            container_exists,
            running,
            opt_chars(current_commit),
        ),
{
    let target_display = match latest_commit {
        Some(c) => Some(owned(c)),
        None => some_string("latest (unknown)"),
    };
    if !config_present || !docker_available {
        let first = if !config_present {
            config_note
        } else {
            docker_note
        };
        let note = match first {
            Some(n) => Some(owned(n)),
            None => opt_str(opencode_note),
        };
        return UpdateCandidate {
            target: UpdateTarget::Opencode,
            label: owned("Opencode"),
            current: owned("unknown"),
            target_display,
            available: false,
            selectable: false,
            note,
        };
    }
    if !container_exists {
        return UpdateCandidate {
            target: UpdateTarget::Opencode,
            label: owned("Opencode"),
            current: owned("missing"),
            target_display,
            available: false,
            selectable: false,
            note: some_string("Container not found; start or update the container first."),
        };
    }
    let commit = if running {
        current_commit
    } else {
        None
    };
    let current = if running {
        match &commit {
            Some(c) => c.clone(),
            None => owned("missing"),
        }
    } else {
        owned("unknown (stopped)")
    };
    let latest = opt_str(latest_commit);
    let up_to_date = commit.is_some() && latest.is_some() && opt_eq(&commit, &latest);
    UpdateCandidate {
        target: UpdateTarget::Opencode,
        label: owned("Opencode"),
        current,
        target_display,
        available: !up_to_date,
        selectable: true,
        note: opt_str(opencode_note),
    }
}

/// The positions of the candidates that can be updated, in order.
pub open spec fn spec_selectable(cs: Seq<CandidateView>) -> Seq<int>
    decreases cs.len(),
{
    if cs.len() == 0 {
        Seq::empty()
    } else {
        let prev = spec_selectable(cs.drop_last());
        if cs.last().selectable && cs.last().available {
            prev.push(cs.len() - 1)
        } else {
            prev
        }
    }
}

pub open spec fn candidate_views(cs: Seq<UpdateCandidate>) -> Seq<CandidateView> {
    cs.map_values(|c: UpdateCandidate| c@)
}

/// The positions of the candidates offered for update.
pub fn selectable_indices(candidates: &Vec<UpdateCandidate>) -> (r: Vec<usize>)
    ensures
        r@.map_values(|i: usize| i as int) == spec_selectable(candidate_views(candidates@)),
{
    let ghost all = candidate_views(candidates@);
    let mut r: Vec<usize> = Vec::new();
    let mut i: usize = 0;
    while i < candidates.len()
        invariant
            i <= candidates@.len(),
            all == candidate_views(candidates@),
            r@.map_values(|k: usize| k as int) == spec_selectable(all.take(i as int)),
        decreases candidates@.len() - i,
    {
        proof {
            assert(all.take(i + 1).drop_last() =~= all.take(i as int));
            assert(all.take(i + 1).last() == candidates@[i as int]@);
        }
        if candidates[i].selectable && candidates[i].available {
            let ghost before = r@.map_values(|k: usize| k as int);
            r.push(i);
            assert(r@.map_values(|k: usize| k as int) =~= before.push(i as int));
        }
        i = i + 1;
    }
    assert(all.take(candidates@.len() as int) =~= all);
    r
}

/// The targets of the candidates at `indices`.
pub fn targets_at(candidates: &Vec<UpdateCandidate>, indices: &Vec<usize>) -> (r: Vec<UpdateTarget>)
    requires
        forall|j: int| 0 <= j < indices@.len() ==> #[trigger] indices@[j] < candidates@.len(),
    ensures
        r@.len() == indices@.len(),
        forall|j: int| 0 <= j < indices@.len() ==> #[trigger] r@[j] == candidates@[indices@[j] as int].target,
{
    let mut r: Vec<UpdateTarget> = Vec::new();
    let mut j: usize = 0;
    while j < indices.len()
        invariant
            j <= indices@.len(),
            forall|k: int| 0 <= k < indices@.len() ==> #[trigger] indices@[k] < candidates@.len(),
            r@.len() == j,
            forall|k: int| 0 <= k < j ==> #[trigger] r@[k] == candidates@[indices@[k] as int].target,
        decreases indices@.len() - j,
    {
        r.push(candidates[indices[j]].target);
        j = j + 1;
    }
    r
}

/// The targets updated without asking (`--yes`): every candidate that can be.
pub fn select_all_targets(candidates: &Vec<UpdateCandidate>) -> (r: Vec<UpdateTarget>)
    ensures
        r@.len() == spec_selectable(candidate_views(candidates@)).len(),
        forall|j: int|
            0 <= j < r@.len() ==> #[trigger] r@[j] == candidates@[spec_selectable(
                candidate_views(candidates@),
            )[j]].target,
{
    let idx = selectable_indices(candidates);
    proof {
        lemma_selectable_in_range(candidate_views(candidates@));
        assert forall|j: int| 0 <= j < idx@.len() implies #[trigger] idx@[j] < candidates@.len() by {
            assert(idx@.map_values(|i: usize| i as int)[j] == idx@[j] as int);
        }
    }
    let r = targets_at(candidates, &idx);
    proof {
        assert forall|j: int| 0 <= j < r@.len() implies #[trigger] r@[j] == candidates@[spec_selectable(
            candidate_views(candidates@),
        )[j]].target by {
            assert(idx@.map_values(|i: usize| i as int)[j] == idx@[j] as int);
        }
    }
    r
}

/// The positions [`spec_selectable`] gives are positions of the sequence.
pub proof fn lemma_selectable_in_range(cs: Seq<CandidateView>)
    ensures
        forall|j: int| 0 <= j < spec_selectable(cs).len() ==> 0 <= #[trigger] spec_selectable(cs)[j] < cs.len(),
    decreases cs.len(),
{
    if cs.len() > 0 {
        lemma_selectable_in_range(cs.drop_last());
        let prev = spec_selectable(cs.drop_last());
        assert forall|j: int| 0 <= j < spec_selectable(cs).len() implies 0 <= #[trigger] spec_selectable(cs)[j] < cs.len() by {
            if j < prev.len() {
                assert(spec_selectable(cs)[j] == prev[j]);
            }
        }
    }
}

/// Which targets were chosen.
#[derive(Debug, Clone, Copy)]
pub struct UpdateSelection {
    pub cli: bool,
    pub container: bool,
    pub opencode: bool,
}

impl UpdateSelection {
    /// A target is selected when it occurs among `targets`.
    pub fn from_targets(targets: &Vec<UpdateTarget>) -> (s: Self)
        ensures
            s.cli == targets@.contains(UpdateTarget::Cli),
            s.container == targets@.contains(UpdateTarget::Container),
            s.opencode == targets@.contains(UpdateTarget::Opencode),
    {
        let mut s = UpdateSelection { cli: false, container: false, opencode: false };
        let mut i: usize = 0;
        while i < targets.len()
            invariant
                i <= targets@.len(),
                s.cli == exists|j: int| 0 <= j < i && targets@[j] == UpdateTarget::Cli,
                s.container == exists|j: int| 0 <= j < i && targets@[j] == UpdateTarget::Container,
                s.opencode == exists|j: int| 0 <= j < i && targets@[j] == UpdateTarget::Opencode,
            decreases targets@.len() - i,
        {
            match targets[i] {
                UpdateTarget::Cli => s.cli = true,
                UpdateTarget::Container => s.container = true,
                UpdateTarget::Opencode => s.opencode = true,
            }
            i = i + 1;
        }
        s
    }
}

// ---------------------------------------------------------------------------
// Versions offered by the package managers
// ---------------------------------------------------------------------------

pub open spec fn is_paren(c: char) -> bool {
    c == '(' || c == ')'
}

pub open spec fn trim_parens_start(s: Seq<char>) -> Seq<char>
    decreases s.len(),
{
    if s.len() > 0 && is_paren(s[0]) {
        trim_parens_start(s.drop_first())
    } else {
        s
    }
}

pub open spec fn trim_parens_end(s: Seq<char>) -> Seq<char>
    decreases s.len(),
{
    if s.len() > 0 && is_paren(s.last()) {
        trim_parens_end(s.drop_last())
    } else {
        s
    }
}

/// `s` without surrounding parentheses (`trim_matches` on `(` and `)`).
pub open spec fn spec_trim_parens(s: Seq<char>) -> Seq<char> {
    trim_parens_end(trim_parens_start(s))
}

fn trim_parens(s: &Vec<char>) -> (r: Vec<char>)
    ensures
        r@ == spec_trim_parens(s@),
{
    let mut a: usize = 0;
    assert(s@.subrange(0, s@.len() as int) =~= s@);
    while a < s.len() && (s[a] == '(' || s[a] == ')')
        invariant
            a <= s@.len(),
            trim_parens_start(s@.subrange(a as int, s@.len() as int)) == trim_parens_start(s@),
        decreases s@.len() - a,
    {
        assert(s@.subrange(a as int, s@.len() as int).drop_first() =~= s@.subrange(a + 1, s@.len() as int));
        a = a + 1;
    }
    let ghost start = trim_parens_start(s@);
    let mut b: usize = s.len();
    assert(start =~= s@.subrange(a as int, s@.len() as int)) by {
        assert(trim_parens_start(s@.subrange(a as int, s@.len() as int)) == s@.subrange(a as int, s@.len() as int));
    }
    while b > a && (s[b - 1] == '(' || s[b - 1] == ')')
        invariant
            a <= b <= s@.len(),
            start =~= s@.subrange(a as int, s@.len() as int),
            trim_parens_end(s@.subrange(a as int, b as int)) == trim_parens_end(start),
        decreases b - a,
    {
        assert(s@.subrange(a as int, b as int).drop_last() =~= s@.subrange(a as int, b - 1));
        b = b - 1;
    }
    let mut r: Vec<char> = Vec::new();
    let mut k = a;
    while k < b
        invariant
            a <= k <= b <= s@.len(),
            r@ == s@.subrange(a as int, k as int),
        decreases b - k,
    {
        r.push(s[k]);
        assert(r@ =~= s@.subrange(a as int, k + 1));
        k = k + 1;
    }
    r
}

/// The version after the word `latest` among the words of `value` (parentheses
/// removed), if there is one and it is not empty.
pub open spec fn spec_latest_token(value: Seq<char>) -> Option<Seq<char>> {
    let w = spec_words(value);
    if exists|i: int| 0 <= i < w.len() && spec_trim_parens(#[trigger] w[i]) == "latest"@ {
        let i = choose|i: int|
            0 <= i < w.len() && spec_trim_parens(w[i]) == "latest"@ && forall|j: int|
                0 <= j < i ==> spec_trim_parens(#[trigger] w[j]) != "latest"@;
        if i + 1 < w.len() && spec_trim_parens(w[i + 1]).len() > 0 {
            Some(spec_trim_parens(w[i + 1]))
        } else {
            None
        }
    } else {
        None
    }
}

/// The version after `latest` in a `cargo info` version value.
pub fn parse_latest_token(value: &str) -> (r: Option<String>)
    ensures
        r matches Some(v) ==> spec_latest_token(value@) == Some(v@),
        r is None ==> spec_latest_token(value@) is None,
{
    let w = words(&chars_of(value));
    let ghost wv = views(w@);
    let mut i: usize = 0;
    while i < w.len()
        invariant
            i <= w@.len(),
            wv == views(w@),
            wv == spec_words(value@),
            forall|j: int| 0 <= j < i ==> spec_trim_parens(#[trigger] wv[j]) != "latest"@,
        decreases w@.len() - i,
    {
        let cleaned = trim_parens(&w[i]);
        assert(wv[i as int] == w@[i as int]@);
        if eq_str(&cleaned, "latest") {
            proof {
                let c = choose|k: int|
                    0 <= k < wv.len() && spec_trim_parens(wv[k]) == "latest"@ && forall|j: int|
                        0 <= j < k ==> spec_trim_parens(#[trigger] wv[j]) != "latest"@;
                assert(0 <= i < wv.len() && spec_trim_parens(wv[i as int]) == "latest"@);
                if c < i {
                    assert(spec_trim_parens(wv[c]) != "latest"@);
                } else if c > i {
                    assert(spec_trim_parens(wv[i as int]) != "latest"@);
                }
                assert(c == i);
            }
            if i + 1 >= w.len() {
                return None;
            }
            let version = trim_parens(&w[i + 1]);
            assert(wv[i + 1] == w@[i + 1]@);
            if version.len() == 0 {
                return None;
            }
            return Some(string_of(&version));
        }
        i = i + 1;
    }
    None
}

/// The first line of `output`, trimmed, that starts with `version:`.
pub open spec fn spec_version_line(output: Seq<char>) -> Option<Seq<char>> {
    let ls = spec_lines(output);
    if exists|i: int| 0 <= i < ls.len() && "version:"@.is_prefix_of(spec_trim(#[trigger] ls[i])) {
        let i = choose|i: int|
            0 <= i < ls.len() && "version:"@.is_prefix_of(spec_trim(ls[i])) && forall|j: int|
                0 <= j < i ==> !"version:"@.is_prefix_of(spec_trim(#[trigger] ls[j]));
        Some(spec_trim(ls[i]))
    } else {
        None
    }
}

/// What `cargo info` reports: the value of its `version:` line (trimmed, so that
/// its leading characters up to whitespace are its first word), whose first word is
/// the newest version the toolchain can build; a `latest <version>` note names a
/// newer release, which then becomes the target.
pub open spec fn spec_cargo_info_versions(output: Seq<char>) -> Option<(Seq<char>, Option<Seq<char>>)> {
    match spec_version_line(output) {
        None => None,
        Some(line) => {
            let value = spec_trim(line.skip(8));
            if value.len() == 0 {
                None
            } else {
                let compatible = spec_trim_parens(spec_first_word(value));
                let target = match spec_latest_token(value) {
                    Some(l) => l,
                    None => compatible,
                };
                Some((target, if target == compatible { None } else { Some(compatible) }))
            }
        },
    }
}

/// The first line of `output`, trimmed, that starts with `version:`.
fn version_line(output: &str) -> (r: Option<Vec<char>>)
    ensures
        r matches Some(l) ==> spec_version_line(output@) == Some(l@) && "version:"@.is_prefix_of(l@),
        r is None ==> spec_version_line(output@) is None,
{
    let ls = lines(&chars_of(output));
    let ghost lv = views(ls@);
    let mut i: usize = 0;
    while i < ls.len()
        invariant
            i <= ls@.len(),
            lv == views(ls@),
            lv == spec_lines(output@),
            forall|j: int| 0 <= j < i ==> !"version:"@.is_prefix_of(spec_trim(#[trigger] lv[j])),
        decreases ls@.len() - i,
    {
        let t = trim(&ls[i]);
        assert(lv[i as int] == ls@[i as int]@);
        if starts_with(&t, "version:") {
            proof {
                let c = choose|k: int|
                    0 <= k < lv.len() && "version:"@.is_prefix_of(spec_trim(lv[k])) && forall|j: int|
                        0 <= j < k ==> !"version:"@.is_prefix_of(spec_trim(#[trigger] lv[j]));
                assert(0 <= i < lv.len() && "version:"@.is_prefix_of(spec_trim(lv[i as int])));
                if c < i {
                    assert(!"version:"@.is_prefix_of(spec_trim(lv[c])));
                } else if c > i {
                    assert(!"version:"@.is_prefix_of(spec_trim(lv[i as int])));
                }
                assert(c == i);
            }
            return Some(t);
        }
        i = i + 1;
    }
    None
}

/// Reads the target version out of `cargo info opencode-cloud` output.
pub fn parse_cargo_info_versions(output: &str) -> (r: Option<CliTargetVersion>)
    ensures
        r matches Some(v) ==> spec_cargo_info_versions(output@) == Some((v.target@, opt_chars(v.compatible))),
        r is None ==> spec_cargo_info_versions(output@) is None,
{
    let line = match version_line(output) {
        Some(l) => l,
        None => return None,
    };
    proof {
        reveal_strlit("version:");
    }
    let rest = string_of_range(&line, 8, line.len());
    let value = trim(&chars_of(rest.as_str()));
    assert(rest@ =~= line@.skip(8));
    if value.len() == 0 {
        return None;
    }
    let value_str = string_of(&value);
    let compatible = trim_parens(&first_word(&value));
    let target = match parse_latest_token(value_str.as_str()) {
        Some(l) => l,
        None => string_of(&compatible),
    };
    let same = eq_str(&compatible, target.as_str());
    let compat = if same {
        None
    } else {
        Some(string_of(&compatible))
    };
    Some(CliTargetVersion { target, compatible: compat })
}

/// The version in `npm view opencode-cloud version` output: its first line, trimmed.
pub fn parse_npm_view_version(output: &str) -> (r: Option<String>)
    ensures
        r matches Some(v) ==> spec_first_line_version(output@) == Some(v@),
        r is None ==> spec_first_line_version(output@) is None,
{
    first_line_version(output)
}

/// A commit reference shortened to its first seven characters.
pub fn short_commit(value: &str) -> (s: String)
    ensures
        s@ == value@.take(if value@.len() < 7 { value@.len() as int } else { 7 }),
{
    let cs = chars_of(value);
    let n = if cs.len() < 7 {
        cs.len()
    } else {
        7
    };
    let s = string_of_range(&cs, 0, n);
    assert(s@ =~= value@.take(n as int));
    s
}

// ---------------------------------------------------------------------------
// Updating opencode inside the container
// ---------------------------------------------------------------------------

/// The git reference to build: the requested commit, else the branch, else `dev`.
pub fn opencode_target_ref(args: &UpdateOpencodeArgs) -> (s: String)
    ensures
        s@ == (match args.commit {
            Some(c) => c@,
            None => match args.branch {
                Some(b) => b@,
                None => "dev"@,
            },
        }),
{
    match &args.commit {
        Some(c) => c.clone(),
        None => match &args.branch {
            Some(b) => b.clone(),
            None => owned("dev"),
        },
    }
}

/// How the build checks out the reference: a commit directly, a branch from origin.
pub fn opencode_checkout_command(args: &UpdateOpencodeArgs) -> (s: &'static str)
    ensures
        s@ == (if args.commit is Some {
            "git checkout \"$OPENCODE_REF\""@
        } else {
            "git checkout -B \"$OPENCODE_REF\" \"origin/$OPENCODE_REF\""@
        }),
{
    if args.commit.is_some() {
        "git checkout \"$OPENCODE_REF\""
    } else {
        "git checkout -B \"$OPENCODE_REF\" \"origin/$OPENCODE_REF\""
    }
}

/// Stops the running opencode processes before the rebuild.
pub const OPENCODE_STOP_SCRIPT: &'static str = "set -euo pipefail\npkill -f \"/opt/opencode/bin/opencode\" || true\npkill -f \"opencode-broker\" || true\n";

/// The start of the rebuild script, up to the reference's value.
pub const UPDATE_SCRIPT_HEAD: &'static str = "set -euo pipefail\nREPO=\"/tmp/opencode-repo\"\nOPENCODE_REF=\"";

/// The rebuild script between the reference and the checkout command.
pub const UPDATE_SCRIPT_FETCH: &'static str = "\"\nrm -rf \"$REPO\"\ngit clone --depth 1 https://github.com/pRizz/opencode.git \"$REPO\"\ncd \"$REPO\"\ngit fetch --depth 1 origin \"$OPENCODE_REF\"\n";

/// The rebuild script after the checkout: record the commit, build, install.
pub const UPDATE_SCRIPT_BUILD: &'static str = "\n\nmkdir -p /opt/opencode\ngit rev-parse HEAD > /opt/opencode/COMMIT\nchown opencode:opencode /opt/opencode/COMMIT\n\nrunuser -u opencode -- bash -lc 'export PATH=\"/home/opencode/.bun/bin:$PATH\"; cd /tmp/opencode-repo; bun install --frozen-lockfile; cd packages/opencode; bun run build-single-ui'\nrunuser -u opencode -- bash -lc '. /home/opencode/.cargo/env; cd /tmp/opencode-repo/packages/opencode-broker; cargo build --release'\n\nmkdir -p /opt/opencode/bin /opt/opencode/ui\ncp /tmp/opencode-repo/packages/opencode/dist/opencode-*/bin/opencode /opt/opencode/bin/opencode\ncp -R /tmp/opencode-repo/packages/opencode/dist/opencode-*/ui/. /opt/opencode/ui/\nchown -R opencode:opencode /opt/opencode\nchmod +x /opt/opencode/bin/opencode\ncp /tmp/opencode-repo/packages/opencode-broker/target/release/opencode-broker /usr/local/bin/opencode-broker\nchmod 4755 /usr/local/bin/opencode-broker\n/opt/opencode/bin/opencode --version\nrm -rf \"$REPO\"\n";

/// The script that rebuilds opencode from `target_ref` inside the container.
pub fn opencode_update_script(target_ref: &str, checkout_cmd: &str) -> (s: String)
    ensures
        s@ == UPDATE_SCRIPT_HEAD@ + target_ref@ + UPDATE_SCRIPT_FETCH@ + checkout_cmd@
            + UPDATE_SCRIPT_BUILD@,
{
    let mut s = owned(UPDATE_SCRIPT_HEAD);
    append(&mut s, target_ref);
    append(&mut s, UPDATE_SCRIPT_FETCH);
    append(&mut s, checkout_cmd);
    append(&mut s, UPDATE_SCRIPT_BUILD);
    s
}

pub open spec fn spec_short(v: Seq<char>) -> Seq<char> {
    v.take(if v.len() < 7 { v.len() as int } else { 7 })
}

/// The installed commit from `/opt/opencode/COMMIT`: its first line, trimmed and
/// shortened.
pub fn commit_from_file(contents: &str) -> (r: Option<String>)
    ensures
        r matches Some(c) ==> spec_first_line_version(contents@) matches Some(l) && c@ == spec_short(l),
        r is None ==> spec_first_line_version(contents@) is None,
{
    match first_line_version(contents) {
        Some(l) => Some(short_commit(l.as_str())),
        None => None,
    }
}

/// The commit a remote reference points at, from `git ls-remote` output: its first
/// word, shortened.
pub fn commit_from_ls_remote(output: &str) -> (r: Option<String>)
    ensures
        r is Some <==> spec_words(output@).len() > 0,
        r matches Some(c) ==> c@ == spec_short(spec_words(output@)[0]),
{
    let ws = words(&chars_of(output));
    if ws.len() == 0 {
        return None;
    }
    assert(views(ws@)[0] == ws@[0]@);
    let full = string_of(&ws[0]);
    Some(short_commit(full.as_str()))
}

/// The commit the update will install: the requested commit, shortened, else what
/// the remote reference points at.
pub fn next_commit(requested: Option<&str>, remote: Option<String>) -> (r: Option<String>)
    ensures
        opt_chars(r) == (match requested {
            Some(c) => Some(spec_short(c@)),
            None => opt_chars(remote),
        }),
{
    match requested {
        Some(c) => Some(short_commit(c)),
        None => remote,
    }
}

/// Opencode is up to date when its commit is known and is the one the update would
/// install.
pub fn opencode_up_to_date(current: &Option<String>, next: &Option<String>) -> (b: bool)
    ensures
        b == (current is Some && opt_chars(*current) == opt_chars(*next)),
{
    current.is_some() && opt_eq(current, next)
}

/// After the rebuild, the installed commit must be the expected one, when one was
/// expected.
pub fn update_applied(expected: &Option<String>, installed: &Option<String>) -> (b: bool)
    ensures
        b == (expected is None || opt_chars(*installed) == opt_chars(*expected)),
{
    expected.is_none() || opt_eq(installed, expected)
}

// ---------------------------------------------------------------------------
// Updating the container image
// ---------------------------------------------------------------------------

/// Dev images are never updated.
pub fn is_dev_image(version: &Option<String>) -> (b: bool)
    ensures
        b == (opt_chars(*version) == Some("dev"@)),
{
    match version {
        Some(v) => crate::text::str_eq(v.as_str(), "dev"),
        None => false,
    }
}

/// The image is already current when both its version and the registry's latest
/// are known and equal.
pub fn image_already_current(current: &Option<String>, latest: &Option<String>) -> (b: bool)
    ensures
        b == (current is Some && latest is Some && opt_chars(*current) == opt_chars(*latest)),
{
    current.is_some() && latest.is_some() && opt_eq(current, latest)
}

/// After pulling, nothing changed when the pulled version is the previous image's.
pub fn pulled_image_unchanged(previous: &Option<String>, pulled: &Option<String>) -> (b: bool)
    ensures
        b == (previous is Some && opt_chars(*pulled) == opt_chars(*previous)),
{
    previous.is_some() && opt_eq(pulled, previous)
}

/// The registry an image came from: GitHub's when its name says so, else Docker Hub.
pub fn image_registry(full_image: &str) -> (s: &'static str)
    ensures
        s@ == (if "ghcr.io"@.is_prefix_of(full_image@) {
            "ghcr.io"@
        } else {
            "docker.io"@
        }),
{
    if starts_with(&chars_of(full_image), "ghcr.io") {
        "ghcr.io"
    } else {
        "docker.io"
    }
}

/// The target shown before a container update.
pub fn update_target_text(use_build: bool, registry_version: Option<&str>) -> (s: String)
    ensures
        s@ == (if use_build {
            "build from source"@
        } else {
            match registry_version {
                Some(v) => "latest (registry, version "@ + v@ + ")"@,
                None => "latest (registry)"@,
            }
        }),
{
    if use_build {
        owned("build from source")
    } else {
        match registry_version {
            Some(v) => {
                let mut s = owned("latest (registry, version ");
                append(&mut s, v);
                append(&mut s, ")");
                s
            },
            None => owned("latest (registry)"),
        }
    }
}

/// The notes shown instead of updating a dev image.
pub open spec fn spec_dev_image_notes() -> Seq<Seq<Piece>> {
    seq![
        seq![("Note:"@, Some(Paint::Yellow)), (" Dev container detected; updates are disabled for dev images."@, None)],
        seq![
            ("Tip:"@, Some(Paint::Cyan)),
            (" Nice job running a dev build 🎉 Rebuild from source or switch to a prebuilt image."@, None),
        ],
    ]
}

/// The notes shown instead of updating a dev image.
pub fn dev_image_notes() -> (r: Vec<String>)
    ensures
        shows_lines(string_views(r@), spec_dev_image_notes()),
{
    let lines: Vec<Vec<(&str, Option<Paint>)>> = vec![
        vec![("Note:", Some(Paint::Yellow)), (" Dev container detected; updates are disabled for dev images.", None)],
        vec![("Tip:", Some(Paint::Cyan)), (" Nice job running a dev build 🎉 Rebuild from source or switch to a prebuilt image.", None)],
    ];
    let r = render_lines(&lines);
    assert(line_pieces(lines@) =~~= spec_dev_image_notes());
    r
}

/// The line saying the container image is current, with its version.
pub fn image_up_to_date_line(version: &str) -> (s: String)
    ensures
        shows_pieces(
            s@,
            seq![
                ("✓"@, Some(Paint::Green)),
                (" Container image is already up to date (version "@, None),
                (version@, Some(Paint::Dim)),
                (")."@, None),
            ],
        ),
{
    let v: Vec<(&str, Option<Paint>)> = vec![
        ("✓", Some(Paint::Green)),
        (" Container image is already up to date (version ", None),
        (version, Some(Paint::Dim)),
        (").", None),
    ];
    assert(piece_views(v@) =~~= seq![
        ("✓"@, Some(Paint::Green)),
        (" Container image is already up to date (version "@, None),
        (version@, Some(Paint::Dim)),
        (")."@, None),
    ]);
    render(&v)
}

/// A warning line: `Warning:` in bold yellow, then the text.
pub fn warning_line(text: &str) -> (s: String)
    ensures
        shows_pieces(s@, seq![("Warning:"@, Some(Paint::YellowBold)), (" "@ + text@, None)]),
{
    let mut t = owned(" ");
    append(&mut t, text);
    let v: Vec<(&str, Option<Paint>)> = vec![("Warning:", Some(Paint::YellowBold)), (t.as_str(), None)];
    assert(piece_views(v@) =~~= seq![("Warning:"@, Some(Paint::YellowBold)), (" "@ + text@, None)]);
    render(&v)
}

/// What is shown before a container update: that the service stops briefly, and the
/// current and target versions.
pub open spec fn spec_update_plan(current: Option<Seq<char>>, use_build: bool, registry_version: Option<Seq<char>>) -> Seq<
    Seq<Piece>,
> {
    seq![
        seq![(Seq::empty(), None)],
        seq![("Warning:"@, Some(Paint::YellowBold)), (" This will briefly stop the service to apply the update."@, None)],
        seq![
            ("Current:    "@, None),
            (match current {
                Some(c) => c,
                None => "unknown"@,
            }, Some(Paint::Dim)),
        ],
        seq![
            ("Target:     "@, None),
            (if use_build {
                "build from source"@
            } else {
                match registry_version {
                    Some(v) => "latest (registry, version "@ + v + ")"@,
                    None => "latest (registry)"@,
                }
            }, Some(Paint::Dim)),
        ],
        seq![(Seq::empty(), None)],
    ]
}

/// The lines shown before a container update.
pub fn update_plan_lines(current: Option<&str>, use_build: bool, registry_version: Option<&str>) -> (r: Vec<String>)
    ensures
        shows_lines(
            string_views(r@),
            spec_update_plan(
                match current {
                    Some(c) => Some(c@),
                    None => None,
                },
                use_build,
                match registry_version {
                    Some(v) => Some(v@),
                    None => None,
                },
            ),
        ),
{
    let target = update_target_text(use_build, registry_version);
    let lines: Vec<Vec<(&str, Option<Paint>)>> = vec![
        vec![("", None)],
        vec![("Warning:", Some(Paint::YellowBold)), (" This will briefly stop the service to apply the update.", None)],
        vec![
            ("Current:    ", None),
            (match current {
                Some(c) => c,
                None => "unknown",
            }, Some(Paint::Dim)),
        ],
        vec![("Target:     ", None), (target.as_str(), Some(Paint::Dim))],
        vec![("", None)],
    ];
    let r = render_lines(&lines);
    proof {
        reveal_strlit("");
    }
    assert(line_pieces(lines@) =~~= spec_update_plan(
        match current {
            Some(c) => Some(c@),
            None => None,
        },
        use_build,
        match registry_version {
            Some(v) => Some(v@),
            None => None,
        },
    ));
    r
}

/// The notice before confirming an update, that unused images are purged.
pub fn purge_notice_lines() -> (r: Vec<String>)
    ensures
        shows_lines(
            string_views(r@),
            seq![
                seq![("Notice:"@, Some(Paint::YellowBold)), (" Unused images and containers will be purged to save space."@, None)],
                seq![(Seq::<char>::empty(), None::<Paint>)],
            ],
        ),
{
    let lines: Vec<Vec<(&str, Option<Paint>)>> = vec![
        vec![("Notice:", Some(Paint::YellowBold)), (" Unused images and containers will be purged to save space.", None)],
        vec![("", None)],
    ];
    let r = render_lines(&lines);
    proof {
        reveal_strlit("");
    }
    assert(line_pieces(lines@) =~~= seq![
        seq![("Notice:"@, Some(Paint::YellowBold)), (" Unused images and containers will be purged to save space."@, None)],
        seq![(Seq::<char>::empty(), None::<Paint>)],
    ]);
    r
}

/// A verbose progress line: the step in cyan brackets, then what it does.
pub fn step_line(step: &str, text: &str) -> (s: String)
    ensures
        shows_pieces(s@, seq![(step@, Some(Paint::Cyan)), (" "@ + text@, None)]),
{
    let mut t = owned(" ");
    append(&mut t, text);
    let v: Vec<(&str, Option<Paint>)> = vec![(step, Some(Paint::Cyan)), (t.as_str(), None)];
    assert(piece_views(v@) =~~= seq![(step@, Some(Paint::Cyan)), (" "@ + text@, None)]);
    render(&v)
}

/// Whether `s` is a candidate's summary line, as `summary_line` makes it.
pub open spec fn summary_line_ok(s: Seq<char>, c: CandidateView) -> bool {
    &&& c.available ==> arrow_line(s, c)
    &&& !c.available && !c.selectable ==> candidate_line(s, c, " (unavailable)"@)
    &&& !c.available && c.selectable ==> candidate_line(s, c, " (up to date)"@)
}

/// Whether `s` is `note`, dimmed, after two spaces.
pub open spec fn indented_dim(s: Seq<char>, note: Seq<char>) -> bool {
    &&& s.len() >= 2
    &&& s.take(2) == "  "@
    &&& is_painted(s.skip(2), note, Paint::Dim)
}

/// The lines a candidate takes in the summary: its line, and its note if any.
pub open spec fn block_len(c: CandidateView) -> nat {
    if c.note is Some {
        2
    } else {
        1
    }
}

/// The lines the candidates take in the summary.
pub open spec fn blocks_len(cs: Seq<CandidateView>) -> nat
    decreases cs.len(),
{
    if cs.len() == 0 {
        0
    } else {
        blocks_len(cs.drop_last()) + block_len(cs.last())
    }
}

/// Whether the summary lines `r` hold candidate `i`'s block where it belongs.
pub open spec fn block_at(r: Seq<Seq<char>>, cs: Seq<CandidateView>, i: int) -> bool {
    let at = 3 + blocks_len(cs.take(i)) as int;
    &&& summary_line_ok(r[at], cs[i])
    &&& cs[i].note matches Some(n) ==> indented_dim(r[at + 1], n)
}

/// The update summary: a blank line, the bold title and a dim rule, then each
/// candidate's line with its note under it, and a blank line; nothing when quiet.
pub fn update_summary_lines(candidates: &Vec<UpdateCandidate>, quiet: bool) -> (r: Vec<String>)
    ensures
        quiet ==> r@.len() == 0,
        !quiet ==> {
            let rs = string_views(r@);
            let cs = candidate_views(candidates@);
            &&& rs.len() == 4 + blocks_len(cs)
            &&& rs[0] == Seq::<char>::empty()
            &&& is_painted(rs[1], "Update status"@, Paint::Bold)
            &&& is_painted(rs[2], "-------------"@, Paint::Dim)
            &&& forall|i: int| 0 <= i < cs.len() ==> #[trigger] block_at(rs, cs, i)
            &&& rs[rs.len() - 1] == Seq::<char>::empty()
        },
{
    let mut r: Vec<String> = Vec::new();
    if quiet {
        return r;
    }
    let ghost cs = candidate_views(candidates@);
    r.push(String::new());
    r.push(paint("Update status", Paint::Bold));
    r.push(paint("-------------", Paint::Dim));
    proof {
        reveal_strlit("");
        assert(cs.take(0) =~= Seq::<CandidateView>::empty());
    }
    let mut i: usize = 0;
    while i < candidates.len()
        invariant
            i <= candidates@.len(),
            cs == candidate_views(candidates@),
            string_views(r@).len() == 3 + blocks_len(cs.take(i as int)),
            string_views(r@)[0] == Seq::<char>::empty(),
            is_painted(string_views(r@)[1], "Update status"@, Paint::Bold),
            is_painted(string_views(r@)[2], "-------------"@, Paint::Dim),
            forall|k: int| 0 <= k < i ==> #[trigger] block_at(string_views(r@), cs, k),
        decreases candidates@.len() - i,
    {
        let ghost before = string_views(r@);
        let line = candidates[i].summary_line();
        r.push(line);
        let ghost mid = string_views(r@);
        proof {
            assert(mid =~= before.push(line@));
            assert(cs[i as int] == candidates@[i as int]@);
            assert(cs.take(i + 1).drop_last() =~= cs.take(i as int));
        }
        if let Some(note) = &candidates[i].note {
            let mut text = owned("  ");
            let d = paint(note.as_str(), Paint::Dim);
            append(&mut text, d.as_str());
            r.push(text);
            proof {
                reveal_strlit("  ");
                assert(text@.take(2) =~= "  "@);
                assert(text@.skip(2) =~= d@);
            }
        }
        proof {
            let after = string_views(r@);
            let at = 3 + blocks_len(cs.take(i as int)) as int;
            assert(after.len() == 3 + blocks_len(cs.take(i + 1)));
            assert forall|k: int| 0 <= k < i + 1 implies #[trigger] block_at(after, cs, k) by {
                if k < i {
                    assert(block_at(before, cs, k));
                    let atk = 3 + blocks_len(cs.take(k)) as int;
                    lemma_blocks_len_mono(cs, k, i as int);
                    assert(after[atk] == before[atk]);
                    if cs[k].note is Some {
                        assert(after[atk + 1] == before[atk + 1]);
                    }
                } else {
                    assert(after[at] == line@);
                }
            }
        }
        i = i + 1;
    }
    assert(cs.take(candidates@.len() as int) =~= cs);
    let ghost end_state = string_views(r@);
    r.push(String::new());
    proof {
        let fin = string_views(r@);
        assert(fin =~= end_state.push(Seq::<char>::empty()));
        assert forall|k: int| 0 <= k < cs.len() implies #[trigger] block_at(fin, cs, k) by {
            let atk = 3 + blocks_len(cs.take(k)) as int;
            lemma_blocks_len_mono(cs, k, cs.len() as int);
            assert(block_at(end_state, cs, k));
            assert(fin[atk] == end_state[atk]);
            if cs[k].note is Some {
                assert(fin[atk + 1] == end_state[atk + 1]);
            }
        }
    }
    r
}

/// A candidate's block lies within the blocks of the candidates up to `j`.
pub proof fn lemma_blocks_len_mono(cs: Seq<CandidateView>, k: int, j: int)
    requires
        0 <= k < j <= cs.len(),
    ensures
        blocks_len(cs.take(k)) + block_len(cs[k]) <= blocks_len(cs.take(j)),
    decreases j - k,
{
    assert(cs.take(k + 1).drop_last() =~= cs.take(k));
    if k + 1 < j {
        lemma_blocks_len_mono(cs, k + 1, j);
    }
}

/// Where the new image comes from, as announced before getting it.
pub open spec fn spec_image_source_notice(use_build: bool) -> Seq<Seq<Piece>> {
    if use_build {
        seq![
            seq![(Seq::empty(), None)],
            seq![("Info:"@, Some(Paint::Cyan)), (" Rebuilding image from source (per config.image_source=build)"@, None)],
            seq![("To use prebuilt images: occ config set image_source prebuilt"@, Some(Paint::Dim))],
            seq![(Seq::empty(), None)],
        ]
    } else {
        seq![
            seq![(Seq::empty(), None)],
            seq![("Info:"@, Some(Paint::Cyan)), (" Pulling prebuilt image (per config.image_source=prebuilt)"@, None)],
            seq![("To build from source: occ config set image_source build"@, Some(Paint::Dim))],
            seq![(Seq::empty(), None)],
        ]
    }
}

/// The notice on where the new image comes from.
pub fn image_source_notice_lines(use_build: bool) -> (r: Vec<String>)
    ensures
        shows_lines(string_views(r@), spec_image_source_notice(use_build)),
{
    let lines: Vec<Vec<(&str, Option<Paint>)>> = if use_build {
        vec![
            vec![("", None)],
            vec![("Info:", Some(Paint::Cyan)), (" Rebuilding image from source (per config.image_source=build)", None)],
            vec![("To use prebuilt images: occ config set image_source prebuilt", Some(Paint::Dim))],
            vec![("", None)],
        ]
    } else {
        vec![
            vec![("", None)],
            vec![("Info:", Some(Paint::Cyan)), (" Pulling prebuilt image (per config.image_source=prebuilt)", None)],
            vec![("To build from source: occ config set image_source build", Some(Paint::Dim))],
            vec![("", None)],
        ]
    };
    let r = render_lines(&lines);
    proof {
        reveal_strlit("");
    }
    assert(line_pieces(lines@) =~~= spec_image_source_notice(use_build));
    r
}

/// The version recorded for a pulled image: its own, else the CLI's.
pub fn prebuilt_state_version<'a>(target_version: Option<&'a str>, cli_version: &'a str) -> (s: &'a str)
    ensures
        s@ == (match target_version {
            Some(v) => v@,
            None => cli_version@,
        }),
{
    match target_version {
        Some(v) => v,
        None => cli_version,
    }
}

/// What is shown when an update or a rollback completed: that it did, and where the
/// service answers.
pub open spec fn spec_done_lines(rollback: bool, bind_addr: Seq<char>, port: u16) -> Seq<Seq<Piece>> {
    seq![
        seq![(Seq::empty(), None)],
        seq![
            ("Success:"@, Some(Paint::GreenBold)),
            (if rollback { " Rollback completed successfully!"@ } else { " Update completed successfully!"@ }, None),
        ],
        seq![(Seq::empty(), None)],
        seq![("URL:      "@, None), ("http://"@ + bind_addr + ":"@ + crate::text::spec_decimal(port as nat), Some(Paint::Cyan))],
        seq![(Seq::empty(), None)],
    ]
}

/// The lines after an update or a rollback completed.
pub fn done_lines(rollback: bool, bind_addr: &str, port: u16) -> (r: Vec<String>)
    ensures
        shows_lines(string_views(r@), spec_done_lines(rollback, bind_addr@, port)),
{
    let url = service_url(bind_addr, port);
    let lines: Vec<Vec<(&str, Option<Paint>)>> = vec![
        vec![("", None)],
        vec![
            ("Success:", Some(Paint::GreenBold)),
            (if rollback { " Rollback completed successfully!" } else { " Update completed successfully!" }, None),
        ],
        vec![("", None)],
        vec![("URL:      ", None), (url.as_str(), Some(Paint::Cyan))],
        vec![("", None)],
    ];
    let r = render_lines(&lines);
    proof {
        reveal_strlit("");
    }
    assert(line_pieces(lines@) =~~= spec_done_lines(rollback, bind_addr@, port));
    r
}

/// The warning before a rollback.
pub fn rollback_warning_lines() -> (r: Vec<String>)
    ensures
        shows_lines(
            string_views(r@),
            seq![
                seq![(Seq::<char>::empty(), None::<Paint>)],
                seq![
                    ("Warning:"@, Some(Paint::YellowBold)),
                    (" This will briefly stop the service to rollback to the previous version."@, None),
                ],
                seq![(Seq::<char>::empty(), None::<Paint>)],
            ],
        ),
{
    let lines: Vec<Vec<(&str, Option<Paint>)>> = vec![
        vec![("", None)],
        vec![("Warning:", Some(Paint::YellowBold)), (" This will briefly stop the service to rollback to the previous version.", None)],
        vec![("", None)],
    ];
    let r = render_lines(&lines);
    proof {
        reveal_strlit("");
    }
    assert(line_pieces(lines@) =~~= seq![
        seq![(Seq::<char>::empty(), None::<Paint>)],
        seq![
            ("Warning:"@, Some(Paint::YellowBold)),
            (" This will briefly stop the service to rollback to the previous version."@, None),
        ],
        seq![(Seq::<char>::empty(), None::<Paint>)],
    ]);
    r
}

/// The note when there is no container to stop before an update or a rollback.
pub fn container_not_found_note() -> (s: String)
    ensures
        shows_pieces(s@, seq![("Note:"@, Some(Paint::Yellow)), (" Container not found, skipping stop."@, None)]),
{
    let v: Vec<(&str, Option<Paint>)> = vec![("Note:", Some(Paint::Yellow)), (" Container not found, skipping stop.", None)];
    assert(piece_views(v@) =~~= seq![("Note:"@, Some(Paint::Yellow)), (" Container not found, skipping stop."@, None)]);
    render(&v)
}

/// The line on the space a purge reclaimed.
pub fn purge_reclaimed_line(reclaimed: i64) -> (s: String)
    ensures
        shows_pieces(
            s@,
            seq![
                ("Docker purge reclaimed: "@, None),
                (crate::disk_usage::spec_format_bytes_i64(reclaimed as int), Some(Paint::Dim)),
            ],
        ),
{
    let b = crate::disk_usage::format_bytes_i64(reclaimed);
    let v: Vec<(&str, Option<Paint>)> = vec![("Docker purge reclaimed: ", None), (b.as_str(), Some(Paint::Dim))];
    assert(piece_views(v@) =~~= seq![
        ("Docker purge reclaimed: "@, None),
        (crate::disk_usage::spec_format_bytes_i64(reclaimed as int), Some(Paint::Dim)),
    ]);
    render(&v)
}

/// What is said when a rollback is declined.
pub const ROLLBACK_CANCELLED: &'static str = "Rollback cancelled.";

/// The line saying the CLI is current.
pub fn cli_up_to_date_line(cli_label: &str, version: &str) -> (s: String)
    ensures
        shows_pieces(
            s@,
            seq![
                ("✓"@, Some(Paint::Green)),
                (" opencode-cloud "@ + cli_label@ + " is already up to date (version "@, None),
                (version@, Some(Paint::Dim)),
                (")."@, None),
            ],
        ),
{
    let mut t = owned(" opencode-cloud ");
    append(&mut t, cli_label);
    append(&mut t, " is already up to date (version ");
    let v: Vec<(&str, Option<Paint>)> = vec![("✓", Some(Paint::Green)), (t.as_str(), None), (version, Some(Paint::Dim)), (").", None)];
    assert(piece_views(v@) =~~= seq![
        ("✓"@, Some(Paint::Green)),
        (" opencode-cloud "@ + cli_label@ + " is already up to date (version "@, None),
        (version@, Some(Paint::Dim)),
        (")."@, None),
    ]);
    render(&v)
}

/// What is shown before updating the CLI: what happens, how it was installed, the
/// current and target versions, and, when only an older version fits the Rust
/// toolchain, how to update the toolchain.
pub open spec fn spec_cli_update_plan(
    cli_label: Seq<char>,
    install_label: Seq<char>,
    current: Seq<char>,
    target: Option<(Seq<char>, bool)>,
) -> Seq<Seq<Piece>> {
    let base = seq![
        seq![(Seq::empty(), None)],
        seq![
            ("Warning:"@, Some(Paint::YellowBold)),
            (" This will update the opencode-cloud "@ + cli_label + " and restart the service."@, None),
        ],
        seq![("Install:    "@, None), (install_label, Some(Paint::Dim))],
        seq![("Current:    "@, None), (current, Some(Paint::Dim))],
        seq![
            ("Target:     "@, None),
            (match target {
                Some(t) => "v"@ + t.0,
                None => "latest"@,
            }, Some(Paint::Dim)),
        ],
    ];
    let toolchain = if target matches Some(t) && t.1 {
        seq![
            seq![(Seq::empty(), None)],
            seq![("Warning:"@, Some(Paint::YellowBold)), (" Latest CLI requires a newer Rust toolchain."@, None)],
            seq![("  Run: "@, None), ("rustup update"@, Some(Paint::Dim))],
            seq![("  Then re-run: "@, None), ("occ update cli"@, Some(Paint::Dim))],
        ]
    } else {
        Seq::empty()
    };
    base + toolchain + seq![seq![(Seq::empty(), None)]]
}

/// The lines shown before updating the CLI.
pub fn cli_update_plan_lines(cli_label: &str, install_label: &str, current: &str, target: &Option<CliTargetVersion>) -> (r: Vec<String>)
    ensures
        shows_lines(
            string_views(r@),
            spec_cli_update_plan(
                cli_label@,
                install_label@,
                current@,
                match target {
                    Some(t) => Some((t.target@, t.compatible is Some)),
                    None => None,
                },
            ),
        ),
{
    let mut w = owned(" This will update the opencode-cloud ");
    append(&mut w, cli_label);
    append(&mut w, " and restart the service.");
    let mut tv = owned("v");
    let target_text: &str = match target {
        Some(t) => {
            append(&mut tv, t.target.as_str());
            tv.as_str()
        },
        None => "latest",
    };
    let mut lines: Vec<Vec<(&str, Option<Paint>)>> = vec![
        vec![("", None)],
        vec![("Warning:", Some(Paint::YellowBold)), (w.as_str(), None)],
        vec![("Install:    ", None), (install_label, Some(Paint::Dim))],
        vec![("Current:    ", None), (current, Some(Paint::Dim))],
        vec![("Target:     ", None), (target_text, Some(Paint::Dim))],
    ];
    let toolchain = match target {
        Some(t) => t.compatible.is_some(),
        None => false,
    };
    if toolchain {
        lines.push(vec![("", None)]);
        lines.push(vec![("Warning:", Some(Paint::YellowBold)), (" Latest CLI requires a newer Rust toolchain.", None)]);
        lines.push(vec![("  Run: ", None), ("rustup update", Some(Paint::Dim))]);
        lines.push(vec![("  Then re-run: ", None), ("occ update cli", Some(Paint::Dim))]);
    }
    lines.push(vec![("", None)]);
    let r = render_lines(&lines);
    proof {
        reveal_strlit("");
    }
    assert(line_pieces(lines@) =~~= spec_cli_update_plan(
        cli_label@,
        install_label@,
        current@,
        match target {
            Some(t) => Some((t.target@, t.compatible is Some)),
            None => None,
        },
    ));
    r
}

/// The question before updating the CLI.
pub fn cli_update_prompt(cli_label: &str) -> (s: String)
    ensures
        s@ == "Continue with opencode-cloud "@ + cli_label@ + " update?"@,
{
    let mut s = owned("Continue with opencode-cloud ");
    append(&mut s, cli_label);
    append(&mut s, " update?");
    s
}

/// The spinner texts of a CLI update: while it runs, and once it is done.
pub fn cli_update_spinner_texts(cli_label: &str) -> (r: (String, String))
    ensures
        r.0@ == "Updating opencode-cloud "@ + cli_label@ + "..."@,
        r.1@ == "opencode-cloud "@ + cli_label@ + " updated"@,
{
    let mut a = owned("Updating opencode-cloud ");
    append(&mut a, cli_label);
    append(&mut a, "...");
    let mut b = owned("opencode-cloud ");
    append(&mut b, cli_label);
    append(&mut b, " updated");
    (a, b)
}

/// What is shown after the CLI was updated.
pub fn cli_updated_lines(cli_label: &str) -> (r: Vec<String>)
    ensures
        shows_lines(
            string_views(r@),
            seq![
                seq![(Seq::<char>::empty(), None::<Paint>)],
                seq![
                    ("Success:"@, Some(Paint::GreenBold)),
                    (" opencode-cloud "@ + cli_label@ + " updated successfully!"@, None),
                ],
                seq![(Seq::<char>::empty(), None::<Paint>)],
            ],
        ),
{
    let mut t = owned(" opencode-cloud ");
    append(&mut t, cli_label);
    append(&mut t, " updated successfully!");
    let lines: Vec<Vec<(&str, Option<Paint>)>> = vec![
        vec![("", None)],
        vec![("Success:", Some(Paint::GreenBold)), (t.as_str(), None)],
        vec![("", None)],
    ];
    let r = render_lines(&lines);
    proof {
        reveal_strlit("");
    }
    assert(line_pieces(lines@) =~~= seq![
        seq![(Seq::<char>::empty(), None::<Paint>)],
        seq![("Success:"@, Some(Paint::GreenBold)), (" opencode-cloud "@ + cli_label@ + " updated successfully!"@, None)],
        seq![(Seq::<char>::empty(), None::<Paint>)],
    ]);
    r
}

/// What the selection says when there is nothing to update.
pub const EVERYTHING_UP_TO_DATE: &'static str = "Everything is already up to date.";

/// What the selection says when nothing was chosen.
pub const NO_UPDATES_SELECTED: &'static str = "No updates selected.";

/// What is said when an update is declined.
pub const UPDATE_CANCELLED: &'static str = "Update cancelled.";

/// The URL the service answers on.
pub fn service_url(bind_addr: &str, port: u16) -> (s: String)
    ensures
        s@ == "http://"@ + bind_addr@ + ":"@ + crate::text::spec_decimal(port as nat),
{
    let mut s = owned("http://");
    append(&mut s, bind_addr);
    append(&mut s, ":");
    crate::text::push_decimal(&mut s, port as u64);
    s
}

/// The container update needs the configuration and Docker.
pub fn container_update_precondition(config_present: bool, docker_available: bool) -> (r: Result<(), String>)
    ensures
        r is Ok <==> config_present && docker_available,
        r matches Err(e) ==> e@ == (if !config_present {
            "Failed to load config; cannot update container."@
        } else {
            "Docker is unavailable; cannot update container."@
        }),
{
    if !config_present {
        return Err(owned("Failed to load config; cannot update container."));
    }
    if !docker_available {
        return Err(owned("Docker is unavailable; cannot update container."));
    }
    Ok(())
}

/// Refused rollback: no previous image was kept.
pub const NO_PREVIOUS_IMAGE_MESSAGE: &'static str = "No previous image available for rollback.\nYou must update at least once before using --rollback.";

// ---------------------------------------------------------------------------
// Updating the CLI
// ---------------------------------------------------------------------------

/// Why a dev build does not update itself.
pub const DEV_BINARY_UPDATE_MESSAGE: &'static str = "You're running the dev build of opencode-cloud.\nNice try, but I can't update myself while I'm still in the lab!\nIf you meant to update a released install, use:\n  - cargo install opencode-cloud\n  - npm install -g opencode-cloud";

/// What to do when the install method is unknown.
pub const UNKNOWN_INSTALL_MESSAGE: &'static str = "Unable to detect how opencode-cloud was installed.\nTry one of the following:\n  - cargo install opencode-cloud\n  - npm install -g opencode-cloud\nIf you used another package manager, re-run its update command.";

/// The CLI is up to date when its package manager offers the running version.
pub fn cli_up_to_date(target: &Option<CliTargetVersion>, current: &str) -> (b: bool)
    ensures
        b == (match *target {
            Some(t) => t.target@ == current@,
            None => false,
        }),
{
    match target {
        Some(t) => crate::text::str_eq(t.target.as_str(), current),
        None => false,
    }
}


// ---------------------------------------------------------------------------
// Container image update steps
// ---------------------------------------------------------------------------

/// A step of the container image update.
#[derive(Debug, Clone, Copy, PartialEq, Eq, Structural)]
pub enum ImageUpdateStep {
    /// Tag the current image as the previous one, for rollback.
    Backup,
    /// Pull the prebuilt image.
    Pull,
    /// Stop when the pulled image is the one already in use.
    CheckUnchanged,
    /// Stop the service (when its container exists).
    Stop,
    /// Build the image from source.
    Build,
    /// Recreate and start the container.
    Recreate,
    /// Prune unused Docker resources.
    Purge,
}

/// The steps of an image update: with a prebuilt image the current one is backed
/// up, the new one pulled and compared before the service stops; when building,
/// the service stops first, then the current image is backed up and the new one
/// built; the container is recreated and unused resources pruned last.
pub open spec fn spec_image_update_steps(use_build: bool) -> Seq<ImageUpdateStep> {
    if use_build {
        seq![
            ImageUpdateStep::Stop,
            ImageUpdateStep::Backup,
            ImageUpdateStep::Build,
            ImageUpdateStep::Recreate,
            ImageUpdateStep::Purge,
        ]
    } else {
        seq![
            ImageUpdateStep::Backup,
            ImageUpdateStep::Pull,
            ImageUpdateStep::CheckUnchanged,
            ImageUpdateStep::Stop,
            ImageUpdateStep::Recreate,
            ImageUpdateStep::Purge,
        ]
    }
}

/// The steps of an image update.
pub fn image_update_steps(use_build: bool) -> (v: Vec<ImageUpdateStep>)
    ensures
        v@ == spec_image_update_steps(use_build),
{
    let v = if use_build {
        vec![
            ImageUpdateStep::Stop,
            ImageUpdateStep::Backup,
            ImageUpdateStep::Build,
            ImageUpdateStep::Recreate,
            ImageUpdateStep::Purge,
        ]
    } else {
        vec![
            ImageUpdateStep::Backup,
            ImageUpdateStep::Pull,
            ImageUpdateStep::CheckUnchanged,
            ImageUpdateStep::Stop,
            ImageUpdateStep::Recreate,
            ImageUpdateStep::Purge,
        ]
    };
    assert(v@ =~= spec_image_update_steps(use_build));
    v
}

/// How a step of the image update ended.
#[derive(Debug, Clone, PartialEq, Eq)]
pub enum StepOutcome {
    Done,
    /// The pulled image is the one in use.
    Unchanged,
    Failed(String),
}

/// What follows a step of the image update.
#[derive(Debug, Clone, PartialEq, Eq)]
pub enum UpdateFlow {
    /// Run the step at this index.
    Continue(usize),
    /// Stop: the image is already up to date.
    UpToDate,
    /// Stop with this error.
    Abort(String),
    /// Every step has run.
    Finished,
}

/// The error a failed update step ends the update with.
pub open spec fn spec_image_step_error(step: ImageUpdateStep, error: Seq<char>) -> Seq<char> {
    match step {
        ImageUpdateStep::Backup => "Failed to backup current image: "@ + error,
        ImageUpdateStep::Pull => "Failed to pull image: "@ + error,
        ImageUpdateStep::Stop => "Failed to stop service: "@ + error,
        ImageUpdateStep::Build => "Failed to build image: "@ + error,
        ImageUpdateStep::Recreate => "Failed to recreate container: "@ + error,
        _ => error,
    }
}

/// What follows step `index` of `steps` after it ended with `outcome`: a failure
/// ends the update with the step's error, an unchanged image after the comparison
/// ends it as up to date, and otherwise the next step runs until none is left.
pub fn image_update_next(steps: &Vec<ImageUpdateStep>, index: usize, outcome: StepOutcome) -> (f: UpdateFlow)
    requires
        index < steps@.len(),
    ensures
        match outcome {
            StepOutcome::Failed(e) => f matches UpdateFlow::Abort(m) && m@ == spec_image_step_error(
                steps@[index as int],
                e@,
            ),
            StepOutcome::Unchanged => if steps@[index as int] == ImageUpdateStep::CheckUnchanged {
                f == UpdateFlow::UpToDate
            } else if index + 1 < steps@.len() {
                f == UpdateFlow::Continue((index + 1) as usize)
            } else {
                f == UpdateFlow::Finished
            },
            StepOutcome::Done => if index + 1 < steps@.len() {
                f == UpdateFlow::Continue((index + 1) as usize)
            } else {
                f == UpdateFlow::Finished
            },
        },
{
    let step = steps[index];
    match outcome {
        StepOutcome::Failed(e) => {
            let prefix = match step {
                ImageUpdateStep::Backup => "Failed to backup current image: ",
                ImageUpdateStep::Pull => "Failed to pull image: ",
                ImageUpdateStep::Stop => "Failed to stop service: ",
                ImageUpdateStep::Build => "Failed to build image: ",
                ImageUpdateStep::Recreate => "Failed to recreate container: ",
                _ => "",
            };
            let mut m = owned(prefix);
            append(&mut m, e.as_str());
            proof {
                reveal_strlit("");
                assert(""@ + e@ =~= e@);
            }
            UpdateFlow::Abort(m)
        },
        StepOutcome::Unchanged if step == ImageUpdateStep::CheckUnchanged => UpdateFlow::UpToDate,
        _ => {
            if index < steps.len() - 1 {
                UpdateFlow::Continue(index + 1)
            } else {
                UpdateFlow::Finished
            }
        },
    }
}


/// How an image update begins: it ends before any change for a dev image, for an
/// image the registry has nothing newer than, or when the user declines; otherwise
/// it runs its steps.
#[derive(Debug, Clone, PartialEq, Eq)]
pub enum UpdateGate {
    /// Dev images are never updated.
    DevImage,
    /// The image is the registry's latest.
    AlreadyCurrent,
    /// The user answered no.
    Declined,
    /// The update runs these steps.
    Proceed(Vec<ImageUpdateStep>),
}

/// Which way an image update begins.
#[derive(Debug, Clone, Copy, PartialEq, Eq, Structural)]
pub enum GateKind {
    DevImage,
    AlreadyCurrent,
    Declined,
    Proceed,
}

/// The update ends before any step on a dev image; then, unless quiet or building,
/// on an image that is already the registry's latest; then, when asked, on a "no".
pub open spec fn spec_update_gate_kind(
    current: Option<Seq<char>>,
    registry_latest: Option<Seq<char>>,
    quiet: bool,
    use_build: bool,
    skip_confirm: bool,
    confirmed: bool,
) -> GateKind {
    if current == Some("dev"@) {
        GateKind::DevImage
    } else if !quiet && !use_build && current is Some && current == registry_latest {
        GateKind::AlreadyCurrent
    } else if !skip_confirm && !confirmed {
        GateKind::Declined
    } else {
        GateKind::Proceed
    }
}

/// How an image update begins, from the image's version, the registry's latest,
/// the flags and the user's answer (ignored when no question is asked). Only
/// `Proceed` carries steps: every other outcome leaves Docker and the image state
/// untouched.
pub fn update_gate(
    current: &Option<String>,
    registry_latest: &Option<String>,
    quiet: bool,
    use_build: bool,
    skip_confirm: bool,
    confirmed: bool,
) -> (g: UpdateGate)
    ensures
        ({
            let k = spec_update_gate_kind(
                opt_chars(*current),
                opt_chars(*registry_latest),
                quiet,
                use_build,
                skip_confirm,
                confirmed,
            );
            &&& (k == GateKind::DevImage <==> g == UpdateGate::DevImage)
            &&& (k == GateKind::AlreadyCurrent <==> g == UpdateGate::AlreadyCurrent)
            &&& (k == GateKind::Declined <==> g == UpdateGate::Declined)
            &&& (k == GateKind::Proceed <==> g is Proceed)
            &&& g matches UpdateGate::Proceed(steps) ==> steps@ == spec_image_update_steps(use_build)
        }),
{
    if is_dev_image(current) {
        return UpdateGate::DevImage;
    }
    if !quiet && !use_build && image_already_current(current, registry_latest) {
        return UpdateGate::AlreadyCurrent;
    }
    if !skip_confirm && !confirmed {
        return UpdateGate::Declined;
    }
    UpdateGate::Proceed(image_update_steps(use_build))
}

} // verus!
