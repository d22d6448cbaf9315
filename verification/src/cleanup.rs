//! Safety rules for destructive cleanup, the cleanup report, remote host detection
//! and how the CLI was installed.

use vstd::prelude::*;
use crate::text::{
    append, chars_of, contains_str, owned, spec_contains, spec_split_by, split_chars, str_eq,
    string_views, views, Separator, separator_pred,
};

verus! {

// ---------------------------------------------------------------------------
// Target host
// ---------------------------------------------------------------------------

/// The host a cleanup targets: the one named, else the configured default.
pub fn resolve_target_host_name(maybe_host: Option<&str>, default_host: Option<String>) -> (r: Option<String>)
    ensures
        match maybe_host {
            Some(n) => r matches Some(h) && h@ == n@,
            None => r == default_host,
        },
{
    match maybe_host {
        Some(name) => Some(owned(name)),
        None => default_host,
    }
}

/// A host is remote when a non-empty name other than `local` is targeted.
pub open spec fn spec_is_remote(name: Option<Seq<char>>) -> bool {
    match name {
        Some(n) => n.len() > 0 && n != "local"@,
        None => false,
    }
}

/// Whether the targeted host (named, else the configured default) is remote.
pub fn is_remote_host(maybe_host: Option<&str>, default_host: Option<String>) -> (b: bool)
    ensures
        b == spec_is_remote(
            match maybe_host {
                Some(n) => Some(n@),
                None => match default_host {
                    Some(d) => Some(d@),
                    None => None,
                },
            },
        ),
{
    match resolve_target_host_name(maybe_host, default_host) {
        Some(name) => name.unicode_len() > 0 && !str_eq(name.as_str(), "local"),
        None => false,
    }
}

// ---------------------------------------------------------------------------
// Safe paths
// ---------------------------------------------------------------------------

/// The named components of a path: its `/`-separated pieces other than empty ones
/// and `.`.
pub open spec fn path_parts(path: Seq<char>) -> Seq<Seq<char>> {
    spec_split_by(path, |c: char| c == '/').filter(|p: Seq<char>| p.len() > 0 && p != "."@)
}

/// A path has a normal component: a piece that is not `..`.
pub open spec fn has_normal_component(path: Seq<char>) -> bool {
    exists|i: int| 0 <= i < path_parts(path).len() && #[trigger] path_parts(path)[i] != ".."@
}

fn parts(path: &str) -> (r: Vec<Vec<char>>)
    ensures
        views(r@) == path_parts(path@),
{
    let pieces = split_chars(&chars_of(path), Separator::Char('/'));
    let ghost all = views(pieces@);
    proof {
        assert(separator_pred(Separator::Char('/')) == (|c: char| c == '/'));
    }
    let mut r: Vec<Vec<char>> = Vec::new();
    let mut i: usize = 0;
    while i < pieces.len()
        invariant
            i <= pieces@.len(),
            all == views(pieces@),
            all == spec_split_by(path@, |c: char| c == '/'),
            views(r@) == all.take(i as int).filter(|p: Seq<char>| p.len() > 0 && p != "."@),
        decreases pieces@.len() - i,
    {
        proof {
            reveal_with_fuel(Seq::filter, 1);
            assert(all.take(i + 1).drop_last() =~= all.take(i as int));
            assert(all[i as int] == pieces@[i as int]@);
        }
        if pieces[i].len() > 0 && !crate::text::eq_str(&pieces[i], ".") {
            let ghost before = views(r@);
            r.push(pieces[i].clone());
            assert(views(r@) =~= before.push(all[i as int]));
        }
        i = i + 1;
    }
    assert(all.take(pieces@.len() as int) =~= all);
    r
}

/// Whether a path names the filesystem root: it has no normal component.
pub fn is_root_path(path: &str) -> (b: bool)
    ensures
        b == !has_normal_component(path@),
{
    let ps = parts(path);
    let ghost pv = views(ps@);
    let mut i: usize = 0;
    while i < ps.len()
        invariant
            i <= ps@.len(),
            pv == views(ps@),
            pv == path_parts(path@),
            forall|j: int| 0 <= j < i ==> #[trigger] pv[j] == ".."@,
        decreases ps@.len() - i,
    {
        assert(pv[i as int] == ps@[i as int]@);
        if !crate::text::eq_str(&ps[i], "..") {
            return false;
        }
        i = i + 1;
    }
    true
}

/// Two absolute paths are the same path when their named components agree.
pub open spec fn same_absolute_path(a: Seq<char>, b: Seq<char>) -> bool {
    "/"@.is_prefix_of(a) && "/"@.is_prefix_of(b) && path_parts(a) == path_parts(b)
}

fn parts_equal(a: &Vec<Vec<char>>, b: &Vec<Vec<char>>) -> (r: bool)
    ensures
        r == (views(a@) == views(b@)),
{
    if a.len() != b.len() {
        return false;
    }
    let mut i: usize = 0;
    while i < a.len()
        invariant
            i <= a@.len(),
            a@.len() == b@.len(),
            forall|j: int| 0 <= j < i ==> #[trigger] views(a@)[j] == views(b@)[j],
        decreases a@.len() - i,
    {
        if !crate::text::seq_eq(&a[i], &b[i]) {
            assert(views(a@)[i as int] != views(b@)[i as int]);
            return false;
        }
        i = i + 1;
    }
    assert(views(a@) =~= views(b@));
    true
}

/// Why a path may not be cleaned: it is relative, the root, or the home directory.
pub open spec fn spec_unsafe_path(path: Seq<char>, home: Option<Seq<char>>) -> Option<Seq<char>> {
    if !"/"@.is_prefix_of(path) {
        Some("Path is not absolute"@)
    } else if !has_normal_component(path) {
        Some("Refusing to operate on filesystem root"@)
    } else if home is Some && same_absolute_path(path, home->0) {
        Some("Refusing to operate on home directory"@)
    } else {
        None
    }
}

/// Refuses to clean a relative path, the root or the home directory (`home` is the
/// canonical home directory, when known).
pub fn validate_safe_path(path: &str, home: Option<&str>) -> (r: Result<(), String>)
    ensures
        match spec_unsafe_path(
            path@,
            match home {
                Some(h) => Some(h@),
                None => None,
            },
        ) {
            None => r is Ok,
            Some(m) => r matches Err(e) && e@ == m,
        },
{
    let pc = chars_of(path);
    if !crate::text::starts_with(&pc, "/") {
        return Err(owned("Path is not absolute"));
    }
    if is_root_path(path) {
        return Err(owned("Refusing to operate on filesystem root"));
    }
    if let Some(h) = home {
        let hc = chars_of(h);
        if crate::text::starts_with(&hc, "/") && parts_equal(&parts(path), &parts(h)) {
            return Err(owned("Refusing to operate on home directory"));
        }
    }
    Ok(())
}

// ---------------------------------------------------------------------------
// Cleanup report
// ---------------------------------------------------------------------------

/// What cleaning the mount directories did: cleaned and purged directories, skipped
/// mounts and errors, each with its host path.
#[derive(Debug, Clone)]
pub struct MountCleanupResult {
    pub cleaned: Vec<String>,
    pub purged: Vec<String>,
    pub skipped: Vec<String>,
    pub errors: Vec<String>,
}

/// The outcome of cleaning one mount directory.
#[derive(Debug, Clone)]
pub enum CleanupOutcome {
    /// Its contents were removed; the canonical path.
    Cleaned(String),
    /// It was removed; the canonical path.
    Purged(String),
    /// It was left alone, for this reason.
    Skipped(String),
    /// It could not be cleaned, for this reason.
    Failed(String),
}

impl MountCleanupResult {
    /// Nothing done yet.
    pub fn new() -> (r: Self)
        ensures
            r.cleaned@.len() == 0 && r.purged@.len() == 0 && r.skipped@.len() == 0 && r.errors@.len() == 0,
    {
        MountCleanupResult { cleaned: Vec::new(), purged: Vec::new(), skipped: Vec::new(), errors: Vec::new() }
    }

    /// Whether some mount could not be cleaned.
    pub fn has_errors(&self) -> (b: bool)
        ensures
            b == (self.errors@.len() > 0),
    {
        self.errors.len() > 0
    }

    /// Records the outcome for the mount at `host_display`: skips and errors carry
    /// the host path and the reason.
    pub fn record(&mut self, host_display: &str, outcome: CleanupOutcome)
        ensures
            match outcome {
                CleanupOutcome::Cleaned(p) => string_views(final(self).cleaned@) == string_views(old(self).cleaned@).push(p@)
                    && final(self).purged@ == old(self).purged@ && final(self).skipped@ == old(self).skipped@
                    && final(self).errors@ == old(self).errors@,
                CleanupOutcome::Purged(p) => string_views(final(self).purged@) == string_views(old(self).purged@).push(p@)
                    && final(self).cleaned@ == old(self).cleaned@ && final(self).skipped@ == old(self).skipped@
                    && final(self).errors@ == old(self).errors@,
                CleanupOutcome::Skipped(why) => string_views(final(self).skipped@) == string_views(
                    old(self).skipped@,
                ).push(host_display@ + ": "@ + why@) && final(self).cleaned@ == old(self).cleaned@
                    && final(self).purged@ == old(self).purged@ && final(self).errors@ == old(self).errors@,
                CleanupOutcome::Failed(why) => string_views(final(self).errors@) == string_views(
                    old(self).errors@,
                ).push(host_display@ + ": "@ + why@) && final(self).cleaned@ == old(self).cleaned@
                    && final(self).purged@ == old(self).purged@ && final(self).skipped@ == old(self).skipped@,
            },
    {
        match outcome {
            CleanupOutcome::Cleaned(p) => {
                self.cleaned.push(p);
                assert(string_views(self.cleaned@) =~= string_views(old(self).cleaned@).push(p@));
            },
            CleanupOutcome::Purged(p) => {
                self.purged.push(p);
                assert(string_views(self.purged@) =~= string_views(old(self).purged@).push(p@));
            },
            CleanupOutcome::Skipped(why) => {
                let mut line = owned(host_display);
                append(&mut line, ": ");
                append(&mut line, why.as_str());
                self.skipped.push(line);
                assert(string_views(self.skipped@) =~= string_views(old(self).skipped@).push(
                    host_display@ + ": "@ + why@,
                ));
            },
            CleanupOutcome::Failed(why) => {
                let mut line = owned(host_display);
                append(&mut line, ": ");
                append(&mut line, why.as_str());
                self.errors.push(line);
                assert(string_views(self.errors@) =~= string_views(old(self).errors@).push(
                    host_display@ + ": "@ + why@,
                ));
            },
        }
    }
}

// ---------------------------------------------------------------------------
// How the CLI was installed
// ---------------------------------------------------------------------------

/// The package manager that installed the CLI.
#[derive(Debug, Clone, Copy, PartialEq, Eq, Structural)]
pub enum CliInstallMethod {
    Cargo,
    Npm,
}

impl CliInstallMethod {
    /// The install command of this package manager.
    pub fn label(&self) -> (s: &'static str)
        ensures
            s@ == (match *self {
                CliInstallMethod::Cargo => "cargo install"@,
                CliInstallMethod::Npm => "npm install -g"@,
            }),
    {
        match self {
            CliInstallMethod::Cargo => "cargo install",
            CliInstallMethod::Npm => "npm install -g",
        }
    }

    /// The program that updates the CLI.
    pub fn program(&self) -> (s: &'static str)
        ensures
            s@ == (match *self {
                CliInstallMethod::Cargo => "cargo"@,
                CliInstallMethod::Npm => "npm"@,
            }),
    {
        match self {
            CliInstallMethod::Cargo => "cargo",
            CliInstallMethod::Npm => "npm",
        }
    }

    /// The update command's arguments, pinned to `target` when given.
    pub fn update_args(&self, target: Option<&str>) -> (args: Vec<String>)
        ensures
            string_views(args@) == (match (*self, target) {
                (CliInstallMethod::Cargo, None) => seq!["install"@, "opencode-cloud"@],
                (CliInstallMethod::Cargo, Some(v)) => seq!["install"@, "opencode-cloud"@, "--version"@, v@],
                (CliInstallMethod::Npm, None) => seq!["install"@, "-g"@, "opencode-cloud"@],
                (CliInstallMethod::Npm, Some(v)) => seq!["install"@, "-g"@, "opencode-cloud@"@ + v@],
            }),
    {
        let mut args: Vec<String> = Vec::new();
        args.push(owned("install"));
        match self {
            CliInstallMethod::Cargo => {
                args.push(owned("opencode-cloud"));
                if let Some(v) = target {
                    args.push(owned("--version"));
                    args.push(owned(v));
                }
            },
            CliInstallMethod::Npm => {
                args.push(owned("-g"));
                match target {
                    Some(v) => {
                        let mut pinned = owned("opencode-cloud@");
                        append(&mut pinned, v);
                        args.push(pinned);
                    },
                    None => args.push(owned("opencode-cloud")),
                }
            },
        }
        assert(string_views(args@) =~= (match (*self, target) {
            (CliInstallMethod::Cargo, None) => seq!["install"@, "opencode-cloud"@],
            (CliInstallMethod::Cargo, Some(v)) => seq!["install"@, "opencode-cloud"@, "--version"@, v@],
            (CliInstallMethod::Npm, None) => seq!["install"@, "-g"@, "opencode-cloud"@],
            (CliInstallMethod::Npm, Some(v)) => seq!["install"@, "-g"@, "opencode-cloud@"@ + v@],
        }));
        args
    }
}

/// The install method read from the executable's path: inside `node_modules` or an
/// `@opencode-cloud` package it is npm; under `.cargo` or `cargo/bin`, cargo.
pub open spec fn spec_install_method(exe: Seq<char>) -> Option<CliInstallMethod> {
    if spec_contains(exe, "node_modules"@) || spec_contains(exe, "@opencode-cloud"@) {
        Some(CliInstallMethod::Npm)
    } else if spec_contains(exe, ".cargo"@) || spec_contains(exe, "cargo/bin"@) {
        Some(CliInstallMethod::Cargo)
    } else {
        None
    }
}

/// The install method of the executable at `exe_path`.
pub fn install_method_from_path(exe_path: &str) -> (r: Option<CliInstallMethod>)
    ensures
        r == spec_install_method(exe_path@),
{
    let c = chars_of(exe_path);
    if contains_str(&c, "node_modules") || contains_str(&c, "@opencode-cloud") {
        return Some(CliInstallMethod::Npm);
    }
    if contains_str(&c, ".cargo") || contains_str(&c, "cargo/bin") {
        return Some(CliInstallMethod::Cargo);
    }
    None
}

/// A debug build from the source tree.
pub fn is_dev_binary_path(exe_path: &str) -> (b: bool)
    ensures
        b == spec_contains(exe_path@, "/target/debug/"@),
{
    contains_str(&chars_of(exe_path), "/target/debug/")
}

/// How the CLI calls itself: a dev build or a cargo install is the Rust CLI, an npm
/// install the Node.js CLI.
pub fn cli_platform_label_from(dev_binary: bool, method: Option<CliInstallMethod>) -> (s: &'static str)
    ensures
        s@ == (if dev_binary {
            "Rust CLI"@
        } else {
            match method {
                Some(CliInstallMethod::Cargo) => "Rust CLI"@,
                Some(CliInstallMethod::Npm) => "Node.js CLI"@,
                None => "CLI"@,
            }
        }),
{
    if dev_binary {
        return "Rust CLI";
    }
    match method {
        Some(CliInstallMethod::Cargo) => "Rust CLI",
        Some(CliInstallMethod::Npm) => "Node.js CLI",
        None => "CLI",
    }
}

} // verus!
