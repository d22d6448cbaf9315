//! `occ host`: the arguments of adding and removing remote hosts, when each is
//! refused, and what is shown on the way.

use vstd::prelude::*;
use crate::style::{piece_views, render, shows_pieces, Paint, Piece};
use crate::text::{append, owned};

verus! {

/// Arguments of `occ host add`.
#[derive(Debug, Clone)]
pub struct HostAddArgs {
    /// Name to identify this host (e.g. "prod-1", "staging").
    pub name: String,
    /// SSH hostname or IP address.
    pub hostname: String,
    /// SSH username (default: current user).
    pub user: Option<String>,
    /// SSH port (default: 22).
    pub port: Option<u16>,
    /// Path to the SSH identity file (private key).
    pub identity_file: Option<String>,
    /// Jump host for ProxyJump (`user@host:port`).
    pub jump_host: Option<String>,
    /// Groups or tags, any number of them.
    pub group: Vec<String>,
    /// Description of this host.
    pub description: Option<String>,
    /// Skip connection verification (`--no-verify`).
    pub skip_verify: bool,
    /// Overwrite a host of the same name.
    pub force: bool,
}

/// Arguments of `occ host remove`.
#[derive(Debug, Clone)]
pub struct HostRemoveArgs {
    /// Name of the host to remove.
    pub name: String,
    /// Skip the confirmation prompt.
    pub force: bool,
}

/// The `occ host` subcommands.
#[derive(Debug, Clone)]
pub enum HostCommands {
    /// Add a new remote host.
    Add(HostAddArgs),
    /// Remove a remote host.
    Remove(HostRemoveArgs),
}

/// Arguments of `occ host`.
#[derive(Debug, Clone)]
pub struct HostArgs {
    pub command: HostCommands,
}

/// The refusal of adding a host whose name is taken.
pub open spec fn spec_host_exists_error(name: Seq<char>) -> Seq<char> {
    "Host '"@ + name + "' already exists. Use --force to overwrite, or choose a different name."@
}

/// Adding a host under a name already in use needs `--force`.
pub fn check_host_add(args: &HostAddArgs, known: bool) -> (r: Result<(), String>)
    ensures
        r is Ok <==> (!known || args.force),
        r matches Err(e) ==> e@ == spec_host_exists_error(args.name@),
{
    if known && !args.force {
        let mut e = owned("Host '");
        append(&mut e, args.name.as_str());
        append(&mut e, "' already exists. Use --force to overwrite, or choose a different name.");
        return Err(e);
    }
    Ok(())
}

/// The refusal after a failed connection test.
pub const CONNECTION_VERIFICATION_FAILED: &'static str = "Connection verification failed";

/// The spinner text while the connection is tested.
pub fn testing_connection_message(hostname: &str) -> (s: String)
    ensures
        s@ == "Testing connection to "@ + hostname@ + "..."@,
{
    let mut s = owned("Testing connection to ");
    append(&mut s, hostname);
    append(&mut s, "...");
    s
}

/// The pieces of the message of a successful connection test.
pub open spec fn spec_connected_pieces(docker_version: Seq<char>) -> Seq<Piece> {
    seq![("✓"@, Some(Paint::Green)), (" Connected (Docker "@, None), (docker_version, None), (")"@, None)]
}

/// The spinner's last word on a successful connection test.
pub fn connected_message(docker_version: &str) -> (s: String)
    ensures
        shows_pieces(s@, spec_connected_pieces(docker_version@)),
{
    let v: Vec<(&str, Option<Paint>)> = vec![
        ("✓", Some(Paint::Green)),
        (" Connected (Docker ", None),
        (docker_version, None),
        (")", None),
    ];
    assert(piece_views(v@) =~= spec_connected_pieces(docker_version@));
    render(&v)
}

/// The pieces of the message of a failed connection test.
pub open spec fn spec_connection_failed_pieces() -> Seq<Piece> {
    seq![("✗"@, Some(Paint::Red)), (" Connection failed"@, None)]
}

/// The spinner's last word on a failed connection test.
pub fn connection_failed_message() -> (s: String)
    ensures
        shows_pieces(s@, spec_connection_failed_pieces()),
{
    let v: Vec<(&str, Option<Paint>)> = vec![("✗", Some(Paint::Red)), (" Connection failed", None)];
    assert(piece_views(v@) =~= spec_connection_failed_pieces());
    render(&v)
}

/// The pieces of the hint shown after a failed connection test.
pub open spec fn spec_no_verify_tip_pieces() -> Seq<Piece> {
    seq![
        ("  "@, None),
        ("Tip:"@, Some(Paint::Cyan)),
        (" Use "@, None),
        ("--no-verify"@, Some(Paint::Yellow)),
        (" to add the host anyway."@, None),
    ]
}

/// The hint shown after a failed connection test.
pub fn no_verify_tip() -> (s: String)
    ensures
        shows_pieces(s@, spec_no_verify_tip_pieces()),
{
    let v: Vec<(&str, Option<Paint>)> = vec![
        ("  ", None),
        ("Tip:", Some(Paint::Cyan)),
        (" Use ", None),
        ("--no-verify", Some(Paint::Yellow)),
        (" to add the host anyway.", None),
    ];
    assert(piece_views(v@) =~= spec_no_verify_tip_pieces());
    render(&v)
}

/// The pieces of the message after a host is saved: updated when it replaced one
/// of the same name, added otherwise.
pub open spec fn spec_host_saved_pieces(name: Seq<char>, hostname: Seq<char>, overwrite: bool) -> Seq<Piece> {
    if overwrite {
        seq![
            ("Updated:"@, Some(Paint::Yellow)),
            (" Host '"@, None),
            (name, Some(Paint::Cyan)),
            ("' updated ("@, None),
            (hostname, None),
            (")."@, None),
        ]
    } else {
        seq![
            ("Added:"@, Some(Paint::Green)),
            (" Host '"@, None),
            (name, Some(Paint::Cyan)),
            ("' added ("@, None),
            (hostname, None),
            (")."@, None),
        ]
    }
}

/// The message after a host is saved.
pub fn host_saved_message(name: &str, hostname: &str, overwrite: bool) -> (s: String)
    ensures
        shows_pieces(s@, spec_host_saved_pieces(name@, hostname@, overwrite)),
{
    let v: Vec<(&str, Option<Paint>)> = if overwrite {
        vec![
            ("Updated:", Some(Paint::Yellow)),
            (" Host '", None),
            (name, Some(Paint::Cyan)),
            ("' updated (", None),
            (hostname, None),
            (").", None),
        ]
    } else {
        vec![
            ("Added:", Some(Paint::Green)),
            (" Host '", None),
            (name, Some(Paint::Cyan)),
            ("' added (", None),
            (hostname, None),
            (").", None),
        ]
    };
    assert(piece_views(v@) =~= spec_host_saved_pieces(name@, hostname@, overwrite));
    render(&v)
}

/// The pieces of the note on a host added without a connection test.
pub open spec fn spec_unverified_note_pieces(name: Seq<char>) -> Seq<Piece> {
    seq![
        ("  "@, None),
        ("Note:"@, Some(Paint::Dim)),
        (" Connection not verified. Run "@, None),
        ("occ host test "@ + name, Some(Paint::Yellow)),
        (" to test."@, None),
    ]
}

/// The note on a host added without a connection test.
pub fn unverified_note(name: &str) -> (s: String)
    ensures
        shows_pieces(s@, spec_unverified_note_pieces(name@)),
{
    let mut command = owned("occ host test ");
    append(&mut command, name);
    let v: Vec<(&str, Option<Paint>)> = vec![
        ("  ", None),
        ("Note:", Some(Paint::Dim)),
        (" Connection not verified. Run ", None),
        (command.as_str(), Some(Paint::Yellow)),
        (" to test.", None),
    ];
    assert(piece_views(v@) =~= spec_unverified_note_pieces(name@));
    render(&v)
}

/// Removing a host needs it to exist.
pub fn check_host_remove(args: &HostRemoveArgs, known: bool) -> (r: Result<(), String>)
    ensures
        r is Ok <==> known,
        r matches Err(e) ==> e@ == "Host '"@ + args.name@ + "' not found."@,
{
    if !known {
        let mut e = owned("Host '");
        append(&mut e, args.name.as_str());
        append(&mut e, "' not found.");
        return Err(e);
    }
    Ok(())
}

/// The pieces of the question asked before a host is removed.
pub open spec fn spec_remove_prompt_pieces(name: Seq<char>, is_default: bool) -> Seq<Piece> {
    seq![
        ("Remove host '"@, None),
        (name, Some(Paint::Cyan)),
        (if is_default { "' (currently the default)?"@ } else { "'?"@ }, None),
    ]
}

/// The question asked before a host is removed, unless `--force` or quiet mode
/// skips it; the default host is named as such.
pub fn remove_prompt(args: &HostRemoveArgs, quiet: bool, is_default: bool) -> (r: Option<String>)
    ensures
        r is None <==> (args.force || quiet),
        r matches Some(s) ==> shows_pieces(s@, spec_remove_prompt_pieces(args.name@, is_default)),
{
    if args.force || quiet {
        return None;
    }
    let v: Vec<(&str, Option<Paint>)> = vec![
        ("Remove host '", None),
        (args.name.as_str(), Some(Paint::Cyan)),
        (if is_default { "' (currently the default)?" } else { "'?" }, None),
    ];
    assert(piece_views(v@) =~= spec_remove_prompt_pieces(args.name@, is_default));
    Some(render(&v))
}

/// The pieces of the message after a host is removed.
pub open spec fn spec_host_removed_pieces(name: Seq<char>) -> Seq<Piece> {
    seq![("Removed:"@, Some(Paint::Yellow)), (" Host '"@, None), (name, Some(Paint::Cyan)), ("' removed."@, None)]
}

/// The message after a host is removed.
pub fn host_removed_message(name: &str) -> (s: String)
    ensures
        shows_pieces(s@, spec_host_removed_pieces(name@)),
{
    let v: Vec<(&str, Option<Paint>)> = vec![
        ("Removed:", Some(Paint::Yellow)),
        (" Host '", None),
        (name, Some(Paint::Cyan)),
        ("' removed.", None),
    ];
    assert(piece_views(v@) =~= spec_host_removed_pieces(name@));
    render(&v)
}

} // verus!
