//! Container users: name rules, account listings, lock state, persisted records and
//! generated passwords.

use vstd::prelude::*;
use rand::{Rng, SeedableRng};
use crate::style::{piece_views, render, shows_pieces, Paint, Piece};
use crate::status_view::{plain_line, push_plain, push_rendered, shows_lines};
use crate::text::{
    push_signed_decimal, spec_signed_decimal,
    append, chars_of, eq_str, is_alphanumeric, is_ascii_alphanumeric, lines, owned,
    parse_unsigned, spec_is_alphanumeric, spec_lines, spec_parse_unsigned, spec_split_by,
    spec_trim, spec_words, split_chars, string_of, string_views, trim, views, words, Separator,
    separator_pred,
};

verus! {

/// Arguments of `user add`.
#[derive(Debug, Clone)]
pub struct UserAddArgs {
    /// Username to create (prompted for, with `opencode` as default, when absent).
    pub username: Option<String>,
    /// Generate a random password instead of prompting.
    pub generate: bool,
    /// Print only the generated password, for scripting.
    pub print_password_only: bool,
}

/// Arguments of `user passwd`.
#[derive(Debug, Clone)]
pub struct UserPasswdArgs {
    /// Username whose password changes.
    pub username: String,
    /// Generate a random password instead of prompting.
    pub generate: bool,
    /// Print only the generated password, for scripting.
    pub print_password_only: bool,
}

/// Printing only the password makes sense only for a generated one.
pub fn check_password_flags(generate: bool, print_password_only: bool) -> (r: Result<(), String>)
    ensures
        r is Err <==> (print_password_only && !generate),
        r matches Err(e) ==> e@ == "--print-password-only requires --generate"@,
{
    if print_password_only && !generate {
        return Err(owned("--print-password-only requires --generate"));
    }
    Ok(())
}

/// Every character is a letter, a digit or an underscore.
pub open spec fn username_chars_ok(name: Seq<char>) -> bool {
    forall|i: int| 0 <= i < name.len() ==> spec_is_alphanumeric(#[trigger] name[i]) || name[i] == '_'
}

/// Why a username is refused, checked in this order.
pub open spec fn spec_username_error(name: Seq<char>) -> Option<Seq<char>> {
    let len = name.len();
    if len == 0 {
        Some("Username cannot be empty"@)
    } else if len < 3 {
        Some("Username must be at least 3 characters"@)
    } else if len > 32 {
        Some("Username must be at most 32 characters"@)
    } else if !username_chars_ok(name) {
        Some("Username must contain only letters, numbers, and underscores"@)
    } else {
        None
    }
}

/// Checks a username: 3 to 32 characters, each a letter, a digit or an underscore.
pub fn validate_username(username: &str) -> (r: Result<(), String>)
    ensures
        match spec_username_error(username@) {
            None => r is Ok,
            Some(msg) => r matches Err(e) && e@ == msg,
        },
{
    let len = username.unicode_len();
    if len == 0 {
        return Err(owned("Username cannot be empty"));
    }
    if len < 3 {
        return Err(owned("Username must be at least 3 characters"));
    }
    if len > 32 {
        return Err(owned("Username must be at most 32 characters"));
    }
    let cs = chars_of(username);
    let mut i: usize = 0;
    while i < cs.len()
        invariant
            i <= cs@.len(),
            cs@ == username@,
            3 <= username@.len() <= 32,
            forall|j: int| 0 <= j < i ==> spec_is_alphanumeric(#[trigger] cs@[j]) || cs@[j] == '_',
        decreases cs@.len() - i,
    {
        let c = cs[i];
        if !(is_alphanumeric(c) || c == '_') {
            assert(!username_chars_ok(username@));
            return Err(owned("Username must contain only letters, numbers, and underscores"));
        }
        i = i + 1;
    }
    Ok(())
}

/// A user account from a `passwd` database line.
#[derive(Debug, Clone)]
pub struct ParsedUser {
    pub username: String,
    pub uid: u32,
    pub home: String,
    pub shell: String,
}

/// The fields of a `passwd` line.
pub open spec fn passwd_fields(line: Seq<char>) -> Seq<Seq<char>> {
    spec_split_by(line, |c: char| c == ':')
}

/// A `passwd` line parses when it has at least seven `:`-separated fields and a
/// numeric user id in the third.
pub open spec fn spec_parse_passwd_line(line: Seq<char>) -> Option<(Seq<char>, nat, Seq<char>, Seq<char>)> {
    let f = passwd_fields(line);
    if f.len() < 7 {
        None
    } else {
        match spec_parse_unsigned(f[2], u32::MAX as nat) {
            None => None,
            Some(uid) => Some((f[0], uid, f[5], f[6])),
        }
    }
}

/// Parses a `passwd` database line: name, user id, home and shell.
pub fn parse_passwd_line(line: &str) -> (r: Option<ParsedUser>)
    ensures
        r matches Some(u) ==> spec_parse_passwd_line(line@) == Some(
            (u.username@, u.uid as nat, u.home@, u.shell@),
        ),
        r is None ==> spec_parse_passwd_line(line@) is None,
{
    let fields = split_chars(&chars_of(line), Separator::Char(':'));
    proof {
        assert(separator_pred(Separator::Char(':')) == (|c: char| c == ':'));
    }
    if fields.len() < 7 {
        return None;
    }
    let uid = match parse_unsigned(&fields[2], 4294967295u64) {
        Some(v) => v,
        None => return None,
    };
    proof {
        assert(views(fields@)[2] == fields@[2]@);
    }
    let username = string_of(&fields[0]);
    let home = string_of(&fields[5]);
    let shell = string_of(&fields[6]);
    assert(views(fields@)[0] == fields@[0]@);
    assert(views(fields@)[5] == fields@[5]@);
    assert(views(fields@)[6] == fields@[6]@);
    Some(ParsedUser { username, uid: uid as u32, home, shell })
}

/// `passwd -S` reports a locked account with `L` as its second word.
pub open spec fn spec_status_locked(output: Seq<char>) -> bool {
    let parts = spec_words(output);
    parts.len() >= 2 && parts[1] == "L"@
}

/// Whether `passwd -S` output reports the account as locked.
pub fn passwd_status_locked(output: &str) -> (b: bool)
    ensures
        b == spec_status_locked(output@),
{
    let parts = words(&chars_of(output));
    if parts.len() >= 2 {
        assert(views(parts@)[1] == parts@[1]@);
        eq_str(&parts[1], "L")
    } else {
        false
    }
}

/// The password hash in `getent shadow` output: the second `:`-field of its first
/// line, trimmed.
pub open spec fn spec_shadow_hash(output: Seq<char>) -> Option<Seq<char>> {
    let ls = spec_lines(output);
    let line = if ls.len() > 0 {
        spec_trim(ls[0])
    } else {
        Seq::<char>::empty()
    };
    let fields = spec_split_by(line, |c: char| c == ':');
    if line.len() == 0 || fields.len() < 2 {
        None
    } else {
        Some(fields[1])
    }
}

/// The password hash of `username` from its `getent shadow` output.
pub fn parse_shadow_hash(output: &str, username: &str) -> (r: Result<String, String>)
    ensures
        r matches Ok(h) ==> spec_shadow_hash(output@) == Some(h@),
        r matches Err(e) ==> spec_shadow_hash(output@) is None && (e@ == "Failed to read shadow entry for '"@
            + username@ + "'"@ || e@ == "Invalid shadow entry for '"@ + username@ + "'"@),
        r matches Err(e) ==> (e@ == "Failed to read shadow entry for '"@ + username@ + "'"@ <==> {
            let ls = spec_lines(output@);
            (if ls.len() > 0 { spec_trim(ls[0]) } else { Seq::<char>::empty() }).len() == 0
        }),
{
    let ls = lines(&chars_of(output));
    let line = if ls.len() > 0 {
        trim(&ls[0])
    } else {
        Vec::new()
    };
    proof {
        if ls@.len() > 0 {
            assert(views(ls@)[0] == ls@[0]@);
        }
    }
    if line.len() == 0 {
        let mut e = owned("Failed to read shadow entry for '");
        append(&mut e, username);
        append(&mut e, "'");
        return Err(e);
    }
    let fields = split_chars(&line, Separator::Char(':'));
    proof {
        assert(separator_pred(Separator::Char(':')) == (|c: char| c == ':'));
    }
    if fields.len() < 2 {
        let mut e = owned("Invalid shadow entry for '");
        append(&mut e, username);
        append(&mut e, "'");
        proof {
            reveal_strlit("Invalid shadow entry for '");
            reveal_strlit("Failed to read shadow entry for '");
            assert(e@[0] != ("Failed to read shadow entry for '"@ + username@ + "'"@)[0]);
        }
        return Err(e);
    }
    assert(views(fields@)[1] == fields@[1]@);
    Ok(string_of(&fields[1]))
}

/// Where a user's record is kept: `<dir>/<username>.json`.
pub fn user_record_path(store_dir: &str, username: &str) -> (p: String)
    ensures
        p@ == store_dir@ + "/"@ + username@ + ".json"@,
{
    let mut p = owned(store_dir);
    append(&mut p, "/");
    append(&mut p, username);
    append(&mut p, ".json");
    p
}

/// What `chpasswd` reads to set a password: `username:password` and a line ending.
pub fn chpasswd_input(username: &str, password: &str) -> (s: String)
    ensures
        s@ == username@ + ":"@ + password@ + "\n"@,
{
    let mut s = owned(username);
    append(&mut s, ":");
    append(&mut s, password);
    append(&mut s, "\n");
    s
}

/// The configured users with `username` added at the end, or `None` when it is
/// already there.
pub fn with_user(users: &Vec<String>, username: &str) -> (r: Option<Vec<String>>)
    ensures
        r is None <==> string_views(users@).contains(username@),
        r matches Some(v) ==> string_views(v@) == string_views(users@).push(username@),
{
    let mut i: usize = 0;
    while i < users.len()
        invariant
            i <= users@.len(),
            forall|j: int| 0 <= j < i ==> string_views(users@)[j] != username@,
        decreases users@.len() - i,
    {
        if crate::text::str_eq(users[i].as_str(), username) {
            assert(string_views(users@)[i as int] == username@);
            return None;
        }
        i = i + 1;
    }
    let mut v = users.clone();
    assert(v@ == users@);
    v.push(owned(username));
    assert(string_views(v@) =~= string_views(users@).push(username@));
    Some(v)
}

// ---------------------------------------------------------------------------
// Generated passwords
// ---------------------------------------------------------------------------

/// Length of a generated password unless configured otherwise.
pub const DEFAULT_PASSWORD_LENGTH: usize = 30;

/// Shortest configurable password length.
pub const MIN_PASSWORD_LENGTH: usize = 12;

/// Longest configurable password length.
pub const MAX_PASSWORD_LENGTH: usize = 128;

/// The password length from the `OPENCODE_PASSWORD_LENGTH` setting: a number from
/// 12 to 128, else the default of 30.
pub open spec fn spec_password_length(setting: Option<Seq<char>>) -> nat {
    match setting {
        Some(s) => match spec_parse_unsigned(s, usize::MAX as nat) {
            Some(n) => if 12 <= n <= 128 {
                n
            } else {
                30
            },
            None => 30,
        },
        None => 30,
    }
}

/// The password length for a setting's value (`None` where it is not set).
pub fn password_length_from(setting: Option<&str>) -> (n: usize)
    ensures
        n == spec_password_length(
            match setting {
                Some(s) => Some(s@),
                None => None,
            },
        ),
{
    match setting {
        Some(s) => match parse_unsigned(&chars_of(s), usize::MAX as u64) {
            Some(n) => if 12 <= n && n <= 128 {
                n as usize
            } else {
                DEFAULT_PASSWORD_LENGTH
            },
            None => DEFAULT_PASSWORD_LENGTH,
        },
        None => DEFAULT_PASSWORD_LENGTH,
    }
}

/// `length` characters drawn from `A-Z`, `a-z` and `0-9` by `rand`'s `StdRng`, seeded
/// from the operating system with `SeedableRng::try_from_rng(&mut OsRng)`, through
/// `sample_iter(Alphanumeric)`. `None` when the operating system's random source
/// fails. The contract states the length and the alphabet, which the source of
/// `Alphanumeric` fixes; which characters come out is chance, and is not stated.
#[verifier::external_body]
fn sample_alphanumeric(length: usize) -> (r: Option<String>)
    ensures
        r matches Some(s) ==> s@.len() == length && forall|i: int|
            0 <= i < s@.len() ==> is_ascii_alphanumeric(#[trigger] s@[i]),
{
    let mut rng = rand::rngs::StdRng::try_from_rng(&mut rand::rngs::OsRng).ok()?;
    Some(rng.sample_iter(rand::distr::Alphanumeric).take(length).map(char::from).collect())
}

/// The error when no password can be generated.
pub const RANDOM_SOURCE_FAILED: &'static str = "Failed to read the operating system's random source";

/// A random password of `length` ASCII letters and digits, from a cryptographically
/// secure generator seeded by the operating system; an error when the operating
/// system gives no random data.
pub fn generate_random_password(length: usize) -> (r: Result<String, String>)
    ensures
        r matches Ok(s) ==> s@.len() == length && forall|i: int|
            0 <= i < s@.len() ==> is_ascii_alphanumeric(#[trigger] s@[i]),
        r matches Err(e) ==> e@ == RANDOM_SOURCE_FAILED@,
{
    match sample_alphanumeric(length) {
        Some(s) => Ok(s),
        None => Err(owned(RANDOM_SOURCE_FAILED)),
    }
}

// ---------------------------------------------------------------------------
// Account management in the container
// ---------------------------------------------------------------------------

/// The account the container needs; it is never removed.
pub const PROTECTED_USER: &'static str = "opencode";

/// The refusal of removing the protected account.
pub const PROTECTED_USER_MESSAGE: &'static str = "Cannot remove 'opencode' - this is a protected system user required for the container to function.\n\nTo manage authentication users, use:\n  occ user add <username>\n  occ user remove <username>";

/// The protected account cannot be removed.
pub fn check_not_protected(username: &str) -> (r: Result<(), String>)
    ensures
        r is Ok <==> username@ != PROTECTED_USER@,
        r matches Err(e) ==> e@ == PROTECTED_USER_MESSAGE@,
{
    if crate::text::str_eq(username, PROTECTED_USER) {
        return Err(owned(PROTECTED_USER_MESSAGE));
    }
    Ok(())
}

/// An account must exist to be changed.
pub fn check_user_known(username: &str, known: bool) -> (r: Result<(), String>)
    ensures
        r is Ok <==> known,
        r matches Err(e) ==> e@ == "User '"@ + username@ + "' does not exist in the container"@,
{
    if !known {
        let mut e = owned("User '");
        append(&mut e, username);
        append(&mut e, "' does not exist in the container");
        return Err(e);
    }
    Ok(())
}

/// A new account needs a free name.
pub fn check_user_new(username: &str, known: bool) -> (r: Result<(), String>)
    ensures
        r is Ok <==> !known,
        r matches Err(e) ==> e@ == "User '"@ + username@ + "' already exists in the container"@,
{
    if known {
        let mut e = owned("User '");
        append(&mut e, username);
        append(&mut e, "' already exists in the container");
        return Err(e);
    }
    Ok(())
}

/// The refusal of removing the last account.
pub open spec fn spec_last_user_message(username: Seq<char>) -> Seq<char> {
    "Cannot remove last user. Add another user first or use --force.\n\nTo add a new user:\n  occ user add <username>\n\nTo force removal:\n  occ user remove "@
        + username + " --force"@
}

/// The last account goes only with `--force`.
pub fn check_not_last_user(username: &str, user_count: usize, force: bool) -> (r: Result<(), String>)
    ensures
        r is Ok <==> (user_count != 1 || force),
        r matches Err(e) ==> e@ == spec_last_user_message(username@),
{
    if user_count == 1 && !force {
        let mut e = owned(
            "Cannot remove last user. Add another user first or use --force.\n\nTo add a new user:\n  occ user add <username>\n\nTo force removal:\n  occ user remove ",
        );
        append(&mut e, username);
        append(&mut e, " --force");
        return Err(e);
    }
    Ok(())
}

/// The refusal of managing users without root inside the container.
pub const ROOT_REQUIRED_MESSAGE: &'static str = "User management in container runtime requires root.\nTry:\n  sudo occ user <subcommand>\nOr from the host:\n  docker exec -u root -it opencode-cloud-sandbox occ user <subcommand>";

/// Whether `id -u` printed the root user's id; output that is not a number counts
/// as another user.
pub open spec fn spec_is_root(id_output: Seq<char>) -> bool {
    spec_parse_unsigned(spec_trim(id_output), u32::MAX as nat) == Some(0nat)
}

/// Managing accounts in the container needs root, as `id -u` tells.
pub fn check_root(id_output: &str) -> (r: Result<(), String>)
    ensures
        r is Ok <==> spec_is_root(id_output@),
        r matches Err(e) ==> e@ == ROOT_REQUIRED_MESSAGE@,
{
    let t = trim(&chars_of(id_output));
    match parse_unsigned(&t, u32::MAX as u64) {
        Some(0) => Ok(()),
        _ => Err(owned(ROOT_REQUIRED_MESSAGE)),
    }
}

/// The error of a failed `useradd`: the name was taken meanwhile, or the exit code.
pub fn create_user_error(username: &str, known_now: bool, status: i64) -> (e: String)
    ensures
        e@ == (if known_now {
            "User '"@ + username@ + "' already exists"@
        } else {
            "Failed to create user '"@ + username@ + "' (exit "@ + spec_signed_decimal(status as int) + ")"@
        }),
{
    if known_now {
        let mut e = owned("User '");
        append(&mut e, username);
        append(&mut e, "' already exists");
        return e;
    }
    let mut e = owned("Failed to create user '");
    append(&mut e, username);
    append(&mut e, "' (exit ");
    push_signed_decimal(&mut e, status);
    append(&mut e, ")");
    e
}

/// The error of a failed `userdel`, with its trimmed output when there is any.
pub fn delete_user_error(username: &str, status: i64, output: &str) -> (e: String)
    ensures
        e@ == "Failed to remove user '"@ + username@ + "' (exit "@ + spec_signed_decimal(status as int) + ")"@ + (
        if spec_trim(output@).len() == 0 {
            Seq::empty()
        } else {
            "\n"@ + spec_trim(output@)
        }),
{
    let mut e = owned("Failed to remove user '");
    append(&mut e, username);
    append(&mut e, "' (exit ");
    push_signed_decimal(&mut e, status);
    append(&mut e, ")");
    let t = trim(&chars_of(output));
    if t.len() > 0 {
        append(&mut e, "\n");
        let ts = string_of(&t);
        append(&mut e, ts.as_str());
    }
    e
}

/// The error of a failed `passwd -l` (`lock`) or `passwd -u`.
pub fn lock_user_error(username: &str, lock: bool, status: i64) -> (e: String)
    ensures
        e@ == "Failed to "@ + (if lock { "lock"@ } else { "unlock"@ }) + " user '"@ + username@ + "' (exit "@
            + spec_signed_decimal(status as int) + ")"@,
{
    let mut e = owned("Failed to ");
    append(&mut e, if lock { "lock" } else { "unlock" });
    append(&mut e, " user '");
    append(&mut e, username);
    append(&mut e, "' (exit ");
    push_signed_decimal(&mut e, status);
    append(&mut e, ")");
    e
}

/// A new password must not be empty.
pub fn check_new_password(password: &str) -> (r: Result<(), String>)
    ensures
        r is Ok <==> password@.len() > 0,
        r matches Err(e) ==> e@ == "Password cannot be empty"@,
{
    if password.unicode_len() == 0 {
        return Err(owned("Password cannot be empty"));
    }
    Ok(())
}

/// What was done to an account.
#[derive(Debug, Clone, Copy, PartialEq, Eq, Structural)]
pub enum UserChange {
    Created,
    Removed,
    PasswordChanged,
    Enabled,
    Disabled,
}

/// The text after `Success:` for a change of an account.
pub open spec fn spec_user_change_text(change: UserChange, username: Seq<char>) -> Seq<char> {
    match change {
        UserChange::Created => " User '"@ + username + "' created successfully"@,
        UserChange::Removed => " User '"@ + username + "' removed successfully"@,
        UserChange::PasswordChanged => " Password changed for user '"@ + username + "'"@,
        UserChange::Enabled => " User '"@ + username + "' enabled"@,
        UserChange::Disabled => " User '"@ + username + "' disabled"@,
    }
}

/// The success message for a change of an account.
pub fn user_success_message(change: UserChange, username: &str) -> (s: String)
    ensures
        shows_pieces(s@, seq![("Success:"@, Some(Paint::GreenBold)), (spec_user_change_text(change, username@), None)]),
{
    let mut text = owned(match change {
        UserChange::Created => " User '",
        UserChange::Removed => " User '",
        UserChange::PasswordChanged => " Password changed for user '",
        UserChange::Enabled => " User '",
        UserChange::Disabled => " User '",
    });
    append(&mut text, username);
    append(&mut text, match change {
        UserChange::Created => "' created successfully",
        UserChange::Removed => "' removed successfully",
        UserChange::PasswordChanged => "'",
        UserChange::Enabled => "' enabled",
        UserChange::Disabled => "' disabled",
    });
    let v: Vec<(&str, Option<Paint>)> = vec![("Success:", Some(Paint::GreenBold)), (text.as_str(), None)];
    assert(piece_views(v@) =~~= seq![("Success:"@, Some(Paint::GreenBold)), (spec_user_change_text(change, username@), None)]);
    render(&v)
}

/// The tip on generating a password.
pub open spec fn spec_generate_tip() -> Seq<Piece> {
    seq![
        ("  "@, None),
        ("Tip:"@, Some(Paint::Cyan)),
        (" Use "@, None),
        ("--generate (-g)"@, Some(Paint::Bold)),
        (" to auto-generate a secure password."@, None),
    ]
}

/// The tip on generating a password, shown before a password prompt.
pub fn generate_tip() -> (s: String)
    ensures
        shows_pieces(s@, spec_generate_tip()),
{
    let v: Vec<(&str, Option<Paint>)> = vec![
        ("  ", None),
        ("Tip:", Some(Paint::Cyan)),
        (" Use ", None),
        ("--generate (-g)", Some(Paint::Bold)),
        (" to auto-generate a secure password.", None),
    ];
    assert(piece_views(v@) =~~= spec_generate_tip());
    render(&v)
}

/// What is said before asking for a new account's password: what it is for, and
/// how to have one generated.
pub open spec fn spec_password_intro() -> Seq<Seq<Piece>> {
    seq![
        plain_line(Seq::empty()),
        seq![("Set a password for the new container user."@, Some(Paint::Dim))],
        seq![("This will be used for opencode web login."@, Some(Paint::Dim))],
        seq![("Authentication is handled by the system via PAM - we don't store passwords."@, Some(Paint::Dim))],
        spec_generate_tip(),
        seq![
            ("  "@, None),
            ("Tip:"@, Some(Paint::Cyan)),
            (" Press Enter to auto-generate and display a secure password."@, None),
        ],
    ]
}

/// The lines shown before asking for a new account's password.
pub fn password_intro_lines() -> (r: Vec<String>)
    ensures
        shows_lines(string_views(r@), spec_password_intro()),
{
    let mut r: Vec<String> = Vec::new();
    assert(string_views(r@) =~= Seq::<Seq<char>>::empty());
    push_plain(&mut r, String::new(), Ghost(Seq::empty()));
    let ghost mut e: Seq<Seq<Piece>> = seq![plain_line(Seq::empty())];
    assert(Seq::<Seq<Piece>>::empty().push(plain_line(Seq::empty())) =~= e);
    let v1: Vec<(&str, Option<Paint>)> = vec![("Set a password for the new container user.", Some(Paint::Dim))];
    push_rendered(&mut r, &v1, Ghost(e));
    proof {
        e = e.push(piece_views(v1@));
    }
    let v2: Vec<(&str, Option<Paint>)> = vec![("This will be used for opencode web login.", Some(Paint::Dim))];
    push_rendered(&mut r, &v2, Ghost(e));
    proof {
        e = e.push(piece_views(v2@));
    }
    let v3: Vec<(&str, Option<Paint>)> = vec![
        ("Authentication is handled by the system via PAM - we don't store passwords.", Some(Paint::Dim)),
    ];
    push_rendered(&mut r, &v3, Ghost(e));
    proof {
        e = e.push(piece_views(v3@));
    }
    let v4: Vec<(&str, Option<Paint>)> = vec![
        ("  ", None),
        ("Tip:", Some(Paint::Cyan)),
        (" Use ", None),
        ("--generate (-g)", Some(Paint::Bold)),
        (" to auto-generate a secure password.", None),
    ];
    push_rendered(&mut r, &v4, Ghost(e));
    proof {
        e = e.push(piece_views(v4@));
    }
    let v5: Vec<(&str, Option<Paint>)> = vec![
        ("  ", None),
        ("Tip:", Some(Paint::Cyan)),
        (" Press Enter to auto-generate and display a secure password.", None),
    ];
    push_rendered(&mut r, &v5, Ghost(e));
    proof {
        e = e.push(piece_views(v5@));
    }
    assert(e =~~= spec_password_intro());
    r
}

/// The lines that show a generated password: the password, then the warning
/// `message` and where the password came from.
pub open spec fn spec_generated_password_lines(password: Seq<char>, message: Seq<char>) -> Seq<Seq<Piece>> {
    seq![
        plain_line(Seq::empty()),
        seq![("  Password: "@, None), (password, Some(Paint::Cyan))],
        plain_line(Seq::empty()),
        seq![(message, Some(Paint::Yellow))],
        seq![("Password generated using a cryptographically secure random number generator."@, Some(Paint::Dim))],
    ]
}

/// Shows a generated password with its warning.
pub fn generated_password_lines(password: &str, message: &str) -> (r: Vec<String>)
    ensures
        shows_lines(string_views(r@), spec_generated_password_lines(password@, message@)),
{
    let mut r: Vec<String> = Vec::new();
    assert(string_views(r@) =~= Seq::<Seq<char>>::empty());
    push_plain(&mut r, String::new(), Ghost(Seq::empty()));
    let ghost mut e: Seq<Seq<Piece>> = seq![plain_line(Seq::empty())];
    assert(Seq::<Seq<Piece>>::empty().push(plain_line(Seq::empty())) =~= e);
    let v1: Vec<(&str, Option<Paint>)> = vec![("  Password: ", None), (password, Some(Paint::Cyan))];
    push_rendered(&mut r, &v1, Ghost(e));
    proof {
        e = e.push(piece_views(v1@));
    }
    push_plain(&mut r, String::new(), Ghost(e));
    proof {
        e = e.push(plain_line(Seq::empty()));
    }
    let v2: Vec<(&str, Option<Paint>)> = vec![(message, Some(Paint::Yellow))];
    push_rendered(&mut r, &v2, Ghost(e));
    proof {
        e = e.push(piece_views(v2@));
    }
    let v3: Vec<(&str, Option<Paint>)> = vec![
        ("Password generated using a cryptographically secure random number generator.", Some(Paint::Dim)),
    ];
    push_rendered(&mut r, &v3, Ghost(e));
    proof {
        e = e.push(piece_views(v3@));
    }
    assert(e =~~= spec_generated_password_lines(password@, message@));
    r
}

/// The warning shown with a generated password.
pub const GENERATED_PASSWORD_NOTICE: &'static str = "Save this password securely - it won't be shown again.";

/// The error of a command that exited unsuccessfully: the command line and exit
/// code, then its trimmed output when there is any.
pub fn command_failed_error(cmd: &str, args: &Vec<String>, status: i64, output: &str) -> (e: String)
    ensures
        e@ == "Command failed: "@ + cmd@ + " "@ + crate::text::spec_join(string_views(args@), " "@) + " (exit "@
            + spec_signed_decimal(status as int) + ")"@ + (if spec_trim(output@).len() == 0 {
            Seq::empty()
        } else {
            "\n"@ + spec_trim(output@)
        }),
{
    let mut e = owned("Command failed: ");
    append(&mut e, cmd);
    append(&mut e, " ");
    let joined = crate::text::join(args, " ");
    append(&mut e, joined.as_str());
    append(&mut e, " (exit ");
    push_signed_decimal(&mut e, status);
    append(&mut e, ")");
    let t = trim(&chars_of(output));
    if t.len() > 0 {
        append(&mut e, "\n");
        let ts = string_of(&t);
        append(&mut e, ts.as_str());
    }
    e
}

} // verus!
