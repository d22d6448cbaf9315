//! The `config` command: container environment variables and the configuration
//! table.

use vstd::prelude::*;
use crate::text::{
    append, chars_of, eq_str, join, owned, push_decimal, spec_decimal, spec_join, str_eq,
    string_of_range, string_views,
};

verus! {

/// Arguments of the `config` command.
#[derive(Debug, Clone)]
pub struct ConfigArgs {
    /// Output as JSON instead of a table (when no subcommand is given).
    pub json: bool,
    pub command: Option<ConfigSubcommands>,
}

/// The `config` subcommands.
#[derive(Debug, Clone)]
pub enum ConfigSubcommands {
    /// Show the configuration.
    Show { json: bool },
    /// Get one configuration value.
    Get { key: String },
    /// Set one configuration value (prompting for a password when the value is absent).
    SetValue { key: String, value: Option<String>, force: bool },
    /// Reset the configuration to its defaults.
    Reset { force: bool },
    /// Manage container environment variables.
    Env(EnvCommands),
}

/// The `config env` subcommands.
#[derive(Debug, Clone)]
pub enum EnvCommands {
    /// Set or update a variable (`KEY=value`).
    SetVar { env_var: String },
    /// List the configured variables.
    List,
    /// Remove a variable.
    Remove { key: String },
}

/// Which `config` command runs: without a subcommand, the configuration is shown
/// (as JSON when asked).
#[derive(Debug, Clone)]
pub enum ConfigAction {
    Show { json: bool },
    Get { key: String },
    SetValue { key: String, value: Option<String>, force: bool },
    Reset { force: bool },
    Env(EnvCommands),
}

/// The command a `config` invocation runs.
pub fn config_action(args: ConfigArgs) -> (a: ConfigAction)
    ensures
        match args.command {
            None => a == (ConfigAction::Show { json: args.json }),
            Some(ConfigSubcommands::Show { json }) => a == (ConfigAction::Show { json }),
            Some(ConfigSubcommands::Get { key }) => a == (ConfigAction::Get { key }),
            Some(ConfigSubcommands::SetValue { key, value, force }) => a == (ConfigAction::SetValue { key, value, force }),
            Some(ConfigSubcommands::Reset { force }) => a == (ConfigAction::Reset { force }),
            Some(ConfigSubcommands::Env(e)) => a == ConfigAction::Env(e),
        },
{
    match args.command {
        None => ConfigAction::Show { json: args.json },
        Some(ConfigSubcommands::Show { json }) => ConfigAction::Show { json },
        Some(ConfigSubcommands::Get { key }) => ConfigAction::Get { key },
        Some(ConfigSubcommands::SetValue { key, value, force }) => ConfigAction::SetValue { key, value, force },
        Some(ConfigSubcommands::Reset { force }) => ConfigAction::Reset { force },
        Some(ConfigSubcommands::Env(e)) => ConfigAction::Env(e),
    }
}

/// The question before resetting the configuration.
pub const CONFIG_RESET_PROMPT: &'static str = "Reset configuration to defaults? This cannot be undone.";

/// What is said when a reset is declined.
pub const CONFIG_RESET_CANCELLED: &'static str = "Reset cancelled.";

/// The message after the configuration was reset.
pub fn config_reset_done() -> (s: String)
    ensures
        crate::style::shows_pieces(
            s@,
            seq![("Success:"@, Some(crate::style::Paint::GreenBold)), (" Configuration reset to defaults"@, None)],
        ),
{
    let v: Vec<(&str, Option<crate::style::Paint>)> = vec![
        ("Success:", Some(crate::style::Paint::GreenBold)),
        (" Configuration reset to defaults", None),
    ];
    assert(crate::style::piece_views(v@) =~~= seq![
        ("Success:"@, Some(crate::style::Paint::GreenBold)),
        (" Configuration reset to defaults"@, None),
    ]);
    crate::style::render(&v)
}

/// The message after a container environment variable was set.
pub fn env_set_message(key: &str) -> (s: String)
    ensures
        crate::style::shows_pieces(
            s@,
            seq![("Success:"@, Some(crate::style::Paint::GreenBold)), (" Set environment variable: "@, None), (key@, None)],
        ),
{
    let v: Vec<(&str, Option<crate::style::Paint>)> = vec![
        ("Success:", Some(crate::style::Paint::GreenBold)),
        (" Set environment variable: ", None),
        (key, None),
    ];
    assert(crate::style::piece_views(v@) =~~= seq![
        ("Success:"@, Some(crate::style::Paint::GreenBold)),
        (" Set environment variable: "@, None),
        (key@, None),
    ]);
    crate::style::render(&v)
}

/// The message after a container environment variable was removed.
pub fn env_removed_message(key: &str) -> (s: String)
    ensures
        crate::style::shows_pieces(
            s@,
            seq![("Success:"@, Some(crate::style::Paint::GreenBold)), (" Removed environment variable: "@, None), (key@, None)],
        ),
{
    let v: Vec<(&str, Option<crate::style::Paint>)> = vec![
        ("Success:", Some(crate::style::Paint::GreenBold)),
        (" Removed environment variable: ", None),
        (key, None),
    ];
    assert(crate::style::piece_views(v@) =~~= seq![
        ("Success:"@, Some(crate::style::Paint::GreenBold)),
        (" Removed environment variable: "@, None),
        (key@, None),
    ]);
    crate::style::render(&v)
}

// ---------------------------------------------------------------------------
// Environment variables
// ---------------------------------------------------------------------------

/// The key of a `KEY=value` entry: what precedes its first `=`.
pub open spec fn spec_env_key(entry: Seq<char>) -> Option<Seq<char>> {
    if exists|i: int| 0 <= i < entry.len() && entry[i] == '=' {
        let p = choose|i: int|
            0 <= i < entry.len() && entry[i] == '=' && forall|j: int| 0 <= j < i ==> entry[j] != '=';
        Some(entry.take(p))
    } else {
        None
    }
}

/// The key of a `KEY=value` entry, `None` without `=`.
pub fn env_key(entry: &str) -> (r: Option<String>)
    ensures
        r matches Some(k) ==> spec_env_key(entry@) == Some(k@),
        r is None ==> spec_env_key(entry@) is None,
        r matches Some(k) ==> (k@ + "="@).is_prefix_of(entry@) && !k@.contains('='),
{
    let cs = chars_of(entry);
    let mut i: usize = 0;
    while i < cs.len()
        invariant
            i <= cs@.len(),
            cs@ == entry@,
            forall|j: int| 0 <= j < i ==> cs@[j] != '=',
        decreases cs@.len() - i,
    {
        if cs[i] == '=' {
            proof {
                reveal_strlit("=");
                let p = choose|p: int|
                    0 <= p < entry@.len() && entry@[p] == '=' && forall|j: int| 0 <= j < p ==> entry@[j] != '=';
                assert(0 <= i < entry@.len() && entry@[i as int] == '=' && forall|j: int| 0 <= j < i ==> entry@[j] != '=');
                if p < i {
                    assert(entry@[p] != '=');
                } else if p > i {
                    assert(entry@[i as int] != '=');
                }
                assert(p == i);
            }
            let k = string_of_range(&cs, 0, i);
            proof {
                assert(k@ =~= entry@.take(i as int));
                assert((k@ + "="@) =~= entry@.take(i + 1));
                assert(!k@.contains('=')) by {
                    if k@.contains('=') {
                        let j = choose|j: int| 0 <= j < k@.len() && k@[j] == '=';
                        assert(entry@[j] == '=');
                    }
                }
            }
            return Some(k);
        }
        i = i + 1;
    }
    None
}

/// Whether an entry sets `key`: it starts with `key=`.
pub open spec fn sets_key(entry: Seq<char>, key: Seq<char>) -> bool {
    (key + "="@).is_prefix_of(entry)
}

/// The entries that do not set `key`, in order.
pub open spec fn without_key(entries: Seq<Seq<char>>, key: Seq<char>) -> Seq<Seq<char>> {
    entries.filter(|e: Seq<char>| !sets_key(e, key))
}

fn starts_with_key(entry: &str, key_prefix: &str) -> (b: bool)
    ensures
        b == key_prefix@.is_prefix_of(entry@),
{
    crate::text::starts_with(&chars_of(entry), key_prefix)
}

/// The entries without those that set `key`.
pub fn remove_key(entries: &Vec<String>, key: &str) -> (r: Vec<String>)
    ensures
        string_views(r@) == without_key(string_views(entries@), key@),
{
    let mut prefix = owned(key);
    append(&mut prefix, "=");
    let ghost all = string_views(entries@);
    let mut r: Vec<String> = Vec::new();
    let mut i: usize = 0;
    while i < entries.len()
        invariant
            i <= entries@.len(),
            all == string_views(entries@),
            prefix@ == key@ + "="@,
            string_views(r@) == without_key(all.take(i as int), key@),
        decreases entries@.len() - i,
    {
        proof {
            reveal_with_fuel(Seq::filter, 1);
            assert(all.take(i + 1).drop_last() =~= all.take(i as int));
            assert(all[i as int] == entries@[i as int]@);
        }
        if !starts_with_key(entries[i].as_str(), prefix.as_str()) {
            let ghost before = string_views(r@);
            r.push(entries[i].clone());
            assert(string_views(r@) =~= before.push(all[i as int]));
        }
        i = i + 1;
    }
    assert(all.take(entries@.len() as int) =~= all);
    r
}

/// `config env set`: the entries without any other value for the key, then the new
/// entry.
pub open spec fn spec_env_set(entries: Seq<Seq<char>>, env_var: Seq<char>) -> Result<Seq<Seq<char>>, Seq<char>> {
    match spec_env_key(env_var) {
        None => Err("Format must be KEY=value\n\nExample: occ config env set FOO=bar"@),
        Some(k) => if k.len() == 0 {
            Err("Environment variable key cannot be empty"@)
        } else {
            Ok(without_key(entries, k).push(env_var))
        },
    }
}

/// `config env remove`: an error unless some entry sets the key.
pub open spec fn spec_env_remove(entries: Seq<Seq<char>>, key: Seq<char>) -> Result<Seq<Seq<char>>, Seq<char>> {
    if exists|i: int| 0 <= i < entries.len() && sets_key(#[trigger] entries[i], key) {
        Ok(without_key(entries, key))
    } else {
        Err("Environment variable not found: "@ + key)
    }
}

/// Sets or replaces the variable in `env_var` (`KEY=value`).
pub fn env_set(entries: &Vec<String>, env_var: &str) -> (r: Result<Vec<String>, String>)
    ensures
        match (r, spec_env_set(string_views(entries@), env_var@)) {
            (Ok(v), Ok(w)) => string_views(v@) == w,
            (Err(e), Err(f)) => e@ == f,
            _ => false,
        },
{
    let key = match env_key(env_var) {
        Some(k) => k,
        None => return Err(owned("Format must be KEY=value\n\nExample: occ config env set FOO=bar")),
    };
    if key.unicode_len() == 0 {
        return Err(owned("Environment variable key cannot be empty"));
    }
    let mut r = remove_key(entries, key.as_str());
    let ghost before = string_views(r@);
    r.push(owned(env_var));
    assert(string_views(r@) =~= before.push(env_var@));
    Ok(r)
}

/// Removes the variable `key`.
pub fn env_remove(entries: &Vec<String>, key: &str) -> (r: Result<Vec<String>, String>)
    ensures
        match (r, spec_env_remove(string_views(entries@), key@)) {
            (Ok(v), Ok(w)) => string_views(v@) == w,
            (Err(e), Err(f)) => e@ == f,
            _ => false,
        },
{
    let mut prefix = owned(key);
    append(&mut prefix, "=");
    let ghost all = string_views(entries@);
    let mut found = false;
    let mut i: usize = 0;
    while i < entries.len()
        invariant
            i <= entries@.len(),
            all == string_views(entries@),
            prefix@ == key@ + "="@,
            found == exists|j: int| 0 <= j < i && sets_key(#[trigger] all[j], key@),
        decreases entries@.len() - i,
    {
        assert(all[i as int] == entries@[i as int]@);
        if starts_with_key(entries[i].as_str(), prefix.as_str()) {
            found = true;
        }
        i = i + 1;
    }
    if !found {
        let mut e = owned("Environment variable not found: ");
        append(&mut e, key);
        return Err(e);
    }
    Ok(remove_key(entries, key))
}

/// What `config env list` prints: each entry indented, and unless quiet a count;
/// without entries, a notice unless quiet.
pub open spec fn spec_env_list_lines(entries: Seq<Seq<char>>, quiet: bool) -> Seq<Seq<char>> {
    if entries.len() == 0 {
        if quiet {
            Seq::empty()
        } else {
            seq!["(no environment variables configured)"@]
        }
    } else {
        let listed = entries.map_values(|e: Seq<char>| "  "@ + e);
        if quiet {
            listed
        } else {
            listed + seq![Seq::<char>::empty(), spec_decimal(entries.len()) + " environment variable(s)"@]
        }
    }
}

/// The lines `config env list` prints.
pub fn env_list_lines(entries: &Vec<String>, quiet: bool) -> (lines: Vec<String>)
    ensures
        string_views(lines@) == spec_env_list_lines(string_views(entries@), quiet),
{
    let ghost all = string_views(entries@);
    let mut lines: Vec<String> = Vec::new();
    if entries.len() == 0 {
        if !quiet {
            lines.push(owned("(no environment variables configured)"));
        }
        assert(string_views(lines@) =~= spec_env_list_lines(all, quiet));
        return lines;
    }
    let mut i: usize = 0;
    while i < entries.len()
        invariant
            i <= entries@.len(),
            all == string_views(entries@),
            string_views(lines@) == all.take(i as int).map_values(|e: Seq<char>| "  "@ + e),
        decreases entries@.len() - i,
    {
        let mut line = owned("  ");
        append(&mut line, entries[i].as_str());
        let ghost before = string_views(lines@);
        lines.push(line);
        proof {
            assert(all[i as int] == entries@[i as int]@);
            assert(all.take(i + 1) =~= all.take(i as int).push(all[i as int]));
            assert(string_views(lines@) =~= before.push("  "@ + all[i as int]));
            assert(string_views(lines@) =~= all.take(i + 1).map_values(|e: Seq<char>| "  "@ + e));
        }
        i = i + 1;
    }
    assert(all.take(entries@.len() as int) =~= all);
    if !quiet {
        lines.push(String::new());
        let mut count = String::new();
        push_decimal(&mut count, entries.len() as u64);
        append(&mut count, " environment variable(s)");
        lines.push(count);
        assert(count@ =~= spec_decimal(all.len()) + " environment variable(s)"@);
    }
    assert(string_views(lines@) =~= spec_env_list_lines(all, quiet));
    lines
}

/// What a `config env` command does to the configured entries.
#[derive(Debug, Clone)]
pub enum EnvOutcome {
    /// The variable `key` was set; the entries to save.
    Updated { container_env: Vec<String>, key: String },
    /// The variable `key` was removed; the entries to save.
    Removed { container_env: Vec<String>, key: String },
    /// Nothing changes; the lines to print.
    Listed { lines: Vec<String> },
}

/// Runs a `config env` command against the configured entries.
pub fn cmd_config_env(cmd: &EnvCommands, container_env: &Vec<String>, quiet: bool) -> (r: Result<
    EnvOutcome,
    String,
>)
    ensures
        match *cmd {
            EnvCommands::SetVar { env_var } => match (r, spec_env_set(string_views(container_env@), env_var@)) {
                (Ok(EnvOutcome::Updated { container_env: v, key: k }), Ok(w)) => string_views(v@) == w
                    && spec_env_key(env_var@) == Some(k@),
                (Err(e), Err(f)) => e@ == f,
                _ => false,
            },
            EnvCommands::Remove { key } => match (r, spec_env_remove(string_views(container_env@), key@)) {
                (Ok(EnvOutcome::Removed { container_env: v, key: k }), Ok(w)) => string_views(v@) == w
                    && k@ == key@,
                (Err(e), Err(f)) => e@ == f,
                _ => false,
            },
            EnvCommands::List => r matches Ok(EnvOutcome::Listed { lines }) && string_views(lines@)
                == spec_env_list_lines(string_views(container_env@), quiet),
        },
{
    match cmd {
        EnvCommands::SetVar { env_var } => {
            let updated = env_set(container_env, env_var.as_str())?;
            let key = match env_key(env_var.as_str()) {
                Some(k) => k,
                None => return Err(owned("Format must be KEY=value\n\nExample: occ config env set FOO=bar")),
            };
            Ok(EnvOutcome::Updated { container_env: updated, key })
        },
        EnvCommands::Remove { key } => {
            let updated = env_remove(container_env, key.as_str())?;
            Ok(EnvOutcome::Removed { container_env: updated, key: key.clone() })
        },
        EnvCommands::List => Ok(EnvOutcome::Listed { lines: env_list_lines(container_env, quiet) }),
    }
}

// ---------------------------------------------------------------------------
// The configuration table
// ---------------------------------------------------------------------------

/// A configuration value as serialized to JSON, in the form the table shows it.
#[derive(Debug, Clone)]
pub enum ConfigValue {
    Null,
    Bool(bool),
    /// A number, in its JSON rendering.
    Number(String),
    Str(String),
    /// An array: the string elements, and `None` for elements of other kinds.
    Array(Vec<Option<String>>),
    /// An object, in its compact JSON rendering.
    Object(String),
}

/// The one field whose value is masked.
pub open spec fn is_sensitive(key: Seq<char>) -> bool {
    key == "auth_password"@
}

pub open spec fn array_strings(items: Seq<Option<String>>) -> Seq<Seq<char>>
    decreases items.len(),
{
    if items.len() == 0 {
        Seq::empty()
    } else {
        let prev = array_strings(items.drop_last());
        match items.last() {
            Some(s) => prev.push(s@),
            None => prev,
        }
    }
}

/// How a value is shown: passwords masked, absent values as `(not set)`, arrays as
/// their strings joined by commas or `(none)`, and empty auth fields as `(not set)`.
pub open spec fn spec_format_value(key: Seq<char>, value: ConfigValue) -> Seq<char> {
    if is_sensitive(key) {
        match value {
            ConfigValue::Str(s) => if s@.len() == 0 {
                "(not set)"@
            } else {
                "********"@
            },
            _ => "(not set)"@,
        }
    } else {
        match value {
            ConfigValue::Null => "(not set)"@,
            ConfigValue::Bool(b) => if b {
                "true"@
            } else {
                "false"@
            },
            ConfigValue::Number(n) => n@,
            ConfigValue::Str(s) => if s@.len() > 0 {
                s@
            } else if key == "auth_username"@ || key == "auth_password"@ {
                "(not set)"@
            } else {
                Seq::empty()
            },
            ConfigValue::Array(items) => if items@.len() == 0 {
                "(none)"@
            } else {
                spec_join(array_strings(items@), ", "@)
            },
            ConfigValue::Object(text) => text@,
        }
    }
}

fn format_sensitive(value: &ConfigValue) -> (s: String)
    ensures
        s@ == spec_format_value("auth_password"@, *value),
{
    match value {
        ConfigValue::Str(s) => if s.unicode_len() == 0 {
            owned("(not set)")
        } else {
            owned("********")
        },
        _ => owned("(not set)"),
    }
}

fn format_string(key: &str, s: &str) -> (r: String)
    ensures
        r@ == (if s@.len() > 0 {
            s@
        } else if key@ == "auth_username"@ || key@ == "auth_password"@ {
            "(not set)"@
        } else {
            Seq::empty()
        }),
{
    if s.unicode_len() > 0 {
        return owned(s);
    }
    if str_eq(key, "auth_username") || str_eq(key, "auth_password") {
        owned("(not set)")
    } else {
        String::new()
    }
}

fn format_array(items: &Vec<Option<String>>) -> (r: String)
    ensures
        r@ == (if items@.len() == 0 {
            "(none)"@
        } else {
            spec_join(array_strings(items@), ", "@)
        }),
{
    if items.len() == 0 {
        return owned("(none)");
    }
    let mut strings: Vec<String> = Vec::new();
    let mut i: usize = 0;
    while i < items.len()
        invariant
            i <= items@.len(),
            string_views(strings@) == array_strings(items@.take(i as int)),
        decreases items@.len() - i,
    {
        proof {
            assert(items@.take(i + 1).drop_last() =~= items@.take(i as int));
        }
        match &items[i] {
            Some(s) => {
                let ghost before = string_views(strings@);
                strings.push(s.clone());
                assert(string_views(strings@) =~= before.push(s@));
            },
            None => {},
        }
        i = i + 1;
    }
    assert(items@.take(items@.len() as int) =~= items@);
    join(&strings, ", ")
}

/// How the configuration table shows `value` under `key`.
pub fn format_value(key: &str, value: &ConfigValue) -> (s: String)
    ensures
        s@ == spec_format_value(key@, *value),
{
    if str_eq(key, "auth_password") {
        return format_sensitive(value);
    }
    match value {
        ConfigValue::Null => owned("(not set)"),
        ConfigValue::Bool(b) => if *b {
            owned("true")
        } else {
            owned("false")
        },
        ConfigValue::Number(n) => n.clone(),
        ConfigValue::Str(s) => format_string(key, s.as_str()),
        ConfigValue::Array(items) => format_array(items),
        ConfigValue::Object(text) => text.clone(),
    }
}

/// The text a value is compared with for highlighting: strings as they are,
/// booleans as `true` or `false`, nothing for other kinds.
pub open spec fn spec_value_text(value: ConfigValue) -> Seq<char> {
    match value {
        ConfigValue::Str(s) => s@,
        ConfigValue::Bool(b) => if b {
            "true"@
        } else {
            "false"@
        },
        _ => Seq::empty(),
    }
}

fn value_text(value: &ConfigValue) -> (s: String)
    ensures
        s@ == spec_value_text(*value),
{
    match value {
        ConfigValue::Str(s) => s.clone(),
        ConfigValue::Bool(b) => if *b {
            owned("true")
        } else {
            owned("false")
        },
        _ => String::new(),
    }
}

/// Addresses reachable only from this machine.
pub open spec fn spec_is_localhost(addr: Seq<char>) -> bool {
    addr == "127.0.0.1"@ || addr == "::1"@ || addr == "localhost"@
}

/// Whether a bind address is a loopback address.
pub fn is_localhost(addr: &str) -> (b: bool)
    ensures
        b == spec_is_localhost(addr@),
{
    str_eq(addr, "127.0.0.1") || str_eq(addr, "::1") || str_eq(addr, "localhost")
}

/// How a table cell is highlighted.
#[derive(Debug, Clone, Copy, PartialEq, Eq, Structural)]
pub enum CellHighlight {
    /// A setting that exposes the service.
    Warning,
    /// A bind address reachable only locally.
    Secure,
    Plain,
}

/// Exposed bind addresses and unauthenticated network access are warnings; a
/// loopback bind address is secure.
pub open spec fn spec_cell_highlight(key: Seq<char>, value: ConfigValue) -> CellHighlight {
    let t = spec_value_text(value);
    if (key == "bind_address"@ && (t == "0.0.0.0"@ || t == "::"@)) || (key
        == "allow_unauthenticated_network"@ && t == "true"@) {
        CellHighlight::Warning
    } else if key == "bind_address"@ && spec_is_localhost(t) {
        CellHighlight::Secure
    } else {
        CellHighlight::Plain
    }
}

/// The highlight of the cell showing `value` under `key`.
pub fn cell_highlight(key: &str, value: &ConfigValue) -> (h: CellHighlight)
    ensures
        h == spec_cell_highlight(key@, *value),
{
    let t = value_text(value);
    let bind = str_eq(key, "bind_address");
    if (bind && (str_eq(t.as_str(), "0.0.0.0") || str_eq(t.as_str(), "::"))) || (str_eq(
        key,
        "allow_unauthenticated_network",
    ) && str_eq(t.as_str(), "true")) {
        CellHighlight::Warning
    } else if bind && is_localhost(t.as_str()) {
        CellHighlight::Secure
    } else {
        CellHighlight::Plain
    }
}

/// Whether a field's value is masked for display: a non-empty password.
pub open spec fn is_masked(key: Seq<char>, value: ConfigValue) -> bool {
    is_sensitive(key) && match value {
        ConfigValue::Str(s) => s@.len() > 0,
        _ => false,
    }
}

/// Masks the sensitive fields of the serialized configuration (for JSON output).
pub fn mask_sensitive_fields(fields: &mut Vec<(String, ConfigValue)>)
    ensures
        final(fields)@.len() == old(fields)@.len(),
        forall|i: int|
            0 <= i < old(fields)@.len() ==> {
                let (k, v) = #[trigger] old(fields)@[i];
                let (k2, v2) = final(fields)@[i];
                &&& k2 == k
                &&& if is_masked(k@, v) {
                    v2 matches ConfigValue::Str(m) && m@ == "********"@
                } else {
                    v2 == v
                }
            },
{
    let mut i: usize = 0;
    while i < fields.len()
        invariant
            i <= fields@.len(),
            fields@.len() == old(fields)@.len(),
            forall|j: int|
                i <= j < fields@.len() ==> #[trigger] fields@[j] == old(fields)@[j],
            forall|j: int|
                0 <= j < i ==> {
                    let (k, v) = #[trigger] old(fields)@[j];
                    let (k2, v2) = fields@[j];
                    &&& k2 == k
                    &&& if is_masked(k@, v) {
                        v2 matches ConfigValue::Str(m) && m@ == "********"@
                    } else {
                        v2 == v
                    }
                },
        decreases fields@.len() - i,
    {
        let mask = match &fields[i].1 {
            ConfigValue::Str(s) => str_eq(fields[i].0.as_str(), "auth_password") && s.unicode_len() > 0,
            _ => false,
        };
        if mask {
            let key = fields[i].0.clone();
            fields.set(i, (key, ConfigValue::Str(owned("********"))));
        }
        i = i + 1;
    }
}

} // verus!
