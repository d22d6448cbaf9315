//! Setup: what the wizard collects, how it changes the configuration, and what
//! follows a saved configuration.

use vstd::prelude::*;
use crate::config::spec_env_key;
use crate::text::{append, chars_of, decimal_string, lines, owned, spec_decimal, spec_lines, str_eq, string_of, string_views, views};
use crate::cli::format_host_message;
use crate::iotp::{build_iotp_fallback_message, spec_iotp_fallback_message, IotpSnapshot, IotpSnapshotView, IotpState};
use crate::status_view::{line_pieces, plain_line, render_lines, shows_lines};
use crate::style::{is_painted, is_painted_then, paint, piece_views, render, shows_pieces, Paint, Piece};

verus! {

/// The settings of the configuration file that setup reads or writes.
#[derive(Debug, Clone, Default)]
pub struct Config {
    pub opencode_web_port: u16,
    pub bind: String,
    pub bind_address: String,
    pub auto_restart: bool,
    pub restart_retries: u32,
    pub auth_username: Option<String>,
    pub auth_password: Option<String>,
    pub container_env: Vec<String>,
    pub allow_unauthenticated_network: bool,
    pub users: Vec<String>,
    pub cockpit_port: u16,
    pub cockpit_enabled: bool,
    pub image_source: String,
    pub mounts: Vec<String>,
}

/// What the wizard collected.
#[derive(Debug, Clone)]
pub struct WizardState {
    /// Username for authentication.
    pub auth_username: Option<String>,
    /// Password for authentication.
    pub auth_password: Option<String>,
    /// Port of the web interface.
    pub port: u16,
    /// Bind address (`localhost` or `0.0.0.0`).
    pub bind: String,
}

/// Whether two configurations agree on every setting the wizard does not set.
pub open spec fn same_other_settings(a: Config, b: Config) -> bool {
    &&& a.bind_address@ == b.bind_address@
    &&& a.auto_restart == b.auto_restart
    &&& a.restart_retries == b.restart_retries
    &&& a.container_env@ == b.container_env@
    &&& a.allow_unauthenticated_network == b.allow_unauthenticated_network
    &&& a.users@ == b.users@
    &&& a.cockpit_port == b.cockpit_port
    &&& a.cockpit_enabled == b.cockpit_enabled
    &&& a.image_source@ == b.image_source@
    &&& a.mounts@ == b.mounts@
}

pub open spec fn opt_chars(o: Option<String>) -> Option<Seq<char>> {
    match o {
        Some(s) => Some(s@),
        None => None,
    }
}

impl WizardState {
    /// Writes the collected values into `config`: credentials when given, the port
    /// and the bind address; everything else is kept.
    pub fn apply_to_config(&self, config: &mut Config)
        ensures
            opt_chars(final(config).auth_username) == (match self.auth_username {
                Some(u) => Some(u@),
                None => opt_chars(old(config).auth_username),
            }),
            opt_chars(final(config).auth_password) == (match self.auth_password {
                Some(p) => Some(p@),
                None => opt_chars(old(config).auth_password),
            }),
            final(config).opencode_web_port == self.port,
            final(config).bind@ == self.bind@,
            same_other_settings(*final(config), *old(config)),
    {
        if let Some(username) = &self.auth_username {
            config.auth_username = Some(username.clone());
        }
        if let Some(password) = &self.auth_password {
            config.auth_password = Some(password.clone());
        }
        config.opencode_web_port = self.port;
        config.bind = self.bind.clone();
    }
}

/// The port quick setup uses.
pub const QUICK_SETUP_PORT: u16 = 3000;

/// The bind address quick setup uses.
pub const QUICK_SETUP_BIND: &'static str = "localhost";

/// The number of wizard steps: quick setup asks only for credentials.
pub fn wizard_total_steps(quick: bool) -> (n: usize)
    ensures
        n == (if quick { 1usize } else { 3usize }),
{
    if quick {
        1
    } else {
        3
    }
}

/// The wizard's title block.
pub open spec fn spec_wizard_header() -> Seq<Seq<Piece>> {
    seq![
        plain_line(Seq::empty()),
        seq![("opencode-cloud Setup Wizard"@, Some(Paint::CyanBold))],
        seq![(Seq::new(30, |i: int| '='), Some(Paint::Dim))],
        plain_line(Seq::empty()),
    ]
}

/// The wizard's title block.
pub fn wizard_header_lines() -> (r: Vec<String>)
    ensures
        shows_lines(string_views(r@), spec_wizard_header()),
{
    let mut rule = String::new();
    crate::text::push_repeated(&mut rule, '=', 30);
    let lines: Vec<Vec<(&str, Option<Paint>)>> = vec![
        vec![("", None)],
        vec![("opencode-cloud Setup Wizard", Some(Paint::CyanBold))],
        vec![(rule.as_str(), Some(Paint::Dim))],
        vec![("", None)],
    ];
    let r = render_lines(&lines);
    proof {
        reveal_strlit("");
        assert(rule@ =~= Seq::new(30, |i: int| '='));
    }
    assert(line_pieces(lines@) =~~= spec_wizard_header());
    r
}

/// The configuration shown before asking whether to reconfigure; the password is
/// never shown.
pub open spec fn spec_current_config(username: Option<Seq<char>>, port: u16, bind: Seq<char>) -> Seq<Seq<Piece>> {
    seq![
        seq![("Current configuration:"@, Some(Paint::Bold))],
        plain_line("  Username: "@ + match username {
            Some(u) => u,
            None => "-"@,
        }),
        plain_line("  Password: ********"@),
        plain_line("  Port:     "@ + spec_decimal(port as nat)),
        plain_line("  Binding:  "@ + bind),
        plain_line(Seq::empty()),
    ]
}

/// The configuration shown before asking whether to reconfigure.
pub fn current_config_lines(username: Option<&str>, port: u16, bind: &str) -> (r: Vec<String>)
    ensures
        shows_lines(
            string_views(r@),
            spec_current_config(
                match username {
                    Some(u) => Some(u@),
                    None => None,
                },
                port,
                bind@,
            ),
        ),
{
    let mut u = owned("  Username: ");
    append(
        &mut u,
        match username {
            Some(x) => x,
            None => "-",
        },
    );
    let mut p = owned("  Port:     ");
    crate::text::push_decimal(&mut p, port as u64);
    let mut b = owned("  Binding:  ");
    append(&mut b, bind);
    let lines: Vec<Vec<(&str, Option<Paint>)>> = vec![
        vec![("Current configuration:", Some(Paint::Bold))],
        vec![(u.as_str(), None)],
        vec![("  Password: ********", None)],
        vec![(p.as_str(), None)],
        vec![(b.as_str(), None)],
        vec![("", None)],
    ];
    let r = render_lines(&lines);
    proof {
        reveal_strlit("");
    }
    assert(line_pieces(lines@) =~~= spec_current_config(
        match username {
            Some(x) => Some(x@),
            None => None,
        },
        port,
        bind@,
    ));
    r
}

/// A change of port or bind address needs a restart; so does a change of the
/// Cockpit settings where Cockpit is exposed.
pub open spec fn spec_requires_restart(old: Config, new: Config, cockpit_exposed: bool) -> bool {
    old.opencode_web_port != new.opencode_web_port || old.bind@ != new.bind@ || (cockpit_exposed && (
    old.cockpit_port != new.cockpit_port || old.cockpit_enabled != new.cockpit_enabled))
}

/// Whether the new configuration needs the container restarted.
pub fn requires_restart(old: &Config, new: &Config, cockpit_exposed: bool) -> (b: bool)
    ensures
        b == spec_requires_restart(*old, *new, cockpit_exposed),
{
    if old.opencode_web_port != new.opencode_web_port || !str_eq(old.bind.as_str(), new.bind.as_str()) {
        return true;
    }
    if cockpit_exposed && (old.cockpit_port != new.cockpit_port || old.cockpit_enabled != new.cockpit_enabled) {
        return true;
    }
    false
}

/// The bootstrap configuration: listening on all interfaces, Cockpit off, and
/// unauthenticated network access allowed; the rest kept.
pub fn build_bootstrap_config(existing: Config) -> (c: Config)
    ensures
        c.bind@ == "0.0.0.0"@,
        c.bind_address@ == "0.0.0.0"@,
        !c.cockpit_enabled,
        c.allow_unauthenticated_network,
        c.opencode_web_port == existing.opencode_web_port,
        opt_chars(c.auth_username) == opt_chars(existing.auth_username),
        opt_chars(c.auth_password) == opt_chars(existing.auth_password),
        c.auto_restart == existing.auto_restart,
        c.restart_retries == existing.restart_retries,
        c.container_env@ == existing.container_env@,
        c.users@ == existing.users@,
        c.cockpit_port == existing.cockpit_port,
        c.image_source@ == existing.image_source@,
        c.mounts@ == existing.mounts@,
{
    let mut config = existing;
    config.bind = owned("0.0.0.0");
    config.bind_address = owned("0.0.0.0");
    config.cockpit_enabled = false;
    config.allow_unauthenticated_network = true;
    config
}

/// What setup does once the configuration is saved.
#[derive(Debug, Clone, Copy, PartialEq, Eq, Structural)]
pub enum SetupFollowUp {
    /// Ask to start the service.
    Start,
    /// Ask to restart it so the changes apply.
    Restart,
    /// Nothing changed that needs a restart: show that it runs.
    ShowRunning,
}

/// A stopped service is started; a running one restarted when the change needs it.
pub fn setup_follow_up(is_running: bool, config_changed: bool) -> (a: SetupFollowUp)
    ensures
        a == (if !is_running {
            SetupFollowUp::Start
        } else if config_changed {
            SetupFollowUp::Restart
        } else {
            SetupFollowUp::ShowRunning
        }),
{
    if !is_running {
        SetupFollowUp::Start
    } else if config_changed {
        SetupFollowUp::Restart
    } else {
        SetupFollowUp::ShowRunning
    }
}

/// The question asked before starting or restarting after setup.
pub fn follow_up_prompt(a: SetupFollowUp) -> (s: Option<&'static str>)
    ensures
        match a {
            SetupFollowUp::Start => s matches Some(p) && p@ == "Start opencode-cloud now?"@,
            SetupFollowUp::Restart => s matches Some(p) && p@ == "Config changed. Restart opencode-cloud to apply?"@,
            SetupFollowUp::ShowRunning => s is None,
        },
{
    match a {
        SetupFollowUp::Start => Some("Start opencode-cloud now?"),
        SetupFollowUp::Restart => Some("Config changed. Restart opencode-cloud to apply?"),
        SetupFollowUp::ShowRunning => None,
    }
}

/// Refusal of `setup --yes` without a configuration.
pub const NON_INTERACTIVE_NEEDS_CONFIG: &'static str = "Non-interactive mode requires an existing configuration.\n\nUse:\n  occ setup\n\nOr for automated environments:\n  occ setup --bootstrap";

/// `setup --yes` only confirms an existing configuration.
pub fn check_setup_yes(config_exists: bool, config_loaded: bool) -> (r: Result<(), String>)
    ensures
        r is Ok <==> (config_exists && config_loaded),
        r matches Err(e) ==> e@ == NON_INTERACTIVE_NEEDS_CONFIG@,
{
    if config_exists && config_loaded {
        Ok(())
    } else {
        Err(owned(NON_INTERACTIVE_NEEDS_CONFIG))
    }
}

/// The address shown for a running service: a wildcard bind is reached locally.
pub fn display_bind_addr(bind: &str) -> (s: String)
    ensures
        s@ == (if bind@ == "0.0.0.0"@ || bind@ == "::"@ {
            "127.0.0.1"@
        } else {
            bind@
        }),
{
    if str_eq(bind, "0.0.0.0") || str_eq(bind, "::") {
        owned("127.0.0.1")
    } else {
        owned(bind)
    }
}

/// Onboarding with the IOTP is shown while no user exists.
pub fn needs_onboarding(users: &Vec<String>) -> (b: bool)
    ensures
        b == (users@.len() == 0),
{
    users.len() == 0
}

/// The value that replaces secrets in a shown configuration.
pub const REDACTED_VALUE: &'static str = "REDACTED";

/// An environment entry with its value hidden: `KEY=REDACTED`, or just `REDACTED`
/// without `=`.
pub open spec fn spec_redact_env_entry(entry: Seq<char>) -> Seq<char> {
    match spec_env_key(entry) {
        Some(k) => k + "="@ + REDACTED_VALUE@,
        None => REDACTED_VALUE@,
    }
}

/// Hides the value of an environment entry.
pub fn redact_env_entry(entry: &str) -> (s: String)
    ensures
        s@ == spec_redact_env_entry(entry@),
{
    match crate::config::env_key(entry) {
        Some(k) => {
            let mut s = k;
            append(&mut s, "=");
            append(&mut s, REDACTED_VALUE);
            s
        },
        None => owned(REDACTED_VALUE),
    }
}

/// Hides the values of all environment entries.
pub fn redact_env_entries(entries: &Vec<String>) -> (r: Vec<String>)
    ensures
        string_views(r@) == string_views(entries@).map_values(|e: Seq<char>| spec_redact_env_entry(e)),
{
    let ghost all = string_views(entries@);
    let mut r: Vec<String> = Vec::new();
    let mut i: usize = 0;
    while i < entries.len()
        invariant
            i <= entries@.len(),
            all == string_views(entries@),
            string_views(r@) == all.take(i as int).map_values(|e: Seq<char>| spec_redact_env_entry(e)),
        decreases entries@.len() - i,
    {
        let red = redact_env_entry(entries[i].as_str());
        let ghost before = string_views(r@);
        r.push(red);
        proof {
            assert(all[i as int] == entries@[i as int]@);
            assert(all.take(i + 1) =~= all.take(i as int).push(all[i as int]));
            assert(string_views(r@) =~= before.push(red@));
        }
        assert(string_views(r@) =~= all.take(i + 1).map_values(|e: Seq<char>| spec_redact_env_entry(e)));
        i = i + 1;
    }
    assert(all.take(entries@.len() as int) =~= all);
    r
}

/// What a shown configuration has in place of a set password.
pub const REDACTED_PASSWORD: &'static str = "********";

/// A password as shown: masked when set, absent when not.
pub fn redact_password(password: &Option<String>) -> (r: Option<String>)
    ensures
        r is Some <==> password is Some,
        r matches Some(s) ==> s@ == REDACTED_PASSWORD@,
{
    match password {
        Some(_) => Some(owned(REDACTED_PASSWORD)),
        None => None,
    }
}

/// The configuration as shown to the user: the password masked and every container
/// environment value hidden; all other settings as they are.
pub fn redacted_config(config: Config) -> (c: Config)
    ensures
        c.auth_password is Some <==> config.auth_password is Some,
        c.auth_password matches Some(p) ==> p@ == REDACTED_PASSWORD@,
        string_views(c.container_env@) == string_views(config.container_env@).map_values(
            |e: Seq<char>| spec_redact_env_entry(e),
        ),
        opt_chars(c.auth_username) == opt_chars(config.auth_username),
        c.opencode_web_port == config.opencode_web_port,
        c.bind@ == config.bind@,
        c.bind_address@ == config.bind_address@,
        c.auto_restart == config.auto_restart,
        c.restart_retries == config.restart_retries,
        c.allow_unauthenticated_network == config.allow_unauthenticated_network,
        c.users@ == config.users@,
        c.cockpit_port == config.cockpit_port,
        c.cockpit_enabled == config.cockpit_enabled,
        c.image_source@ == config.image_source@,
        c.mounts@ == config.mounts@,
{
    let mut c = config;
    c.auth_password = redact_password(&c.auth_password);
    c.container_env = redact_env_entries(&c.container_env);
    c
}

// ---------------------------------------------------------------------------
// After the configuration is saved
// ---------------------------------------------------------------------------

/// What a non-interactive setup does with the service: a running service whose
/// configuration needs no restart is left alone; a running one is stopped first.
#[derive(Debug, Clone, Copy, PartialEq, Eq, Structural)]
pub enum AfterSetupStep {
    ShowRunning,
    Start,
    StopThenStart,
}

/// The step after a non-interactive setup.
pub fn after_setup_step(is_running: bool, config_changed: bool) -> (s: AfterSetupStep)
    ensures
        s == (if is_running && !config_changed {
            AfterSetupStep::ShowRunning
        } else if is_running {
            AfterSetupStep::StopThenStart
        } else {
            AfterSetupStep::Start
        }),
{
    if is_running && !config_changed {
        AfterSetupStep::ShowRunning
    } else if is_running {
        AfterSetupStep::StopThenStart
    } else {
        AfterSetupStep::Start
    }
}

/// Seconds a restart after setup waits for the service to stop.
pub const SETUP_RESTART_STOP_TIMEOUT_SECS: i64 = 60;

/// The lines after the wizard saved the configuration.
pub open spec fn spec_saved_lines() -> Seq<Seq<Piece>> {
    seq![
        plain_line(Seq::empty()),
        seq![("Success:"@, Some(Paint::GreenBold)), (" Configuration saved successfully!"@, None)],
        plain_line(Seq::empty()),
    ]
}

/// The lines after the wizard saved the configuration.
pub fn saved_lines() -> (r: Vec<String>)
    ensures
        shows_lines(string_views(r@), spec_saved_lines()),
{
    let lines: Vec<Vec<(&str, Option<Paint>)>> = vec![
        vec![("", None)],
        vec![("Success:", Some(Paint::GreenBold)), (" Configuration saved successfully!", None)],
        vec![("", None)],
    ];
    let r = render_lines(&lines);
    proof {
        reveal_strlit("");
    }
    assert(line_pieces(lines@) =~~= spec_saved_lines());
    r
}

/// The lines after the bootstrap configuration is saved.
pub open spec fn spec_bootstrap_saved_lines() -> Seq<Seq<Piece>> {
    seq![
        plain_line(Seq::empty()),
        seq![("Success:"@, Some(Paint::GreenBold)), (" Bootstrap configuration saved successfully!"@, None)],
        seq![("Unauthenticated network access is enabled."@, Some(Paint::Yellow))],
        plain_line(Seq::empty()),
    ]
}

/// The lines after the bootstrap configuration is saved.
pub fn bootstrap_saved_lines() -> (r: Vec<String>)
    ensures
        shows_lines(string_views(r@), spec_bootstrap_saved_lines()),
{
    let lines: Vec<Vec<(&str, Option<Paint>)>> = vec![
        vec![("", None)],
        vec![("Success:", Some(Paint::GreenBold)), (" Bootstrap configuration saved successfully!", None)],
        vec![("Unauthenticated network access is enabled.", Some(Paint::Yellow))],
        vec![("", None)],
    ];
    let r = render_lines(&lines);
    proof {
        reveal_strlit("");
    }
    assert(line_pieces(lines@) =~~= spec_bootstrap_saved_lines());
    r
}

/// The message of `setup --yes` when the configuration exists.
pub fn already_configured_line() -> (s: String)
    ensures
        is_painted(s@, "Configuration already set"@, Paint::Green),
{
    paint("Configuration already set", Paint::Green)
}

/// The URL line of a running service.
pub open spec fn spec_url_line(bind: Seq<char>, port: u16) -> Seq<Piece> {
    seq![
        ("URL: "@, None),
        ("http://"@ + (if bind == "0.0.0.0"@ || bind == "::"@ { "127.0.0.1"@ } else { bind }) + ":"@ + spec_decimal(
            port as nat,
        ), Some(Paint::Cyan)),
    ]
}

/// What is shown when setup leaves a running service alone: that it runs (a
/// message about `host`, dimmed), and its URL.
pub fn running_status_lines(bind: &str, port: u16, host: Option<&str>) -> (r: Vec<String>)
    ensures
        r@.len() == 3,
        exists|m: Seq<char>|
            is_painted(#[trigger] r@[0]@, m, Paint::Dim) && match host {
                Some(n) => exists|c: Seq<char>|
                    is_painted_then(c, n@, Paint::Cyan, Seq::empty()) && m == "["@ + c + "] "@
                        + "Service is already running"@,
                None => m == "Service is already running"@,
            },
        r@[1]@ == Seq::<char>::empty(),
        shows_pieces(r@[2]@, spec_url_line(bind@, port)),
{
    let msg = format_host_message(host, "Service is already running");
    let first = paint(msg.as_str(), Paint::Dim);
    let shown = display_bind_addr(bind);
    let mut url = owned("http://");
    append(&mut url, shown.as_str());
    append(&mut url, ":");
    let p = decimal_string(port as u64);
    append(&mut url, p.as_str());
    let v: Vec<(&str, Option<Paint>)> = vec![("URL: ", None), (url.as_str(), Some(Paint::Cyan))];
    assert(piece_views(v@) =~~= spec_url_line(bind@, port));
    let third = render(&v);
    let mut r: Vec<String> = Vec::new();
    r.push(first);
    r.push(String::new());
    r.push(third);
    proof {
        reveal_strlit("");
        assert(is_painted(r@[0]@, msg@, Paint::Dim));
    }
    r
}

/// The headline of the onboarding hint: a message about `host`, cyan and bold.
pub fn onboarding_headline(host: Option<&str>) -> (s: String)
    ensures
        exists|m: Seq<char>|
            is_painted(s@, m, Paint::CyanBold) && match host {
                Some(n) => exists|c: Seq<char>|
                    is_painted_then(c, n@, Paint::Cyan, Seq::empty()) && m == "["@ + c + "] "@
                        + "First-time onboarding"@,
                None => m == "First-time onboarding"@,
            },
{
    let msg = format_host_message(host, "First-time onboarding");
    let s = paint(msg.as_str(), Paint::CyanBold);
    assert(is_painted(s@, msg@, Paint::CyanBold));
    s
}

/// The onboarding lines after the service starts without users: a headline about
/// `host`, then the IOTP when it is active and known, or else how to find it.
pub open spec fn spec_onboarding_tail(s: IotpSnapshotView, allow_unauth: bool) -> Seq<Seq<Piece>> {
    if s.state == IotpState::ActiveUnused && s.otp is Some {
        seq![
            seq![("Initial One-Time Password (IOTP): "@, None), (s.otp->0, Some(Paint::GreenBold))],
            seq![
                ("Enter this in the web login first-time setup panel, then enroll a passkey for "@, None),
                ("opencoder"@, Some(Paint::Cyan)),
                ("."@, None),
            ],
        ]
    } else {
        let ls = spec_lines(spec_iotp_fallback_message(allow_unauth, s.detail));
        if ls.len() == 0 {
            Seq::empty()
        } else {
            seq![seq![(ls[0], Some(Paint::Yellow))]] + ls.skip(1).map_values(|l: Seq<char>| plain_line(l))
        }
    }
}

/// The onboarding lines after the headline: the IOTP, or how to find it.
pub fn onboarding_tail_lines(snapshot: &IotpSnapshot, allow_unauthenticated_network: bool) -> (r: Vec<String>)
    ensures
        shows_lines(string_views(r@), spec_onboarding_tail(snapshot@, allow_unauthenticated_network)),
{
    if snapshot.state == IotpState::ActiveUnused {
        if let Some(otp) = &snapshot.otp {
            let lines: Vec<Vec<(&str, Option<Paint>)>> = vec![
                vec![("Initial One-Time Password (IOTP): ", None), (otp.as_str(), Some(Paint::GreenBold))],
                vec![
                    ("Enter this in the web login first-time setup panel, then enroll a passkey for ", None),
                    ("opencoder", Some(Paint::Cyan)),
                    (".", None),
                ],
            ];
            let r = render_lines(&lines);
            assert(line_pieces(lines@) =~~= spec_onboarding_tail(snapshot@, allow_unauthenticated_network));
            return r;
        }
    }
    let message = build_iotp_fallback_message(
        allow_unauthenticated_network,
        match &snapshot.detail {
            Some(d) => Some(d.as_str()),
            None => None,
        },
    );
    let ls = lines(&chars_of(message.as_str()));
    let ghost all = spec_lines(message@);
    let mut texts: Vec<String> = Vec::new();
    let mut i: usize = 0;
    while i < ls.len()
        invariant
            i <= ls@.len(),
            views(ls@) == all,
            string_views(texts@) == all.take(i as int),
        decreases ls@.len() - i,
    {
        let t = string_of(&ls[i]);
        let ghost before = string_views(texts@);
        texts.push(t);
        proof {
            assert(all[i as int] == ls@[i as int]@);
            assert(string_views(texts@) =~= before.push(t@));
            assert(all.take(i + 1) =~= all.take(i as int).push(all[i as int]));
        }
        i = i + 1;
    }
    assert(all.take(ls@.len() as int) =~= all);
    let mut out: Vec<Vec<(&str, Option<Paint>)>> = Vec::new();
    if texts.len() == 0 {
        let r = render_lines(&out);
        assert(line_pieces(out@) =~~= spec_onboarding_tail(snapshot@, allow_unauthenticated_network));
        return r;
    }
    out.push(vec![(texts[0].as_str(), Some(Paint::Yellow))]);
    let mut j: usize = 1;
    while j < texts.len()
        invariant
            1 <= j <= texts@.len(),
            string_views(texts@) == all,
            out@.len() == j,
            piece_views(out@[0]@) == seq![(all[0], Some(Paint::Yellow))],
            forall|k: int| 1 <= k < j ==> piece_views((#[trigger] out@[k])@) == plain_line(all[k]),
        decreases texts@.len() - j,
    {
        out.push(vec![(texts[j].as_str(), None)]);
        proof {
            assert(all[j as int] == texts@[j as int]@);
            assert(piece_views(out@[j as int]@) =~~= plain_line(all[j as int]));
        }
        j = j + 1;
    }
    let r = render_lines(&out);
    proof {
        assert(all[0] == texts@[0]@);
        let expected = spec_onboarding_tail(snapshot@, allow_unauthenticated_network);
        let got = line_pieces(out@);
        assert(got.len() == expected.len());
        assert forall|k: int| 0 <= k < got.len() implies got[k] =~~= expected[k] by {
            if k == 0 {
            } else {
                assert(piece_views(out@[k]@) == plain_line(all[k]));
                assert(all.skip(1)[k - 1] == all[k]);
            }
        }
        assert(got =~~= expected);
    }
    r
}

} // verus!
