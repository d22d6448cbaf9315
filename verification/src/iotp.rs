//! The initial one-time password (IOTP): reading the bootstrap helper's status
//! report and showing it.

use vstd::prelude::*;
use crate::style::{is_painted, paint, Paint};
use crate::text::{
    append, chars_of, eq_str, lines, owned, push_signed_decimal, spec_lines, spec_signed_decimal,
    spec_trim, string_of, string_views, trim, views,
};

verus! {

/// The helper binary inside the container that reports the IOTP state.
pub const BOOTSTRAP_HELPER_PATH: &'static str = "/usr/local/bin/opencode-cloud-bootstrap";

/// A shell pipeline that recovers the IOTP from the logs when the helper cannot.
pub const IOTP_FALLBACK_COMMAND: &'static str = "occ logs | grep -F \"INITIAL ONE-TIME PASSWORD (IOTP): \" | tail -n1 | sed 's/.*INITIAL ONE-TIME PASSWORD (IOTP): //'";

/// The state of the initial one-time password.
#[derive(Debug, Clone, Copy, PartialEq, Eq, Structural)]
pub enum IotpState {
    ActiveUnused,
    InactiveUsersConfigured,
    InactiveCompleted,
    InactiveNotInitialized,
    ErrorInvalidState,
    ErrorHelper,
    Unavailable,
}

/// What is known of the IOTP: its state, how to describe it, the password while it
/// is active, and details of errors.
#[derive(Debug, Clone)]
pub struct IotpSnapshot {
    pub state: IotpState,
    pub state_label: String,
    pub otp: Option<String>,
    pub detail: Option<String>,
}

pub struct IotpSnapshotView {
    pub state: IotpState,
    pub state_label: Seq<char>,
    pub otp: Option<Seq<char>>,
    pub detail: Option<Seq<char>>,
}

pub open spec fn opt_view(o: Option<String>) -> Option<Seq<char>> {
    match o {
        Some(s) => Some(s@),
        None => None,
    }
}

impl View for IotpSnapshot {
    type V = IotpSnapshotView;

    open spec fn view(&self) -> IotpSnapshotView {
        IotpSnapshotView {
            state: self.state,
            state_label: self.state_label@,
            otp: opt_view(self.otp),
            detail: opt_view(self.detail),
        }
    }
}

pub open spec fn snap(
    state: IotpState,
    label: Seq<char>,
    otp: Option<Seq<char>>,
    detail: Option<Seq<char>>,
) -> IotpSnapshotView {
    IotpSnapshotView { state, state_label: label, otp, detail }
}

impl IotpSnapshot {
    /// The IOTP cannot be determined, for the reason in `detail`.
    pub fn unavailable(detail: String) -> (s: Self)
        ensures
            s@ == snap(IotpState::Unavailable, "unavailable"@, None, Some(detail@)),
    {
        IotpSnapshot {
            state: IotpState::Unavailable,
            state_label: owned("unavailable"),
            otp: None,
            detail: Some(detail),
        }
    }
}

/// The fields of the helper's JSON report that decide the state (each `None` when
/// absent or of another JSON type).
#[derive(Debug, Clone)]
pub struct HelperPayload {
    pub ok: Option<bool>,
    pub code: Option<String>,
    pub message: Option<String>,
    pub active: Option<bool>,
    pub otp: Option<String>,
    pub reason: Option<String>,
}

pub struct HelperPayloadView {
    pub ok: Option<bool>,
    pub code: Option<Seq<char>>,
    pub message: Option<Seq<char>>,
    pub active: Option<bool>,
    pub otp: Option<Seq<char>>,
    pub reason: Option<Seq<char>>,
}

impl View for HelperPayload {
    type V = HelperPayloadView;

    open spec fn view(&self) -> HelperPayloadView {
        HelperPayloadView {
            ok: self.ok,
            code: opt_view(self.code),
            message: opt_view(self.message),
            active: self.active,
            otp: opt_view(self.otp),
            reason: opt_view(self.reason),
        }
    }
}

/// The report's fields as `serde_json` reads `text`: `None` when `text` is not one
/// JSON value.
pub uninterp spec fn spec_helper_payload(text: Seq<char>) -> Option<HelperPayloadView>;

/// Parses `text` with `serde_json::from_str::<serde_json::Value>` and picks the
/// report's fields with `Value::get` and `as_bool` / `as_str`. The contract names the
/// outcome as a function of the text alone; what JSON `serde_json` accepts is not
/// restated here.
#[verifier::external_body]
fn parse_helper_json(text: &str) -> (r: Option<HelperPayload>)
    ensures
        r matches Some(p) ==> spec_helper_payload(text@) == Some(p@),
        r is None ==> spec_helper_payload(text@) is None,
{
    match serde_json::from_str::<serde_json::Value>(text) {
        Ok(v) => Some(HelperPayload {
            ok: v.get("ok").and_then(serde_json::Value::as_bool),
            code: v.get("code").and_then(serde_json::Value::as_str).map(str::to_owned),
            message: v.get("message").and_then(serde_json::Value::as_str).map(str::to_owned),
            active: v.get("active").and_then(serde_json::Value::as_bool),
            otp: v.get("otp").and_then(serde_json::Value::as_str).map(str::to_owned),
            reason: v.get("reason").and_then(serde_json::Value::as_str).map(str::to_owned),
        }),
        Err(_) => None,
    }
}

/// The report in the helper's output: the whole output when it is JSON, else the
/// last non-blank line that is (each line trimmed).
pub open spec fn spec_last_json_line(ls: Seq<Seq<char>>) -> Option<HelperPayloadView>
    decreases ls.len(),
{
    if ls.len() == 0 {
        None
    } else {
        let line = spec_trim(ls.last());
        if line.len() > 0 && spec_helper_payload(line) is Some {
            spec_helper_payload(line)
        } else {
            spec_last_json_line(ls.drop_last())
        }
    }
}

pub open spec fn spec_json_payload(raw: Seq<char>) -> Option<HelperPayloadView> {
    if spec_helper_payload(raw) is Some {
        spec_helper_payload(raw)
    } else {
        spec_last_json_line(spec_lines(raw))
    }
}

/// Finds the JSON report in the helper's output.
pub fn parse_json_payload(raw: &str) -> (r: Result<HelperPayload, String>)
    ensures
        r matches Ok(p) ==> spec_json_payload(raw@) == Some(p@),
        r matches Err(e) ==> spec_json_payload(raw@) is None && e@
            == "failed to parse bootstrap helper JSON output"@,
{
    if let Some(p) = parse_helper_json(raw) {
        return Ok(p);
    }
    let ls = lines(&chars_of(raw));
    let ghost all = views(ls@);
    assert(all.take(ls@.len() as int) =~= all);
    let mut i: usize = ls.len();
    while i > 0
        invariant
            i <= ls@.len(),
            all == views(ls@),
            all == spec_lines(raw@),
            spec_helper_payload(raw@) is None,
            spec_last_json_line(all) == spec_last_json_line(all.take(i as int)),
        decreases i,
    {
        let t = trim(&ls[i - 1]);
        proof {
            assert(all.take(i as int).last() == all[i - 1]);
            assert(all[i - 1] == ls@[i - 1]@);
            assert(all.take(i as int).drop_last() =~= all.take(i - 1));
        }
        if t.len() > 0 {
            let line = string_of(&t);
            if let Some(p) = parse_helper_json(line.as_str()) {
                return Ok(p);
            }
        }
        i = i - 1;
    }
    Err(owned("failed to parse bootstrap helper JSON output"))
}

/// The IOTP state a helper report gives.
pub open spec fn spec_snapshot(p: HelperPayloadView) -> IotpSnapshotView {
    let ok = match p.ok {
        Some(b) => b,
        None => false,
    };
    let active = match p.active {
        Some(b) => b,
        None => false,
    };
    if !ok {
        let code = match p.code {
            Some(c) => c,
            None => "unknown"@,
        };
        let message = match p.message {
            Some(m) => m,
            None => "unknown helper error"@,
        };
        snap(IotpState::ErrorHelper, "error"@, None, Some(code + ": "@ + message))
    } else if active {
        let otp = match p.otp {
            Some(o) => spec_trim(o),
            None => Seq::empty(),
        };
        if otp.len() > 0 {
            snap(IotpState::ActiveUnused, "unused (active)"@, Some(otp), None)
        } else {
            snap(
                IotpState::ErrorInvalidState,
                "error (invalid bootstrap state)"@,
                None,
                Some("bootstrap helper reported active state without an OTP value"@),
            )
        }
    } else {
        let reason = match p.reason {
            Some(r) => r,
            None => "unknown"@,
        };
        if reason == "user_exists"@ {
            snap(IotpState::InactiveUsersConfigured, "inactive (users configured)"@, None, None)
        } else if reason == "completed"@ {
            snap(IotpState::InactiveCompleted, "used (completed)"@, None, None)
        } else if reason == "not_initialized"@ {
            snap(IotpState::InactiveNotInitialized, "inactive (not initialized)"@, None, None)
        } else if reason == "invalid_state"@ || reason == "invalid_secret"@ {
            snap(
                IotpState::ErrorInvalidState,
                "error (invalid bootstrap state)"@,
                None,
                Some("bootstrap helper reported reason: "@ + reason),
            )
        } else {
            snap(
                IotpState::Unavailable,
                "unavailable"@,
                None,
                Some("bootstrap helper reported reason: "@ + reason),
            )
        }
    }
}

fn snapshot(state: IotpState, state_label: &str, otp: Option<String>, detail: Option<String>) -> (s:
    IotpSnapshot)
    ensures
        s@ == snap(state, state_label@, opt_view(otp), opt_view(detail)),
{
    IotpSnapshot { state, state_label: owned(state_label), otp, detail }
}

fn concat3(a: &str, b: &str, c: &str) -> (s: String)
    ensures
        s@ == a@ + b@ + c@,
{
    let mut s = owned(a);
    append(&mut s, b);
    append(&mut s, c);
    s
}

fn concat(a: &str, b: &str) -> (s: String)
    ensures
        s@ == a@ + b@,
{
    let mut s = owned(a);
    append(&mut s, b);
    s
}

pub(crate) fn or_default(v: &Option<String>, default: &str) -> (s: String)
    ensures
        s@ == (match *v {
            Some(x) => x@,
            None => default@,
        }),
{
    match v {
        Some(x) => x.clone(),
        None => owned(default),
    }
}

/// The IOTP state from the helper's report.
pub fn snapshot_from_payload(p: &HelperPayload) -> (s: IotpSnapshot)
    ensures
        s@ == spec_snapshot(p@),
{
    let ok = match p.ok {
        Some(b) => b,
        None => false,
    };
    if !ok {
        let code = or_default(&p.code, "unknown");
        let message = or_default(&p.message, "unknown helper error");
        let detail = concat3(code.as_str(), ": ", message.as_str());
        return snapshot(IotpState::ErrorHelper, "error", None, Some(detail));
    }
    let active = match p.active {
        Some(b) => b,
        None => false,
    };
    if active {
        let otp = match &p.otp {
            Some(o) => trim(&chars_of(o.as_str())),
            None => Vec::new(),
        };
        if otp.len() > 0 {
            return snapshot(IotpState::ActiveUnused, "unused (active)", Some(string_of(&otp)), None);
        }
        return snapshot(
            IotpState::ErrorInvalidState,
            "error (invalid bootstrap state)",
            None,
            Some(owned("bootstrap helper reported active state without an OTP value")),
        );
    }
    let reason = or_default(&p.reason, "unknown");
    let r = reason.as_str();
    if crate::text::str_eq(r, "user_exists") {
        snapshot(IotpState::InactiveUsersConfigured, "inactive (users configured)", None, None)
    } else if crate::text::str_eq(r, "completed") {
        snapshot(IotpState::InactiveCompleted, "used (completed)", None, None)
    } else if crate::text::str_eq(r, "not_initialized") {
        snapshot(IotpState::InactiveNotInitialized, "inactive (not initialized)", None, None)
    } else if crate::text::str_eq(r, "invalid_state") || crate::text::str_eq(r, "invalid_secret") {
        let detail = concat("bootstrap helper reported reason: ", r);
        snapshot(
            IotpState::ErrorInvalidState,
            "error (invalid bootstrap state)",
            None,
            Some(detail),
        )
    } else {
        let detail = concat("bootstrap helper reported reason: ", r);
        snapshot(IotpState::Unavailable, "unavailable", None, Some(detail))
    }
}

/// The IOTP state from the helper's standard output: it must hold a JSON report.
pub open spec fn spec_parse_snapshot_output(output: Seq<char>) -> Result<IotpSnapshotView, Seq<char>> {
    let t = spec_trim(output);
    if t.len() == 0 {
        Err("bootstrap helper returned empty output"@)
    } else {
        match spec_json_payload(t) {
            Some(p) => Ok(spec_snapshot(p)),
            None => Err("failed to parse bootstrap helper JSON output"@),
        }
    }
}

/// Reads the IOTP state from the helper's output.
pub fn parse_snapshot_output(output: &str) -> (r: Result<IotpSnapshot, String>)
    ensures
        match (r, spec_parse_snapshot_output(output@)) {
            (Ok(s), Ok(v)) => s@ == v,
            (Err(e), Err(f)) => e@ == f,
            _ => false,
        },
{
    let t = trim(&chars_of(output));
    if t.len() == 0 {
        return Err(owned("bootstrap helper returned empty output"));
    }
    let trimmed = string_of(&t);
    let payload = parse_json_payload(trimmed.as_str())?;
    Ok(snapshot_from_payload(&payload))
}

/// The IOTP state after running the helper: its exit status and output.
pub open spec fn spec_snapshot_from_run(status: i64, output: Seq<char>) -> IotpSnapshotView {
    if status != 0 {
        let t = spec_trim(output);
        let detail = if t.len() == 0 {
            "bootstrap helper exited with status "@ + spec_signed_decimal(status as int)
        } else {
            "bootstrap helper exited with status "@ + spec_signed_decimal(status as int) + ": "@ + t
        };
        snap(IotpState::Unavailable, "unavailable"@, None, Some(detail))
    } else {
        match spec_parse_snapshot_output(output) {
            Ok(s) => s,
            Err(e) => snap(IotpState::Unavailable, "unavailable"@, None, Some(e)),
        }
    }
}

/// The IOTP state from a completed run of the helper.
pub fn snapshot_from_helper_run(status: i64, output: &str) -> (s: IotpSnapshot)
    ensures
        s@ == spec_snapshot_from_run(status, output@),
{
    if status != 0 {
        let t = trim(&chars_of(output));
        let mut detail = owned("bootstrap helper exited with status ");
        push_signed_decimal(&mut detail, status);
        if t.len() > 0 {
            append(&mut detail, ": ");
            let rest = string_of(&t);
            append(&mut detail, rest.as_str());
        }
        return IotpSnapshot::unavailable(detail);
    }
    match parse_snapshot_output(output) {
        Ok(s) => s,
        Err(e) => IotpSnapshot::unavailable(e),
    }
}

/// The IOTP state when the helper could not be run at all.
pub fn snapshot_from_query_error(error: &str) -> (s: IotpSnapshot)
    ensures
        s@ == snap(
            IotpState::Unavailable,
            "unavailable"@,
            None,
            Some("failed to query bootstrap helper: "@ + error@),
        ),
{
    IotpSnapshot::unavailable(concat("failed to query bootstrap helper: ", error))
}

// ---------------------------------------------------------------------------
// Showing the IOTP
// ---------------------------------------------------------------------------

/// The note added where unauthenticated network access is allowed.
pub open spec fn unauth_note() -> Seq<char> {
    "allow_unauthenticated_network=true may skip IOTP generation by design."@
}

/// The IOTP lines of the status output: the state (unavailable while the container
/// is stopped), the password only while running and active, and the details, with a
/// note where unauthenticated network access is allowed.
pub open spec fn spec_render_iotp(
    s: IotpSnapshotView,
    running: bool,
    allow_unauth: bool,
) -> (Seq<char>, Seq<char>, Option<Seq<char>>) {
    let state = if running {
        s.state_label
    } else {
        "unavailable (container not running)"@
    };
    let value = if running && s.state == IotpState::ActiveUnused {
        match s.otp {
            Some(o) => o,
            None => "not available"@,
        }
    } else {
        "not available"@
    };
    let detail = if allow_unauth {
        match s.detail {
            Some(d) => Some(d + " "@ + unauth_note()),
            None => Some(unauth_note()),
        }
    } else {
        s.detail
    };
    (state, value, detail)
}

/// The state, password and detail texts of the IOTP in status output; a password
/// that cannot be shown reads `not available`, dimmed.
pub fn render_iotp_status(snapshot: &IotpSnapshot, running: bool, allow_unauthenticated_network: bool) -> (r: (
    String,
    String,
    Option<String>,
))
    ensures
        r.0@ == spec_render_iotp(snapshot@, running, allow_unauthenticated_network).0,
        opt_view(r.2) == spec_render_iotp(snapshot@, running, allow_unauthenticated_network).2,
        if running && snapshot.state == IotpState::ActiveUnused {
            r.1@ == spec_render_iotp(snapshot@, running, allow_unauthenticated_network).1
        } else {
            is_painted(r.1@, "not available"@, Paint::Dim)
        },
{
    let state_text = if running {
        snapshot.state_label.clone()
    } else {
        owned("unavailable (container not running)")
    };
    let value_text = if running && snapshot.state == IotpState::ActiveUnused {
        or_default(&snapshot.otp, "not available")
    } else {
        paint("not available", Paint::Dim)
    };
    let note = "allow_unauthenticated_network=true may skip IOTP generation by design.";
    let detail = if allow_unauthenticated_network {
        match &snapshot.detail {
            Some(existing) => Some(concat3(existing.as_str(), " ", note)),
            None => Some(owned(note)),
        }
    } else {
        snapshot.detail.clone()
    };
    (state_text, value_text, detail)
}

/// Whether the password text is shown dimmed: unless the container runs and the
/// IOTP is active.
pub fn iotp_value_dimmed(snapshot: &IotpSnapshot, running: bool) -> (b: bool)
    ensures
        b == !(running && snapshot.state == IotpState::ActiveUnused),
{
    !(running && snapshot.state == IotpState::ActiveUnused)
}

/// How to reset the IOTP; exposed bind addresses need `--force`.
pub fn iotp_reset_hint_lines(non_localhost_bind: bool) -> (lines: Vec<String>)
    ensures
        string_views(lines@) == (if non_localhost_bind {
            seq!["Reset IOTP: occ reset iotp"@, "Use --force for exposed bind configurations."@]
        } else {
            seq!["Reset IOTP: occ reset iotp"@]
        }),
{
    let mut lines: Vec<String> = Vec::new();
    lines.push(owned("Reset IOTP: occ reset iotp"));
    if non_localhost_bind {
        lines.push(owned("Use --force for exposed bind configurations."));
    }
    assert(string_views(lines@) =~= (if non_localhost_bind {
        seq!["Reset IOTP: occ reset iotp"@, "Use --force for exposed bind configurations."@]
    } else {
        seq!["Reset IOTP: occ reset iotp"@]
    }));
    lines
}

/// The command in a reset hint line (`Reset IOTP: <command>`), shown highlighted.
pub fn iotp_hint_command(line: &str) -> (r: Option<String>)
    ensures
        r is Some <==> "Reset IOTP: "@.is_prefix_of(line@),
        r matches Some(c) ==> line@ == "Reset IOTP: "@ + c@,
{
    let cs = chars_of(line);
    if crate::text::starts_with(&cs, "Reset IOTP: ") {
        proof {
            reveal_strlit("Reset IOTP: ");
        }
        let rest = crate::text::string_of_range(&cs, 12, cs.len());
        assert(line@ =~= "Reset IOTP: "@ + rest@);
        Some(rest)
    } else {
        None
    }
}

/// The message shown when setup cannot read the IOTP: how to find it in the logs,
/// the reason, and the note on unauthenticated network access.
pub open spec fn spec_iotp_fallback_message(allow_unauth: bool, reason: Option<Seq<char>>) -> Seq<char> {
    let base = "Could not retrieve the Initial One-Time Password (IOTP) from bootstrap state.\nFetch logs with:\n  occ logs\nTry extracting IOTP with:\n  "@
        + IOTP_FALLBACK_COMMAND@;
    let with_reason = match reason {
        Some(r) => base + "\nReason: "@ + r,
        None => base,
    };
    if allow_unauth {
        with_reason + "\nNote: allow_unauthenticated_network=true may skip IOTP generation by design."@
    } else {
        with_reason
    }
}

/// Builds the setup message for an IOTP that could not be read.
pub fn build_iotp_fallback_message(allow_unauthenticated_network: bool, reason_detail: Option<&str>) -> (s: String)
    ensures
        s@ == spec_iotp_fallback_message(
            allow_unauthenticated_network,
            match reason_detail {
                Some(r) => Some(r@),
                None => None,
            },
        ),
{
    let mut message = owned(
        "Could not retrieve the Initial One-Time Password (IOTP) from bootstrap state.\nFetch logs with:\n  occ logs\nTry extracting IOTP with:\n  ",
    );
    append(&mut message, IOTP_FALLBACK_COMMAND);
    if let Some(reason) = reason_detail {
        append(&mut message, "\nReason: ");
        append(&mut message, reason);
    }
    if allow_unauthenticated_network {
        append(&mut message, "\nNote: allow_unauthenticated_network=true may skip IOTP generation by design.");
    }
    message
}

} // verus!
