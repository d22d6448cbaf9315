//! Stopping the service: what is reported before, during and after.

use vstd::prelude::*;
use crate::text::{append, owned, push_decimal, push_signed_decimal, spec_decimal, spec_signed_decimal};
use crate::cli::format_host_message;
use crate::style::{is_painted_then, Paint};

verus! {

/// The texts of a stop with a progress spinner.
#[derive(Debug, Clone, Copy)]
pub struct StopSpinnerMessages<'a> {
    pub action_message: &'a str,
    pub update_label: &'a str,
    pub success_base_message: &'a str,
    pub failure_message: &'a str,
}

/// The messages of `occ stop`.
pub fn stop_spinner_messages(remove: bool) -> (m: StopSpinnerMessages<'static>)
    ensures
        m.action_message@ == "Stopping service..."@,
        m.update_label@ == "Stopping service"@,
        m.success_base_message@ == (if remove {
            "Service stopped and removed"@
        } else {
            "Service stopped"@
        }),
        m.failure_message@ == "Failed to stop"@,
{
    StopSpinnerMessages {
        action_message: "Stopping service...",
        update_label: "Stopping service",
        success_base_message: stop_base_message(remove),
        failure_message: "Failed to stop",
    }
}

/// What a successful stop reports, before timing details.
pub fn stop_base_message(remove: bool) -> (s: &'static str)
    ensures
        s@ == (if remove {
            "Service stopped and removed"@
        } else {
            "Service stopped"@
        }),
{
    if remove {
        "Service stopped and removed"
    } else {
        "Service stopped"
    }
}

/// The notice for a service that is not running: a missing container is already
/// removed; an existing one, when removal was asked, is already stopped.
pub fn not_running_notice(container_exists: bool, remove: bool) -> (r: Option<&'static str>)
    ensures
        match r {
            Some(s) => if !container_exists {
                s@ == "Service container is already removed"@
            } else {
                remove && s@ == "Service is already stopped"@
            },
            None => container_exists && !remove,
        },
{
    if !container_exists {
        return Some("Service container is already removed");
    }
    if remove {
        return Some("Service is already stopped");
    }
    None
}

/// The spinner text while stopping: the timeout, and on a terminal how to force the
/// stop.
pub fn stop_progress_message(update_label: &str, timeout_secs: i64, is_tty: bool) -> (s: String)
    ensures
        s@ == update_label@ + " ("@ + spec_signed_decimal(timeout_secs as int)
            + "s graceful timeout, then force kill)..."@ + (if is_tty {
            " Press Enter to force kill now."@
        } else {
            Seq::empty()
        }),
{
    let mut s = owned(update_label);
    append(&mut s, " (");
    push_signed_decimal(&mut s, timeout_secs);
    append(&mut s, "s graceful timeout, then force kill)...");
    if is_tty {
        append(&mut s, " Press Enter to force kill now.");
    }
    proof {
        if !is_tty {
            assert(s@ =~= update_label@ + " ("@ + spec_signed_decimal(timeout_secs as int)
                + "s graceful timeout, then force kill)..."@ + Seq::<char>::empty());
        }
    }
    s
}

/// The spinner text once the user asked to force the stop.
pub fn forcing_message(update_label: &str) -> (s: String)
    ensures
        s@ == update_label@ + " (forcing stop now)..."@,
{
    let mut s = owned(update_label);
    append(&mut s, " (forcing stop now)...");
    s
}

/// A finished stop: with the time it took, or, when that reached the timeout (the
/// timeout read as an unsigned number), that the container was killed; the flag
/// says whether to warn about the forced kill.
pub fn stop_success_message(success_base_message: &str, timeout_secs: i64, elapsed_secs: u64) -> (r: (
    String,
    bool,
))
    ensures
        r.1 == (elapsed_secs >= (timeout_secs as u64)),
        r.1 ==> r.0@ == success_base_message@ + " (force killed after "@ + spec_signed_decimal(
            timeout_secs as int,
        ) + "s timeout)"@,
        !r.1 ==> r.0@ == success_base_message@ + " ("@ + spec_decimal(elapsed_secs as nat) + "s)"@,
{
    let should_warn = elapsed_secs >= timeout_secs as u64;
    let mut s = owned(success_base_message);
    if should_warn {
        append(&mut s, " (force killed after ");
        push_signed_decimal(&mut s, timeout_secs);
        append(&mut s, "s timeout)");
    } else {
        append(&mut s, " (");
        push_decimal(&mut s, elapsed_secs);
        append(&mut s, "s)");
    }
    (s, should_warn)
}

/// A stop the user forced.
pub fn stop_success_message_forced(success_base_message: &str) -> (s: String)
    ensures
        s@ == success_base_message@ + " (force killed on request)"@,
{
    let mut s = owned(success_base_message);
    append(&mut s, " (force killed on request)");
    s
}

/// How a stop is waited for: without a spinner when quiet; on a terminal the user
/// may press Enter to force it.
#[derive(Debug, Clone, Copy, PartialEq, Eq, Structural)]
pub enum StopWait {
    Quiet,
    Wait,
    WaitOrEnter,
}

/// How to wait for a stop.
pub fn stop_wait_mode(quiet: bool, is_tty: bool) -> (w: StopWait)
    ensures
        w == (if quiet {
            StopWait::Quiet
        } else if is_tty {
            StopWait::WaitOrEnter
        } else {
            StopWait::Wait
        }),
{
    if quiet {
        StopWait::Quiet
    } else if is_tty {
        StopWait::WaitOrEnter
    } else {
        StopWait::Wait
    }
}

/// How a stop ended: by itself after some whole seconds, or forced on request;
/// and whether Docker reported success.
#[derive(Debug, Clone, Copy, PartialEq, Eq, Structural)]
pub enum StopOutcome {
    Graceful { succeeded: bool, elapsed_secs: u64 },
    Forced { succeeded: bool },
}

/// What the spinner ends with after a stop, and whether to add the note that the
/// container did not stop in time.
#[derive(Debug, Clone)]
pub struct StopReport {
    pub succeeded: bool,
    pub spinner_text: String,
    pub timeout_note: bool,
}

/// The note after a stop that reached its timeout.
pub const GRACEFUL_TIMEOUT_NOTE: &'static str = "Note: Container did not stop gracefully within timeout.";

/// The message a stop ends with (before the host is named): on failure the failure
/// message; after a forced stop that it was forced; otherwise the time it took or
/// that the timeout killed it.
pub open spec fn spec_stop_report_text(outcome: StopOutcome, base: Seq<char>, failure: Seq<char>, timeout_secs: i64) -> Seq<char> {
    match outcome {
        StopOutcome::Graceful { succeeded, elapsed_secs } => if !succeeded {
            failure
        } else if elapsed_secs >= (timeout_secs as u64) {
            base + " (force killed after "@ + spec_signed_decimal(timeout_secs as int) + "s timeout)"@
        } else {
            base + " ("@ + spec_decimal(elapsed_secs as nat) + "s)"@
        },
        StopOutcome::Forced { succeeded } => if succeeded {
            base + " (force killed on request)"@
        } else {
            failure
        },
    }
}

/// How the spinner of a stop ends.
pub fn stop_report(outcome: StopOutcome, host_name: Option<&str>, messages: &StopSpinnerMessages, timeout_secs: i64) -> (r: StopReport)
    ensures
        r.succeeded == (match outcome {
            StopOutcome::Graceful { succeeded, .. } => succeeded,
            StopOutcome::Forced { succeeded } => succeeded,
        }),
        match host_name {
            Some(n) => exists|c: Seq<char>|
                is_painted_then(c, n@, Paint::Cyan, Seq::empty()) && r.spinner_text@ == "["@ + c + "] "@
                    + spec_stop_report_text(
                    outcome,
                    messages.success_base_message@,
                    messages.failure_message@,
                    timeout_secs,
                ),
            None => r.spinner_text@ == spec_stop_report_text(
                outcome,
                messages.success_base_message@,
                messages.failure_message@,
                timeout_secs,
            ),
        },
        r.timeout_note == (outcome matches StopOutcome::Graceful { succeeded, elapsed_secs } && succeeded
            && elapsed_secs >= (timeout_secs as u64)),
{
    match outcome {
        StopOutcome::Graceful { succeeded, elapsed_secs } => {
            if !succeeded {
                return StopReport {
                    succeeded: false,
                    spinner_text: format_host_message(host_name, messages.failure_message),
                    timeout_note: false,
                };
            }
            let (message, warn) = stop_success_message(messages.success_base_message, timeout_secs, elapsed_secs);
            StopReport {
                succeeded: true,
                spinner_text: format_host_message(host_name, message.as_str()),
                timeout_note: warn,
            }
        },
        StopOutcome::Forced { succeeded } => {
            if !succeeded {
                return StopReport {
                    succeeded: false,
                    spinner_text: format_host_message(host_name, messages.failure_message),
                    timeout_note: false,
                };
            }
            let message = stop_success_message_forced(messages.success_base_message);
            StopReport {
                succeeded: true,
                spinner_text: format_host_message(host_name, message.as_str()),
                timeout_note: false,
            }
        },
    }
}

} // verus!
