//! Status output: durations, aligned labels and container timestamps.

use vstd::prelude::*;
use crate::text::{
    append, chars_of, contains, owned, push_char, push_decimal, push_padded_right,
    push_repeated, spec_contains, spec_decimal, spec_pad_right, string_of,
};

verus! {

/// Width of the label column in status output.
pub const STATUS_LABEL_WIDTH: usize = 15;

/// A duration in its two largest units: seconds below a minute, then minutes and
/// seconds, hours and minutes, days and hours; a zero second unit is left out.
pub open spec fn spec_format_duration(secs: nat) -> Seq<char> {
    if secs < 60 {
        spec_decimal(secs) + "s"@
    } else if secs / 60 < 60 {
        let mins = secs / 60;
        if secs % 60 > 0 {
            spec_decimal(mins) + "m"@ + " "@ + spec_decimal(secs % 60) + "s"@
        } else {
            spec_decimal(mins) + "m"@
        }
    } else if secs / 3600 < 24 {
        let hours = secs / 3600;
        let mins = (secs / 60) % 60;
        if mins > 0 {
            spec_decimal(hours) + "h"@ + " "@ + spec_decimal(mins) + "m"@
        } else {
            spec_decimal(hours) + "h"@
        }
    } else {
        let days = secs / 86400;
        let hours = (secs / 3600) % 24;
        if hours > 0 {
            spec_decimal(days) + "d"@ + " "@ + spec_decimal(hours) + "h"@
        } else {
            spec_decimal(days) + "d"@
        }
    }
}

fn two_units(a: u64, ua: &str, b: u64, ub: &str) -> (s: String)
    ensures
        s@ == (if b > 0 {
            spec_decimal(a as nat) + ua@ + " "@ + spec_decimal(b as nat) + ub@
        } else {
            spec_decimal(a as nat) + ua@
        }),
{
    let mut s = String::new();
    push_decimal(&mut s, a);
    append(&mut s, ua);
    if b > 0 {
        append(&mut s, " ");
        push_decimal(&mut s, b);
        append(&mut s, ub);
    }
    proof {
        assert(s@ =~= (if b > 0 {
            spec_decimal(a as nat) + ua@ + " "@ + spec_decimal(b as nat) + ub@
        } else {
            spec_decimal(a as nat) + ua@
        }));
    }
    s
}

/// Renders an uptime given in whole seconds.
pub fn format_duration(secs: u64) -> (s: String)
    ensures
        s@ == spec_format_duration(secs as nat),
{
    if secs < 60 {
        let mut s = String::new();
        push_decimal(&mut s, secs);
        append(&mut s, "s");
        assert(s@ =~= Seq::<char>::empty() + spec_decimal(secs as nat) + "s"@);
        return s;
    }
    let mins = secs / 60;
    if mins < 60 {
        return two_units(mins, "m", secs % 60, "s");
    }
    let hours = mins / 60;
    proof {
        vstd::arithmetic::div_mod::lemma_div_denominator(secs as int, 60, 60);
    }
    if hours < 24 {
        return two_units(hours, "h", mins % 60, "m");
    }
    proof {
        vstd::arithmetic::div_mod::lemma_div_denominator(secs as int, 3600, 24);
    }
    two_units(hours / 24, "d", hours % 24, "h")
}

/// A label padded to the label column.
pub fn format_label(label: &str) -> (s: String)
    ensures
        s@ == spec_pad_right(label@, STATUS_LABEL_WIDTH as nat),
{
    let mut s = String::new();
    push_padded_right(&mut s, label, STATUS_LABEL_WIDTH);
    assert(s@ =~= spec_pad_right(label@, STATUS_LABEL_WIDTH as nat));
    s
}

/// A status line: the padded label, a space and the value.
pub fn format_kv(label: &str, value: &str) -> (s: String)
    ensures
        s@ == spec_pad_right(label@, STATUS_LABEL_WIDTH as nat) + " "@ + value@,
{
    let mut s = format_label(label);
    append(&mut s, " ");
    append(&mut s, value);
    s
}

/// A continuation line: the value under the value column.
pub fn format_continuation(value: &str) -> (s: String)
    ensures
        s@ == Seq::new((STATUS_LABEL_WIDTH + 1) as nat, |i: int| ' ') + value@,
{
    let mut s = String::new();
    push_repeated(&mut s, ' ', STATUS_LABEL_WIDTH + 1);
    append(&mut s, value);
    assert(s@ =~= Seq::new((STATUS_LABEL_WIDTH + 1) as nat, |i: int| ' ') + value@);
    s
}

/// Docker omits fractional seconds when they are zero; the parser needs them, so
/// each `Z` becomes `.0Z` in a timestamp without a `.`.
pub open spec fn spec_with_fraction(ts: Seq<char>) -> Seq<char>
    decreases ts.len(),
{
    if ts.len() == 0 {
        Seq::empty()
    } else {
        let prev = spec_with_fraction(ts.drop_last());
        if ts.last() == 'Z' {
            prev + ".0Z"@
        } else {
            prev.push(ts.last())
        }
    }
}

/// The timestamp as handed to the RFC 3339 parser.
pub open spec fn spec_rfc3339_candidate(ts: Seq<char>) -> Seq<char> {
    if ts.contains('.') {
        ts
    } else {
        spec_with_fraction(ts)
    }
}

/// Prepares a Docker timestamp for the RFC 3339 parser.
pub fn rfc3339_candidate(ts: &str) -> (s: String)
    ensures
        s@ == spec_rfc3339_candidate(ts@),
{
    let c = chars_of(ts);
    let mut has_dot = false;
    let mut i: usize = 0;
    while i < c.len()
        invariant
            i <= c@.len(),
            c@ == ts@,
            has_dot == exists|j: int| 0 <= j < i && c@[j] == '.',
        decreases c@.len() - i,
    {
        if c[i] == '.' {
            has_dot = true;
        }
        i = i + 1;
    }
    if has_dot {
        return owned(ts);
    }
    let mut s = String::new();
    let mut k: usize = 0;
    while k < c.len()
        invariant
            k <= c@.len(),
            c@ == ts@,
            s@ == spec_with_fraction(c@.take(k as int)),
        decreases c@.len() - k,
    {
        proof {
            assert(c@.take(k + 1).drop_last() =~= c@.take(k as int));
        }
        if c[k] == 'Z' {
            append(&mut s, ".0Z");
        } else {
            push_char(&mut s, c[k]);
        }
        k = k + 1;
    }
    assert(c@.take(c@.len() as int) =~= c@);
    s
}

/// What `chrono` reads from an RFC 3339 timestamp, or `None` when it is not one:
/// the date and time as `%Y-%m-%d %H:%M:%S UTC` in the timestamp's own offset, the
/// same in UTC, the Unix seconds, and the nanoseconds within the second.
pub uninterp spec fn spec_rfc3339_parse(ts: Seq<char>) -> Option<(Seq<char>, Seq<char>, int, int)>;

/// The plain view of what `parse_rfc3339` hands back.
pub open spec fn parsed_view(p: (String, String, i64, u32)) -> (Seq<char>, Seq<char>, int, int) {
    (p.0@, p.1@, p.2 as int, p.3 as int)
}

/// Parses `ts` with `chrono::DateTime::parse_from_rfc3339`; of the result it renders
/// `format("%Y-%m-%d %H:%M:%S UTC")` in the parsed offset and after `with_timezone(&Utc)`,
/// and reads `timestamp()` and `timestamp_subsec_nanos()`. The contract names the
/// outcome as a function of the text; chrono's grammar and calendar are not restated.
#[verifier::external_body]
fn parse_rfc3339(ts: &str) -> (r: Option<(String, String, i64, u32)>)
    ensures
        match r {
            Some(p) => spec_rfc3339_parse(ts@) == Some(parsed_view(p)),
            None => spec_rfc3339_parse(ts@) is None,
        },
{
    match chrono::DateTime::parse_from_rfc3339(ts) {
        Ok(t) => Some((
            t.format("%Y-%m-%d %H:%M:%S UTC").to_string(),
            t.with_timezone(&chrono::Utc).format("%Y-%m-%d %H:%M:%S UTC").to_string(),
            t.timestamp(),
            t.timestamp_subsec_nanos(),
        )),
        Err(_) => None,
    }
}

/// Reads the clock with `SystemTime::now().duration_since(UNIX_EPOCH)`: the Unix
/// seconds and the nanoseconds within the second, or `None` when the clock reads
/// earlier than 1970. Of a reading only what `Duration` documents is stated (the
/// nanoseconds stay below one second); its value depends on the time.
#[verifier::external_body]
fn utc_now() -> (r: Option<(u64, u32)>)
    ensures
        r matches Some(t) ==> t.1 < 1_000_000_000,
{
    match std::time::SystemTime::now().duration_since(std::time::UNIX_EPOCH) {
        Ok(d) => Some((d.as_secs(), d.subsec_nanos())),
        Err(_) => None,
    }
}

/// A Docker timestamp as shown: its date and time in its own offset, or `None` when
/// it does not parse.
pub fn parse_timestamp_display(timestamp: &str) -> (r: Option<String>)
    ensures
        match spec_rfc3339_parse(spec_rfc3339_candidate(timestamp@)) {
            Some(p) => r matches Some(s) && s@ == p.0,
            None => r is None,
        },
{
    let candidate = rfc3339_candidate(timestamp);
    match parse_rfc3339(candidate.as_str()) {
        Some(p) => Some(p.0),
        None => None,
    }
}

/// The whole seconds from `started` to `now` (each as Unix seconds and nanoseconds),
/// or `None` when `now` lies before `started` or the seconds do not fit a `u64`.
pub open spec fn spec_elapsed_secs(started: (int, int), now: (int, int)) -> Option<nat> {
    let diff = (now.0 - started.0) * 1_000_000_000 + now.1 - started.1;
    if now.0 < started.0 || (now.0 == started.0 && now.1 < started.1) || diff < 0 {
        None
    } else if diff / 1_000_000_000 > u64::MAX {
        None
    } else {
        Some((diff / 1_000_000_000) as nat)
    }
}

/// How long a container started at `started_at` has run at the instant `now`, with
/// its start shown in UTC; `None` when the timestamp does not parse or lies ahead.
pub open spec fn spec_uptime_at(started_at: Seq<char>, now: (int, int)) -> Option<(nat, Seq<char>)> {
    match spec_rfc3339_parse(spec_rfc3339_candidate(started_at)) {
        None => None,
        Some(p) => match spec_elapsed_secs((p.2, p.3), now) {
            None => None,
            Some(secs) => Some((secs, p.1)),
        },
    }
}

/// The uptime of a container started at `started_at`, at the instant given by
/// `now_secs` and `now_nanos`.
pub fn uptime_at(started_at: &str, now_secs: i64, now_nanos: u32) -> (r: Option<(u64, String)>)
    ensures
        match r {
            Some(u) => spec_uptime_at(started_at@, (now_secs as int, now_nanos as int)) == Some(
                (u.0 as nat, u.1@),
            ),
            None => spec_uptime_at(started_at@, (now_secs as int, now_nanos as int)) is None,
        },
{
    let candidate = rfc3339_candidate(started_at);
    let parsed = parse_rfc3339(candidate.as_str());
    match parsed {
        None => None,
        Some(p) => {
            let (_local, utc, secs, nanos) = p;
            if now_secs < secs || (now_secs == secs && now_nanos < nanos) {
                return None;
            }
            let diff: i128 = (now_secs as i128 - secs as i128) * 1_000_000_000i128 + now_nanos as i128
                - nanos as i128;
            if diff < 0 {
                return None;
            }
            let whole: i128 = diff / 1_000_000_000i128;
            if whole > u64::MAX as i128 {
                return None;
            }
            Some((whole as u64, utc))
        },
    }
}

/// The uptime of a container started at `started_at`, read against the clock. Whatever
/// the clock reads, the start shown is the parsed timestamp in UTC, and an unparsable
/// timestamp gives `None`.
pub fn parse_uptime(started_at: &str) -> (r: Option<(u64, String)>)
    ensures
        spec_rfc3339_parse(spec_rfc3339_candidate(started_at@)) is None ==> r is None,
        r matches Some(u) ==> spec_rfc3339_parse(spec_rfc3339_candidate(started_at@)) matches Some(p)
            && u.1@ == p.1,
        exists|now: (int, int)| #[trigger] spec_uptime_at(started_at@, now) == (match r {
            Some(u) => Some((u.0 as nat, u.1@)),
            None => None,
        }),
{
    let now = utc_now();
    let (now_secs, now_nanos) = match now {
        Some((secs, nanos)) if secs <= i64::MAX as u64 => (secs as i64, nanos),
        _ => {
            proof {
                match spec_rfc3339_parse(spec_rfc3339_candidate(started_at@)) {
                    Some(p) => {
                        assert(spec_uptime_at(started_at@, (p.2 - 1, 0)) is None);
                    },
                    None => {
                        assert(spec_uptime_at(started_at@, (0, 0)) is None);
                    },
                }
            }
            return None;
        },
    };
    let r = uptime_at(started_at, now_secs, now_nanos);
    assert(spec_uptime_at(started_at@, (now_secs as int, now_nanos as int)) == (match r {
        Some(u) => Some((u.0 as nat, u.1@)),
        None => None,
    }));
    r
}

/// The commit link shown for a known commit.
pub fn commit_link(commit: &str) -> (r: Option<String>)
    ensures
        r is None <==> commit@ == "unknown"@,
        r matches Some(s) ==> s@ == "https://github.com/pRizz/opencode/commit/"@ + commit@,
{
    if crate::text::str_eq(commit, "unknown") {
        return None;
    }
    let mut s = owned("https://github.com/pRizz/opencode/commit/");
    append(&mut s, commit);
    Some(s)
}

/// The label of the configuration path: remote status shows the local file.
pub fn config_path_label(remote: bool) -> (s: &'static str)
    ensures
        s@ == (if remote { "Local Config:"@ } else { "Config:"@ }),
{
    if remote {
        "Local Config:"
    } else {
        "Config:"
    }
}

/// Where the image came from, from the saved image state.
pub fn image_source_text(source: &str, registry: Option<&str>) -> (s: String)
    ensures
        s@ == (if source@ == "prebuilt"@ {
            match registry {
                Some(r) => "prebuilt from "@ + r@,
                None => "prebuilt"@,
            }
        } else {
            "built from source"@
        }),
{
    if crate::text::str_eq(source, "prebuilt") {
        match registry {
            Some(r) => {
                let mut s = owned("prebuilt from ");
                append(&mut s, r);
                s
            },
            None => owned("prebuilt"),
        }
    } else {
        owned("built from source")
    }
}

} // verus!
