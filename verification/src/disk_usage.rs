//! Disk usage reports: byte sizes in binary units, deltas and report lines.

use vstd::prelude::*;
use vstd::arithmetic::div_mod::{lemma_div_denominator, lemma_fundamental_div_mod};
use crate::text::{append, owned, push_char, push_decimal, spec_decimal, spec_pad_left};

verus! {

/// Docker's disk usage by category, in bytes (`None` where Docker reported nothing).
#[derive(Clone, Copy, Debug)]
pub struct DiskUsageReport {
    pub images: Option<i64>,
    pub containers: Option<i64>,
    pub volumes: Option<i64>,
    pub build_cache: Option<i64>,
    pub total: Option<i64>,
}

/// The host's disk space summed over its disks, in bytes.
#[derive(Clone, Copy, Debug)]
pub struct HostDiskReport {
    pub total: u64,
    pub available: u64,
    pub used: u64,
}

// ---------------------------------------------------------------------------
// Byte sizes
// ---------------------------------------------------------------------------

/// `a / b` rounded to the nearest integer, ties to the even quotient.
pub open spec fn spec_round_half_even(a: nat, b: nat) -> nat {
    let q = a / b;
    let r = a % b;
    if 2 * r > b || (2 * r == b && q % 2 == 1) {
        q + 1
    } else {
        q
    }
}

/// The power of two by which `v` is divided to keep 53 significant bits.
pub open spec fn f64_scale(v: nat) -> nat
    decreases v,
{
    if v < 0x20000000000000 {
        1
    } else {
        2 * f64_scale(v / 2)
    }
}

/// The value of `v as f64`: `v` rounded to 53 significant bits, ties to even.
pub open spec fn spec_f64_of(v: nat) -> nat {
    let s = f64_scale(v);
    spec_round_half_even(v, s) * s
}

pub open spec fn pow1024(k: nat) -> nat
    decreases k,
{
    if k == 0 {
        1
    } else {
        1024 * pow1024((k - 1) as nat)
    }
}

/// How many times a size of `x` bytes is divided by 1024 for display: as long as it
/// stays at least 1024, at most five times (up to PB).
pub open spec fn spec_unit_index(x: nat) -> nat {
    if x >= pow1024(5) {
        5
    } else if x >= pow1024(4) {
        4
    } else if x >= pow1024(3) {
        3
    } else if x >= pow1024(2) {
        2
    } else if x >= pow1024(1) {
        1
    } else {
        0
    }
}

pub open spec fn spec_unit_name(k: nat) -> Seq<char> {
    if k == 0 {
        "B"@
    } else if k == 1 {
        "KB"@
    } else if k == 2 {
        "MB"@
    } else if k == 3 {
        "GB"@
    } else if k == 4 {
        "TB"@
    } else {
        "PB"@
    }
}

/// A value in hundredths rendered with two decimals.
pub open spec fn spec_two_decimals(cents: nat) -> Seq<char> {
    spec_decimal(cents / 100) + "."@ + spec_pad_left(spec_decimal(cents % 100), 2, '0')
}

/// The display form of a byte count (`format_bytes_u64`): below 1 KB the exact count
/// and `B`; otherwise the float value divided by 1024 per unit step, rounded to two
/// decimals (ties to even), and the unit.
pub open spec fn spec_format_bytes(v: nat) -> Seq<char> {
    let x = spec_f64_of(v);
    let k = spec_unit_index(x);
    if k == 0 {
        spec_decimal(v) + " B"@
    } else {
        spec_two_decimals(spec_round_half_even(x * 100, pow1024(k))) + " "@ + spec_unit_name(k)
    }
}

proof fn lemma_div_ge(x: nat, d: nat, c: nat)
    requires
        d > 0,
        x / d >= c,
    ensures
        d * c <= x,
{
    lemma_fundamental_div_mod(x as int, d as int);
    assert(d * (x / d) >= d * c) by (nonlinear_arith)
        requires
            x / d >= c,
            d > 0,
    ;
}

/// The value of `v as f64`, exactly.
fn f64_value(v: u64) -> (r: u128)
    ensures
        r == spec_f64_of(v as nat),
        r < 0x40000000000000000,
{
    let vv = v as u128;
    let mut p: u128 = 1;
    while vv / p >= 0x20000000000000
        invariant
            p >= 1,
            p <= vv + 1,
            vv == v as u128,
            f64_scale(v as nat) == p * f64_scale((vv / p) as nat),
        decreases vv - p + 1,
    {
        proof {
            let pi = p as int;
            let vi = vv as int;
            lemma_div_ge(vv as nat, p as nat, 2);
            lemma_div_denominator(vi, pi, 2);
            assert(f64_scale((vi / pi) as nat) == 2 * f64_scale(((vi / pi) / 2) as nat));
            let f = f64_scale((vi / (pi * 2)) as nat);
            assert(pi * (2 * f) == (pi * 2) * f) by (nonlinear_arith);
        }
        p = p * 2;
    }
    let q = vv / p;
    let r = vv % p;
    proof {
        assert(f64_scale((vv / p) as nat) == 1);
        let fs = f64_scale((vv / p) as nat);
        assert(p * fs == p) by (nonlinear_arith)
            requires
                fs == 1,
        ;
        assert(f64_scale(v as nat) == p);
        lemma_fundamental_div_mod(vv as int, p as int);
    }
    let q2 = if 2 * r > p || (2 * r == p && q % 2 == 1) {
        q + 1
    } else {
        q
    };
    proof {
        assert(p * q + r == vv);
        assert(q2 * p <= vv + p) by (nonlinear_arith)
            requires
                q2 <= q + 1,
                p * q + r == vv,
                r >= 0,
        ;
    }
    q2 * p
}

fn pow1024_exec(k: u32) -> (r: u128)
    requires
        k <= 5,
    ensures
        r == pow1024(k as nat),
        r <= 0x4000000000000,
{
    reveal_with_fuel(pow1024, 6);
    if k == 0 {
        1
    } else if k == 1 {
        1024
    } else if k == 2 {
        1048576
    } else if k == 3 {
        1073741824
    } else if k == 4 {
        1099511627776
    } else {
        1125899906842624
    }
}

fn unit_name(k: u32) -> (s: &'static str)
    requires
        k <= 5,
    ensures
        s@ == spec_unit_name(k as nat),
{
    if k == 0 {
        "B"
    } else if k == 1 {
        "KB"
    } else if k == 2 {
        "MB"
    } else if k == 3 {
        "GB"
    } else if k == 4 {
        "TB"
    } else {
        "PB"
    }
}

/// Render a byte count with binary units (`B`, `KB`, ..., `PB`).
pub fn format_bytes_u64(value: u64) -> (s: String)
    ensures
        s@ == spec_format_bytes(value as nat),
{
    let x = f64_value(value);
    let mut k: u32 = 0;
    while k < 5 && x >= pow1024_exec(k + 1)
        invariant
            k <= 5,
            forall|j: nat| 1 <= j <= k ==> x >= pow1024(j),
        decreases 5 - k,
    {
        k = k + 1;
    }
    proof {
        reveal_with_fuel(pow1024, 6);
        assert(k == spec_unit_index(x as nat));
    }
    let mut s = String::new();
    if k == 0 {
        push_decimal(&mut s, value);
        append(&mut s, " B");
        assert(s@ =~= spec_format_bytes(value as nat));
        return s;
    }
    let d = pow1024_exec(k);
    let cents = round_half_even(x * 100, d);
    push_two_decimals(&mut s, cents);
    append(&mut s, " ");
    append(&mut s, unit_name(k));
    assert(s@ =~= spec_format_bytes(value as nat));
    s
}

/// `a / d` rounded to the nearest integer, ties to even.
fn round_half_even(a: u128, d: u128) -> (r: u128)
    requires
        1024 <= d <= 0x4000000000000,
        a < 0x40000000000000000 * 100,
    ensures
        r == spec_round_half_even(a as nat, d as nat),
        r <= a / 1024 + 1,
{
    let q = a / d;
    let r = a % d;
    proof {
        vstd::arithmetic::div_mod::lemma_div_is_ordered_by_denominator(a as int, 1024, d as int);
    }
    if 2 * r > d || (2 * r == d && q % 2 == 1) {
        q + 1
    } else {
        q
    }
}

/// Appends a value in hundredths with two decimals.
fn push_two_decimals(s: &mut String, cents: u128)
    requires
        cents / 100 <= u64::MAX,
    ensures
        final(s)@ == old(s)@ + spec_two_decimals(cents as nat),
{
    let whole = (cents / 100) as u64;
    let frac = (cents % 100) as u64;
    push_decimal(s, whole);
    push_char(s, '.');
    if frac < 10 {
        push_char(s, '0');
    }
    push_decimal(s, frac);
    proof {
        reveal_strlit(".");
        assert(whole as nat == cents as nat / 100);
        assert(frac as nat == cents as nat % 100);
        let f = spec_decimal(frac as nat);
        if frac < 10 {
            assert(f.len() == 1);
            assert(spec_pad_left(f, 2, '0') =~= seq!['0'] + f);
        } else {
            assert(f.len() == 2) by {
                assert(spec_decimal((frac / 10) as nat).len() == 1);
            }
        }
        assert(s@ =~= old(s)@ + spec_two_decimals(cents as nat));
    }
}

// ---------------------------------------------------------------------------
// Values, deltas and reports
// ---------------------------------------------------------------------------

/// A signed byte count: `unknown` when negative.
pub open spec fn spec_format_bytes_i64(v: int) -> Seq<char> {
    if v < 0 {
        "unknown"@
    } else {
        spec_format_bytes(v as nat)
    }
}

pub open spec fn spec_usage_value(v: Option<i64>) -> Seq<char> {
    match v {
        Some(x) => spec_format_bytes_i64(x as int),
        None => "unknown"@,
    }
}

pub open spec fn spec_usage_value_u64(v: Option<u64>) -> Seq<char> {
    match v {
        Some(x) => spec_format_bytes(x as nat),
        None => "unknown"@,
    }
}

/// A signed difference of byte counts: its sign, then its magnitude.
pub open spec fn spec_delta(after: int, before: int) -> Seq<char> {
    if after >= before {
        "+"@ + spec_format_bytes((after - before) as nat)
    } else {
        "-"@ + spec_format_bytes((before - after) as nat)
    }
}

/// Render a signed byte count; negative values are `unknown`.
pub fn format_bytes_i64(value: i64) -> (s: String)
    ensures
        s@ == spec_format_bytes_i64(value as int),
{
    if value < 0 {
        return owned("unknown");
    }
    format_bytes_u64(value as u64)
}

fn format_usage_value(value: Option<i64>) -> (s: String)
    ensures
        s@ == spec_usage_value(value),
{
    match value {
        Some(v) => format_bytes_i64(v),
        None => owned("unknown"),
    }
}

fn format_usage_value_u64(value: Option<u64>) -> (s: String)
    ensures
        s@ == spec_usage_value_u64(value),
{
    match value {
        Some(v) => format_bytes_u64(v),
        None => owned("unknown"),
    }
}

/// The change between two signed byte counts, when both are known.
pub fn format_delta_i64(after: Option<i64>, before: Option<i64>) -> (d: Option<String>)
    requires
        match (after, before) {
            (Some(a), Some(b)) => i64::MIN <= a - b <= i64::MAX,
            _ => true,
        },
    ensures
        d.is_some() <==> (after.is_some() && before.is_some()),
        d.is_some() ==> d.unwrap()@ == spec_delta(after.unwrap() as int, before.unwrap() as int),
{
    match (after, before) {
        (Some(a), Some(b)) => {
            let delta = a - b;
            let mut s = String::new();
            if delta >= 0 {
                push_char(&mut s, '+');
            } else {
                push_char(&mut s, '-');
            }
            let magnitude: u64 = if delta >= 0 {
                delta as u64
            } else if delta == i64::MIN {
                9223372036854775808u64
            } else {
                (-delta) as u64
            };
            let rendered = format_bytes_u64(magnitude);
            append(&mut s, rendered.as_str());
            proof {
                reveal_strlit("+");
                reveal_strlit("-");
            }
            assert(s@ =~= spec_delta(a as int, b as int));
            Some(s)
        },
        _ => None,
    }
}

/// The change between two unsigned byte counts, when both are known.
pub fn format_delta_u64(after: Option<u64>, before: Option<u64>) -> (d: Option<String>)
    ensures
        d.is_some() <==> (after.is_some() && before.is_some()),
        d.is_some() ==> d.unwrap()@ == spec_delta(after.unwrap() as int, before.unwrap() as int),
{
    match (after, before) {
        (Some(a), Some(b)) => {
            let mut s = String::new();
            let rendered = if a >= b {
                push_char(&mut s, '+');
                format_bytes_u64(a - b)
            } else {
                push_char(&mut s, '-');
                format_bytes_u64(b - a)
            };
            append(&mut s, rendered.as_str());
            proof {
                reveal_strlit("+");
                reveal_strlit("-");
            }
            assert(s@ =~= spec_delta(a as int, b as int));
            Some(s)
        },
        _ => None,
    }
}

/// The lines of a Docker disk usage report, with the change of the total against a
/// baseline when both totals are known.
pub open spec fn spec_disk_usage_lines(
    stage: Seq<char>,
    report: DiskUsageReport,
    baseline: Option<DiskUsageReport>,
) -> Seq<Seq<char>> {
    let base = seq![
        "Docker disk usage ("@ + stage + "):"@,
        "  Images:      "@ + spec_usage_value(report.images),
        "  Containers:  "@ + spec_usage_value(report.containers),
        "  Volumes:     "@ + spec_usage_value(report.volumes),
        "  Build cache: "@ + spec_usage_value(report.build_cache),
        "  Total:       "@ + spec_usage_value(report.total),
    ];
    match (report.total, baseline) {
        (Some(after), Some(b)) => match b.total {
            Some(before) => base.push("  Delta:       "@ + spec_delta(after as int, before as int)),
            None => base,
        },
        _ => base,
    }
}

/// The lines of a host disk report, with the change of used space against a baseline.
pub open spec fn spec_host_disk_lines(
    stage: Seq<char>,
    report: HostDiskReport,
    baseline: Option<HostDiskReport>,
) -> Seq<Seq<char>> {
    let base = seq![
        "Host disk ("@ + stage + "):"@,
        "  Total:       "@ + spec_format_bytes(report.total as nat),
        "  Available:   "@ + spec_format_bytes(report.available as nat),
        "  Used:        "@ + spec_format_bytes(report.used as nat),
    ];
    match baseline {
        Some(b) => base.push("  Delta used:  "@ + spec_delta(report.used as int, b.used as int)),
        None => base,
    }
}

fn labelled(label: &str, value: &str) -> (s: String)
    ensures
        s@ == label@ + value@,
{
    let mut s = owned(label);
    append(&mut s, value);
    s
}

/// The lines that report Docker's disk usage at a stage of an operation.
pub fn format_disk_usage_report(
    stage: &str,
    report: DiskUsageReport,
    baseline: Option<DiskUsageReport>,
) -> (lines: Vec<String>)
    requires
        match (report.total, baseline) {
            (Some(a), Some(b)) => match b.total {
                Some(c) => i64::MIN <= a - c <= i64::MAX,
                None => true,
            },
            _ => true,
        },
    ensures
        lines@.map_values(|l: String| l@) == spec_disk_usage_lines(stage@, report, baseline),
{
    let mut title = owned("Docker disk usage (");
    append(&mut title, stage);
    append(&mut title, "):");
    let mut lines: Vec<String> = Vec::new();
    lines.push(title);
    let v = format_usage_value(report.images);
    lines.push(labelled("  Images:      ", v.as_str()));
    let v = format_usage_value(report.containers);
    lines.push(labelled("  Containers:  ", v.as_str()));
    let v = format_usage_value(report.volumes);
    lines.push(labelled("  Volumes:     ", v.as_str()));
    let v = format_usage_value(report.build_cache);
    lines.push(labelled("  Build cache: ", v.as_str()));
    let v = format_usage_value(report.total);
    lines.push(labelled("  Total:       ", v.as_str()));
    let before = match baseline {
        Some(b) => b.total,
        None => None,
    };
    if let Some(delta) = format_delta_i64(report.total, before) {
        lines.push(labelled("  Delta:       ", delta.as_str()));
    }
    assert(lines@.map_values(|l: String| l@) =~= spec_disk_usage_lines(stage@, report, baseline));
    lines
}

/// The lines that report the host's disk space at a stage of an operation.
pub fn format_host_disk_report(
    stage: &str,
    report: HostDiskReport,
    baseline: Option<HostDiskReport>,
) -> (lines: Vec<String>)
    ensures
        lines@.map_values(|l: String| l@) == spec_host_disk_lines(stage@, report, baseline),
{
    let mut title = owned("Host disk (");
    append(&mut title, stage);
    append(&mut title, "):");
    let mut lines: Vec<String> = Vec::new();
    lines.push(title);
    let v = format_usage_value_u64(Some(report.total));
    lines.push(labelled("  Total:       ", v.as_str()));
    let v = format_usage_value_u64(Some(report.available));
    lines.push(labelled("  Available:   ", v.as_str()));
    let v = format_usage_value_u64(Some(report.used));
    lines.push(labelled("  Used:        ", v.as_str()));
    let before = match baseline {
        Some(b) => Some(b.used),
        None => None,
    };
    if let Some(delta) = format_delta_u64(Some(report.used), before) {
        lines.push(labelled("  Delta used:  ", delta.as_str()));
    }
    assert(lines@.map_values(|l: String| l@) =~= spec_host_disk_lines(stage@, report, baseline));
    lines
}

/// Docker's usage by category; the total is their sum when all four are known.
pub fn build_disk_usage_report(
    images: Option<i64>,
    containers: Option<i64>,
    volumes: Option<i64>,
    build_cache: Option<i64>,
) -> (r: DiskUsageReport)
    requires
        match (images, containers, volumes, build_cache) {
            (Some(a), Some(b), Some(c), Some(d)) => {
                &&& i64::MIN <= a + b <= i64::MAX
                &&& i64::MIN <= a + b + c <= i64::MAX
                &&& i64::MIN <= a + b + c + d <= i64::MAX
            },
            _ => true,
        },
    ensures
        r.images == images,
        r.containers == containers,
        r.volumes == volumes,
        r.build_cache == build_cache,
        r.total.is_some() <==> (images.is_some() && containers.is_some() && volumes.is_some()
            && build_cache.is_some()),
        r.total.is_some() ==> r.total.unwrap() == images.unwrap() + containers.unwrap()
            + volumes.unwrap() + build_cache.unwrap(),
{
    let total = match (images, containers, volumes, build_cache) {
        (Some(a), Some(b), Some(c), Some(d)) => Some(a + b + c + d),
        _ => None,
    };
    DiskUsageReport { images, containers, volumes, build_cache, total }
}

/// `a + b`, or `u64::MAX` where the sum does not fit.
pub open spec fn sat_add(a: int, b: int) -> int {
    if a + b > u64::MAX {
        u64::MAX as int
    } else {
        a + b
    }
}

/// The saturating sums of the first `n` disks' total and available space.
pub open spec fn sum_disks(disks: Seq<(u64, u64)>, n: int) -> (int, int)
    decreases n,
{
    if n <= 0 {
        (0, 0)
    } else {
        let prev = sum_disks(disks, n - 1);
        (sat_add(prev.0, disks[n - 1].0 as int), sat_add(prev.1, disks[n - 1].1 as int))
    }
}

/// The host's disk space from each disk's `(total, available)` space: `None` without
/// disks; sums saturate at `u64::MAX`, and used space is total minus available, at
/// least zero.
pub fn build_host_disk_report(disks: &Vec<(u64, u64)>) -> (r: Option<HostDiskReport>)
    ensures
        r.is_none() <==> disks@.len() == 0,
        r matches Some(h) ==> {
            let sums = sum_disks(disks@, disks@.len() as int);
            &&& h.total == sums.0
            &&& h.available == sums.1
            &&& h.used == (if sums.0 >= sums.1 { sums.0 - sums.1 } else { 0 })
        },
{
    if disks.len() == 0 {
        return None;
    }
    let mut total: u64 = 0;
    let mut available: u64 = 0;
    let mut i: usize = 0;
    while i < disks.len()
        invariant
            i <= disks@.len(),
            total as int == sum_disks(disks@, i as int).0,
            available as int == sum_disks(disks@, i as int).1,
        decreases disks@.len() - i,
    {
        let (t, a) = disks[i];
        total = total.saturating_add(t);
        available = available.saturating_add(a);
        i = i + 1;
    }
    let used = total.saturating_sub(available);
    Some(HostDiskReport { total, available, used })
}

} // verus!
