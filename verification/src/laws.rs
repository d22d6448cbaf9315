//! Properties that hold across the library's operations, stated over the same
//! specifications as the operations' contracts and proved from them.

use vstd::prelude::*;
use crate::update::spec_opencode_candidate;
use crate::logs::spec_journalctl;
use crate::config::{spec_format_value, ConfigValue};
use crate::text::spec_ascii_lowercase;
use crate::cli::{spec_resolve_runtime, RuntimeChoice, RuntimeMode};
use crate::update::{spec_image_update_steps, ImageUpdateStep};
use crate::maintenance::{spec_reset_action, spec_reset_plan, ResetAction, ResetContainerArgs, ResetStep};
use crate::config::{sets_key, spec_env_key, spec_env_remove, spec_env_set, without_key};
use crate::iotp::{spec_helper_payload, spec_parse_snapshot_output, spec_render_iotp, IotpSnapshotView, IotpState};
use crate::mounts::{
    entry_specs, is_last_of_target, spec_mount_has_match, spec_mounts_equal, other_target_entries, other_target_pred, positions,
    same_target_mounts, spec_host_paths_match, spec_normalized, spec_upsert, targets,
    targets_pred, ConfigMountView, MountView, UpsertOutcomeView,
};
use crate::sandbox::{spec_sandbox_request, SandboxRequestView, spec_auto_instance_id, spec_valid_instance_id, is_lower_or_digit};
use crate::text::{
    spec_is_whitespace, spec_lines, spec_split_by, spec_trim, spec_trim_end, spec_trim_start,
    lemma_split_by_nonempty,
};
use crate::text::{spec_digit_char, spec_hex, spec_pad_left, spec_decimal, spec_digits_value, spec_parse_unsigned};
use vstd::utf8::{encode_utf8, is_ascii_chars, is_ascii_chars_encode_utf8};
use crate::runtime::{
    spec_broker_health, spec_mismatched, spec_stale_warning_lines, AssetProbeOutcome,
    BrokerHealthStatus, RuntimeAssetDrift,
};

verus! {

// ---------------------------------------------------------------------------
// Mount normalization
// ---------------------------------------------------------------------------

proof fn lemma_filter_increasing(p: Seq<int>, pred: spec_fn(int) -> bool)
    requires
        forall|a: int, b: int| 0 <= a < b < p.len() ==> p[a] < p[b],
    ensures
        forall|a: int, b: int|
            0 <= a < b < p.filter(pred).len() ==> p.filter(pred)[a] < p.filter(pred)[b],
        forall|a: int|
            0 <= a < p.filter(pred).len() ==> exists|k: int| 0 <= k < p.len() && #[trigger] p.filter(pred)[a] == p[k],
    decreases p.len(),
{
    reveal(Seq::filter);
    if p.len() > 0 {
        let q = p.drop_last();
        lemma_filter_increasing(q, pred);
        let f = p.filter(pred);
        let g = q.filter(pred);
        assert forall|a: int| 0 <= a < f.len() implies exists|k: int| 0 <= k < p.len() && #[trigger] f[a] == p[k] by {
            if a < g.len() {
                let k = choose|k: int| 0 <= k < q.len() && g[a] == q[k];
                assert(f[a] == p[k]);
            } else {
                assert(f[a] == p[p.len() - 1]);
            }
        }
        assert forall|a: int, b: int| 0 <= a < b < f.len() implies f[a] < f[b] by {
            if b < g.len() {
                assert(f[a] == g[a] && f[b] == g[b]);
            } else {
                let k = choose|k: int| 0 <= k < q.len() && g[a] == q[k];
                assert(f[a] == p[k]);
                assert(f[b] == p[p.len() - 1]);
            }
        }
    }
}

proof fn lemma_last_of_target_exists(s: Seq<MountView>, i: int)
    requires
        0 <= i < s.len(),
    ensures
        exists|k: int| i <= k < s.len() && s[k].target == s[i].target && is_last_of_target(s, k),
    decreases s.len() - i,
{
    if !is_last_of_target(s, i) {
        let k = choose|k: int| i < k < s.len() && s[k].target == s[i].target;
        lemma_last_of_target_exists(s, k);
        let m = choose|m: int| k <= m < s.len() && s[m].target == s[k].target && is_last_of_target(s, m);
        assert(i <= m < s.len() && s[m].target == s[i].target && is_last_of_target(s, m));
    }
}

/// Every mount in `n` is a mount of `s` that is the last one for its target.
pub open spec fn all_kept_are_last(s: Seq<MountView>, n: Seq<MountView>) -> bool {
    forall|j: int| 0 <= j < n.len() ==> kept_is_last(s, #[trigger] n[j])
}

/// `m` is a mount of `s` that is the last one given for its target.
pub open spec fn kept_is_last(s: Seq<MountView>, m: MountView) -> bool {
    exists|k: int| 0 <= k < s.len() && is_last_of_target(s, k) && m == #[trigger] s[k]
}

/// Some mount of `n` has target `t`.
pub open spec fn has_target(n: Seq<MountView>, t: Seq<char>) -> bool {
    exists|j: int| 0 <= j < n.len() && #[trigger] n[j].target == t
}

/// Normalizing mounts keeps one mount per container target: no two kept mounts
/// share a target, every target given is still mounted, and the mount kept for a
/// target is the last one given for it.
pub proof fn law_normalize_keeps_last_per_target(s: Seq<MountView>)
    ensures
        forall|a: int, b: int|
            0 <= a < b < spec_normalized(s).len() ==> spec_normalized(s)[a].target
                != spec_normalized(s)[b].target,
        forall|i: int| 0 <= i < s.len() ==> has_target(spec_normalized(s), #[trigger] s[i].target),
        all_kept_are_last(s, spec_normalized(s)),
{
    let pos = positions(s.len());
    let pred = |i: int| is_last_of_target(s, i);
    let q = pos.filter(pred);
    lemma_filter_increasing(pos, pred);
    broadcast use vstd::seq_lib::group_filter_ensures;
    let n = spec_normalized(s);
    assert(n == q.map_values(|i: int| s[i]));
    assert forall|j: int| 0 <= j < n.len() implies kept_is_last(s, #[trigger] n[j]) by {
        let k = choose|k: int| 0 <= k < pos.len() && #[trigger] q[j] == pos[k];
        assert(pred(q[j]));
        assert(n[j] == s[q[j]]);
    }
    assert forall|a: int, b: int| 0 <= a < b < n.len() implies n[a].target != n[b].target by {
        assert(pred(q[a]));
        assert(q[a] < q[b]);
        let kb = choose|k: int| 0 <= k < pos.len() && #[trigger] q[b] == pos[k];
        assert(n[a] == s[q[a]] && n[b] == s[q[b]]);
    }
    assert forall|i: int| 0 <= i < s.len() implies has_target(n, #[trigger] s[i].target) by {
        lemma_last_of_target_exists(s, i);
        let k = choose|k: int| i <= k < s.len() && s[k].target == s[i].target && is_last_of_target(s, k);
        assert(pos[k] == k);
        assert(pred(pos[k]));
        assert(q.contains(pos[k]));
        let j = choose|j: int| 0 <= j < q.len() && q[j] == k;
        assert(n[j] == s[k]);
    }
}

proof fn lemma_filter_none_target(x: Seq<ConfigMountView>, t: Seq<char>)
    requires
        forall|i: int| 0 <= i < x.len() ==> !targets(#[trigger] x[i], t),
    ensures
        x.filter(targets_pred(t)) =~= Seq::<ConfigMountView>::empty(),
        x.filter(other_target_pred(t)) =~= x,
    decreases x.len(),
{
    reveal_with_fuel(Seq::filter, 1);
    if x.len() > 0 {
        let y = x.drop_last();
        assert forall|i: int| 0 <= i < y.len() implies !targets(#[trigger] y[i], t) by {
            assert(y[i] == x[i]);
        }
        lemma_filter_none_target(y, t);
        assert(x =~= y.push(x.last()));
        y.lemma_filter_push(x.last(), targets_pred(t));
        y.lemma_filter_push(x.last(), other_target_pred(t));
    }
}

/// Adding a mount replaces every configured mount for the same container target:
/// the list afterwards holds the other entries followed by the new one, exactly one
/// mount remains for the target, and adding the same mount again reports it as
/// already configured and changes nothing.
pub proof fn law_mount_add_replaces_target(es: Seq<ConfigMountView>, spec: Seq<char>, m: MountView)
    ensures
        ({
            let after = spec_upsert(es, spec, m).0;
            let es2 = other_target_entries(es, m.target).push(ConfigMountView { spec, parsed: Some(m) });
            spec_upsert(es, spec, m).1 !is AlreadyConfigured ==> {
                &&& entry_specs(es2) == after
                &&& same_target_mounts(es2, m.target) == seq![m]
                &&& spec_upsert(es2, spec, m) == (after, UpsertOutcomeView::AlreadyConfigured)
            }
        }),
        spec_upsert(es, spec, m).1 is AlreadyConfigured ==> {
            &&& spec_upsert(es, spec, m).0 == entry_specs(es)
            &&& same_target_mounts(es, m.target) == seq![m]
        },
{
    broadcast use vstd::seq_lib::group_filter_ensures;
    let t = m.target;
    let x = other_target_entries(es, t);
    let new_entry = ConfigMountView { spec, parsed: Some(m) };
    let es2 = x.push(new_entry);
    assert forall|i: int| 0 <= i < x.len() implies !targets(#[trigger] x[i], t) by {
        assert(other_target_pred(t)(x[i]));
    }
    lemma_filter_none_target(x, t);
    x.lemma_filter_push(new_entry, targets_pred(t));
    x.lemma_filter_push(new_entry, other_target_pred(t));
    assert(es2.filter(targets_pred(t)) =~= seq![new_entry]);
    assert(es2.filter(other_target_pred(t)) =~= x);
    assert(same_target_mounts(es2, t) =~= seq![m]);
    assert(other_target_entries(es2, t) =~= x);
    assert(entry_specs(es2) =~= entry_specs(x).push(spec));
    let exact_pred = |y: MountView| y.host == m.host && y.read_only == m.read_only;
    reveal_with_fuel(Seq::filter, 2);
    assert(seq![m].drop_last() =~= Seq::<MountView>::empty());
    assert(seq![m].filter(exact_pred) =~= seq![m]);
    let same = same_target_mounts(es, t);
    if same.filter(exact_pred).len() == 1 && same.len() == 1 {
        let y = same[0];
        assert(same =~= seq![y]);
        assert(same.drop_last() =~= Seq::<MountView>::empty());
        assert(exact_pred(y));
        let f = es.filter(targets_pred(t));
        assert(f.len() == 1);
        assert(targets_pred(t)(f[0]));
        assert(y == f[0].parsed->0);
        assert(y == m);
    }
}

proof fn lemma_same_multiset_contains(a: Seq<MountView>, b: Seq<MountView>, x: MountView)
    requires
        a.to_multiset() == b.to_multiset(),
        a.contains(x),
    ensures
        b.contains(x),
        a.len() == b.len(),
{
    broadcast use vstd::seq_lib::group_to_multiset_ensures;
    assert(a.to_multiset().count(x) > 0);
    assert(b.to_multiset().count(x) > 0);
    a.to_multiset_ensures();
    b.to_multiset_ensures();
}

proof fn lemma_mounts_equal_one_way(
    cur: Seq<MountView>,
    cur2: Seq<MountView>,
    conf: Seq<MountView>,
    conf2: Seq<MountView>,
)
    requires
        cur2.to_multiset() == cur.to_multiset(),
        conf2.to_multiset() == conf.to_multiset(),
        spec_mounts_equal(cur, conf),
    ensures
        spec_mounts_equal(cur2, conf2),
{
    broadcast use vstd::seq_lib::group_to_multiset_ensures;
    cur.to_multiset_ensures();
    cur2.to_multiset_ensures();
    conf.to_multiset_ensures();
    conf2.to_multiset_ensures();
    assert forall|i: int| 0 <= i < conf2.len() implies spec_mount_has_match(#[trigger] conf2[i], cur2) by {
        let c = conf2[i];
        assert(conf2.contains(c));
        lemma_same_multiset_contains(conf2, conf, c);
        let k = choose|k: int| 0 <= k < conf.len() && conf[k] == c;
        assert(spec_mount_has_match(conf[k], cur));
        let j = choose|j: int|
            0 <= j < cur.len() && (#[trigger] cur[j]).target == c.target && cur[j].read_only
                == c.read_only && spec_host_paths_match(cur[j].host, c.host);
        let m = cur[j];
        assert(cur.contains(m));
        lemma_same_multiset_contains(cur, cur2, m);
        let j2 = choose|j2: int| 0 <= j2 < cur2.len() && cur2[j2] == m;
        assert(cur2[j2].target == c.target);
    }
}

/// Comparing a container's bind mounts with the configured ones ignores order: any
/// reordering of either list gives the same answer.
pub proof fn law_mounts_equal_ignores_order(
    cur: Seq<MountView>,
    cur2: Seq<MountView>,
    conf: Seq<MountView>,
    conf2: Seq<MountView>,
)
    requires
        cur2.to_multiset() == cur.to_multiset(),
        conf2.to_multiset() == conf.to_multiset(),
    ensures
        spec_mounts_equal(cur2, conf2) == spec_mounts_equal(cur, conf),
{
    if spec_mounts_equal(cur, conf) {
        lemma_mounts_equal_one_way(cur, cur2, conf, conf2);
    }
    if spec_mounts_equal(cur2, conf2) {
        lemma_mounts_equal_one_way(cur2, cur, conf2, conf);
    }
}

/// A configured host path always matches itself.
pub proof fn law_host_path_matches_itself(p: Seq<char>)
    ensures
        spec_host_paths_match(p, p),
{
}

// ---------------------------------------------------------------------------
// Container environment variables
// ---------------------------------------------------------------------------

proof fn lemma_filter_idempotent(x: Seq<Seq<char>>, pred: spec_fn(Seq<char>) -> bool)
    ensures
        x.filter(pred).filter(pred) == x.filter(pred),
    decreases x.len(),
{
    reveal(Seq::filter);
    if x.len() > 0 {
        lemma_filter_idempotent(x.drop_last(), pred);
        let f = x.drop_last().filter(pred);
        if pred(x.last()) {
            f.lemma_filter_push(x.last(), pred);
        }
    }
}

proof fn lemma_take_then_char(entry: Seq<char>, k: Seq<char>, p: int)
    requires
        0 <= p < entry.len(),
        entry[p] == '=',
        k == entry.take(p),
    ensures
        (k + seq!['=']).is_prefix_of(entry),
{
    assert(k + seq!['='] =~= entry.subrange(0, p + 1));
}

proof fn lemma_first_equals_exists(entry: Seq<char>)
    requires
        exists|i: int| 0 <= i < entry.len() && entry[i] == '=',
    ensures
        exists|i: int|
            0 <= i < entry.len() && entry[i] == '=' && forall|j: int| 0 <= j < i ==> entry[j] != '=',
    decreases entry.len(),
{
    let i0 = choose|i: int| 0 <= i < entry.len() && entry[i] == '=';
    let pre = entry.take(i0);
    if exists|i: int| 0 <= i < pre.len() && pre[i] == '=' {
        lemma_first_equals_exists(pre);
        let m = choose|i: int|
            0 <= i < pre.len() && pre[i] == '=' && forall|j: int| 0 <= j < i ==> pre[j] != '=';
        assert(entry[m] == '=' && forall|j: int| 0 <= j < m ==> entry[j] != '=') by {
            assert forall|j: int| 0 <= j < m implies entry[j] != '=' by {
                assert(pre[j] == entry[j]);
            }
        }
    } else {
        assert forall|j: int| 0 <= j < i0 implies entry[j] != '=' by {
            assert(pre[j] == entry[j]);
        }
    }
}

proof fn lemma_key_of_entry(entry: Seq<char>, k: Seq<char>)
    requires
        spec_env_key(entry) == Some(k),
    ensures
        sets_key(entry, k),
{
    assert(exists|i: int| 0 <= i < entry.len() && entry[i] == '=');
    lemma_first_equals_exists(entry);
    let p = choose|i: int|
        0 <= i < entry.len() && entry[i] == '=' && forall|j: int| 0 <= j < i ==> entry[j] != '=';
    lemma_take_then_char(entry, k, p);
    assert("="@ == seq!['=']) by {
        reveal_strlit("=");
    }
}

/// `config env set` leaves exactly one entry for the key, the new one, last; setting
/// the same entry again changes nothing; and removing the key afterwards leaves the
/// entries that did not set it before.
pub proof fn law_env_set_then_remove(entries: Seq<Seq<char>>, env_var: Seq<char>)
    requires
        spec_env_set(entries, env_var) is Ok,
    ensures
        ({
            let w = spec_env_set(entries, env_var)->Ok_0;
            let k = spec_env_key(env_var)->0;
            &&& w.last() == env_var
            &&& sets_key(w.last(), k)
            &&& forall|i: int| 0 <= i < w.len() - 1 ==> !sets_key(#[trigger] w[i], k)
            &&& spec_env_set(w, env_var) == Ok::<Seq<Seq<char>>, Seq<char>>(w)
            &&& spec_env_remove(w, k) == Ok::<Seq<Seq<char>>, Seq<char>>(without_key(entries, k))
        }),
{
    let k = spec_env_key(env_var)->0;
    let pred = |e: Seq<char>| !sets_key(e, k);
    let base = without_key(entries, k);
    let w = base.push(env_var);
    assert(spec_env_set(entries, env_var) == Ok::<Seq<Seq<char>>, Seq<char>>(w));
    lemma_key_of_entry(env_var, k);
    broadcast use vstd::seq_lib::group_filter_ensures;
    assert forall|i: int| 0 <= i < w.len() - 1 implies !sets_key(#[trigger] w[i], k) by {
        assert(w[i] == base[i]);
        assert(pred(base[i]));
    }
    base.lemma_filter_push(env_var, pred);
    lemma_filter_idempotent(entries, pred);
    assert(without_key(w, k) == base);
    assert(spec_env_set(w, env_var) == Ok::<Seq<Seq<char>>, Seq<char>>(w));
    assert(sets_key(w[w.len() - 1], k));
    assert(spec_env_remove(w, k) == Ok::<Seq<Seq<char>>, Seq<char>>(base));
}

// ---------------------------------------------------------------------------
// Health, runtime and drift
// ---------------------------------------------------------------------------

/// The broker counts as healthy, and so as ready, exactly when both its process and
/// its socket are up.
pub proof fn law_broker_healthy_iff_both_signals(process_ok: bool, socket_ok: bool)
    ensures
        (spec_broker_health(process_ok, socket_ok) == BrokerHealthStatus::Healthy) <==> (process_ok
            && socket_ok),
{
}

/// An explicit runtime choice is followed whatever detection finds, and is never
/// reported as detected.
pub proof fn law_explicit_runtime_wins(choice: RuntimeChoice, a: bool, b: bool)
    requires
        choice != RuntimeChoice::Auto,
    ensures
        spec_resolve_runtime(choice, a) == spec_resolve_runtime(choice, b),
        !spec_resolve_runtime(choice, a).1,
        spec_resolve_runtime(choice, a).0 == (if choice == RuntimeChoice::Host {
            RuntimeMode::Host
        } else {
            RuntimeMode::Container
        }),
{
}

/// Drift is found exactly when some asset probe reported a mismatch.
pub proof fn law_drift_iff_some_mismatch(results: Seq<(String, AssetProbeOutcome)>)
    ensures
        spec_mismatched(results).len() > 0 <==> exists|i: int|
            0 <= i < results.len() && (#[trigger] results[i]).1 is Mismatch,
    decreases results.len(),
{
    if results.len() > 0 {
        let prev = results.drop_last();
        law_drift_iff_some_mismatch(prev);
        if exists|i: int| 0 <= i < prev.len() && (#[trigger] prev[i]).1 is Mismatch {
            let i = choose|i: int| 0 <= i < prev.len() && (#[trigger] prev[i]).1 is Mismatch;
            assert(results[i] == prev[i]);
        }
        if exists|i: int| 0 <= i < results.len() && (#[trigger] results[i]).1 is Mismatch {
            let i = choose|i: int| 0 <= i < results.len() && (#[trigger] results[i]).1 is Mismatch;
            if i < prev.len() {
                assert(prev[i] == results[i]);
            }
        }
    }
}

/// The stale-container warning is shown exactly when drift was found.
pub proof fn law_warning_only_with_drift(report: RuntimeAssetDrift)
    ensures
        spec_stale_warning_lines(report).len() == 0 <==> !report.drift_detected,
{
}

// ---------------------------------------------------------------------------
// The initial one-time password
// ---------------------------------------------------------------------------

/// The status output shows a password only while the container runs and the IOTP
/// is active, and then it is the snapshot's password.
pub proof fn law_iotp_shown_only_when_active(s: IotpSnapshotView, running: bool, allow_unauth: bool)
    ensures
        spec_render_iotp(s, running, allow_unauth).1 != "not available"@ ==> running && s.state
            == IotpState::ActiveUnused && s.otp == Some(spec_render_iotp(s, running, allow_unauth).1),
{
}

// ---------------------------------------------------------------------------
// Sandbox instance names
// ---------------------------------------------------------------------------

/// A hexadecimal digit character: `0-9` or `a-f`.
pub open spec fn is_lower_hex(c: char) -> bool {
    ('0' <= c <= '9') || ('a' <= c <= 'f')
}

pub open spec fn pow16(k: nat) -> nat
    decreases k,
{
    if k == 0 {
        1
    } else {
        16 * pow16((k - 1) as nat)
    }
}

proof fn lemma_hex_digits(n: nat, k: nat)
    requires
        k >= 1,
        n < pow16(k),
    ensures
        spec_hex(n).len() <= k,
        spec_hex(n).len() >= 1,
        forall|i: int| 0 <= i < spec_hex(n).len() ==> is_lower_hex(#[trigger] spec_hex(n)[i]),
    decreases n,
{
    if n < 16 {
        assert(spec_hex(n) == seq![spec_digit_char(n)]);
    } else {
        assert(k >= 2) by {
            if k == 1 {
                assert(pow16(1) == 16) by {
                    reveal_with_fuel(pow16, 2);
                }
            }
        }
        assert(n / 16 < pow16((k - 1) as nat)) by {
            assert(pow16(k) == 16 * pow16((k - 1) as nat));
        }
        lemma_hex_digits(n / 16, (k - 1) as nat);
        let prev = spec_hex(n / 16);
        assert(spec_hex(n) == prev.push(spec_digit_char(n % 16)));
        assert forall|i: int| 0 <= i < spec_hex(n).len() implies is_lower_hex(#[trigger] spec_hex(n)[i]) by {
            if i < prev.len() {
                assert(spec_hex(n)[i] == prev[i]);
            }
        }
    }
}

/// Names derived for worktrees are always valid manual instance names, so an
/// isolated profile can be chosen either way.
pub proof fn law_auto_instance_id_is_valid(path: Seq<u8>)
    ensures
        spec_valid_instance_id(encode_utf8(spec_auto_instance_id(path))),
{
    let h = crate::sandbox::spec_fnv1a_64(path) as nat;
    assert(pow16(16) == 0x10000000000000000) by {
        reveal_with_fuel(pow16, 17);
    }
    lemma_hex_digits(h, 16);
    let hex = spec_hex(h);
    let padded = spec_pad_left(hex, 12, '0');
    let id = spec_auto_instance_id(path);
    reveal_strlit("wt-");
    assert(id == seq!['w', 't', '-'] + padded);
    assert(forall|i: int| 0 <= i < padded.len() ==> #[trigger] is_lower_hex(padded[i])) by {
        assert forall|i: int| 0 <= i < padded.len() implies #[trigger] is_lower_hex(padded[i]) by {
            if hex.len() < 12 {
                let pad = (12 - hex.len()) as int;
                if i >= pad {
                    assert(padded[i] == hex[i - pad]);
                }
            }
        }
    }
    assert(padded.len() <= 16);
    assert(is_ascii_chars(id)) by {
        assert forall|i: int| 0 <= i < id.len() implies '\0' <= #[trigger] id[i] <= '\u{7f}' by {
            if i >= 3 {
                assert(id[i] == padded[i - 3]);
                assert(is_lower_hex(padded[i - 3]));
            }
        }
    }
    is_ascii_chars_encode_utf8(id);
    let bytes = encode_utf8(id);
    assert forall|i: int| 0 <= i < bytes.len() implies is_lower_or_digit(#[trigger] bytes[i]) || bytes[i] == 45 by {
        assert(id[i] as u8 == bytes[i]);
        if i >= 3 {
            assert(id[i] == padded[i - 3]);
            assert(is_lower_hex(padded[i - 3]));
        }
    }
    assert(is_lower_or_digit(bytes[0])) by {
        assert(id[0] as u8 == bytes[0]);
    }
}

// ---------------------------------------------------------------------------
// Numbers in text
// ---------------------------------------------------------------------------

proof fn lemma_decimal_digits(n: nat)
    ensures
        spec_decimal(n).len() >= 1,
        crate::text::all_ascii_digits(spec_decimal(n)),
        spec_digits_value(spec_decimal(n)) == n,
    decreases n,
{
    let d = spec_decimal(n);
    assert((spec_digit_char(n % 10) as u32) == 48 + n % 10);
    if n < 10 {
        assert(d == seq![spec_digit_char(n)]);
        assert(d.drop_last() =~= Seq::<char>::empty());
        assert(d.last() == spec_digit_char(n % 10));
        assert(('0' as u32) == 48);
        assert(spec_digits_value(d) == spec_digits_value(d.drop_last()) * 10 + n % 10);
    } else {
        lemma_decimal_digits(n / 10);
        let prev = spec_decimal(n / 10);
        assert(d == prev.push(spec_digit_char(n % 10)));
        assert(d.drop_last() =~= prev);
        assert(d.last() == spec_digit_char(n % 10));
        assert(('0' as u32) == 48);
        assert(spec_digits_value(d) == spec_digits_value(prev) * 10 + n % 10);
        assert forall|i: int| 0 <= i < d.len() implies crate::text::is_ascii_digit(#[trigger] d[i]) by {
            if i < prev.len() {
                assert(d[i] == prev[i]);
            }
        }
    }
}

/// Parsing reads back any number that is rendered in decimal, as long as it fits
/// the type: the rendering of configured lengths and user ids round-trips.
pub proof fn law_parse_reads_decimal(n: nat, max: nat)
    requires
        n <= max,
    ensures
        spec_parse_unsigned(spec_decimal(n), max) == Some(n),
{
    lemma_decimal_digits(n);
    let d = spec_decimal(n);
    assert(crate::text::is_ascii_digit(d[0]));
    assert(crate::text::without_plus(d) == d);
}


// ---------------------------------------------------------------------------
// IOTP helper output
// ---------------------------------------------------------------------------

proof fn lemma_trim_start_last(x: Seq<char>)
    ensures
        spec_trim_start(x).len() > 0 ==> spec_trim_start(x).last() == x.last(),
    decreases x.len(),
{
    if x.len() > 0 && spec_is_whitespace(x[0]) {
        lemma_trim_start_last(x.drop_first());
    }
}

proof fn lemma_split_append_plain(c: Seq<char>, b: Seq<char>, p: spec_fn(char) -> bool)
    requires
        forall|i: int| 0 <= i < b.len() ==> !p(#[trigger] b[i]),
    ensures
        spec_split_by(c + b, p) == spec_split_by(c, p).update(
            spec_split_by(c, p).len() - 1,
            spec_split_by(c, p).last() + b,
        ),
    decreases b.len(),
{
    lemma_split_by_nonempty(c, p);
    let sc = spec_split_by(c, p);
    if b.len() == 0 {
        assert(c + b =~= c);
        assert(sc.last() + b =~= sc.last());
        assert(sc.update(sc.len() - 1, sc.last() + b) =~= sc);
    } else {
        let b0 = b.drop_last();
        lemma_split_append_plain(c, b0, p);
        assert((c + b).drop_last() =~= c + b0);
        assert((c + b).last() == b.last());
        assert(!p(b[b.len() - 1]));
        let prev = spec_split_by(c + b0, p);
        assert(prev.last() + seq![b.last()] =~= (sc.last() + b0).push(b.last()));
        assert((sc.last() + b0).push(b.last()) =~= sc.last() + b);
        assert(prev.update(prev.len() - 1, prev.last().push(b.last())) =~= sc.update(
            sc.len() - 1,
            sc.last() + b,
        ));
    }
}

proof fn lemma_trim_start_concat(x: Seq<char>, y: Seq<char>)
    ensures
        spec_trim_start(x + y) == (if spec_trim_start(x).len() > 0 {
            spec_trim_start(x) + y
        } else {
            spec_trim_start(y)
        }),
    decreases x.len(),
{
    if x.len() == 0 {
        assert(x + y =~= y);
    } else {
        assert((x + y)[0] == x[0]);
        if spec_is_whitespace(x[0]) {
            assert((x + y).drop_first() =~= x.drop_first() + y);
            lemma_trim_start_concat(x.drop_first(), y);
        }
    }
}

proof fn lemma_trim_end_concat(w: Seq<char>, y: Seq<char>)
    requires
        spec_trim_end(y).len() > 0,
    ensures
        spec_trim_end(w + y) == w + spec_trim_end(y),
    decreases y.len(),
{
    assert(y.len() > 0);
    assert((w + y).last() == y.last());
    if spec_is_whitespace(y.last()) {
        assert((w + y).drop_last() =~= w + y.drop_last());
        lemma_trim_end_concat(w, y.drop_last());
    }
}

proof fn lemma_trim_end_split(y: Seq<char>)
    ensures
        spec_trim_end(y).len() <= y.len(),
        spec_trim_end(y) == y.take(spec_trim_end(y).len() as int),
        forall|i: int| spec_trim_end(y).len() <= i < y.len() ==> spec_is_whitespace(#[trigger] y[i]),
        spec_trim_end(y).len() > 0 ==> !spec_is_whitespace(spec_trim_end(y).last()),
    decreases y.len(),
{
    if !(y.len() > 0 && spec_is_whitespace(y.last())) {
        assert(y.take(y.len() as int) =~= y);
    } else {
        lemma_trim_end_split(y.drop_last());
        assert(y.drop_last().take(spec_trim_end(y).len() as int) =~= y.take(spec_trim_end(y).len() as int));
        assert forall|i: int| spec_trim_end(y).len() <= i < y.len() implies spec_is_whitespace(#[trigger] y[i]) by {
            if i < y.len() - 1 {
                assert(y[i] == y.drop_last()[i]);
            }
        }
    }
}

proof fn lemma_trim_end_whitespace_tail(u: Seq<char>, r: Seq<char>)
    requires
        forall|i: int| 0 <= i < r.len() ==> spec_is_whitespace(#[trigger] r[i]),
    ensures
        spec_trim_end(u + r) == spec_trim_end(u),
    decreases r.len(),
{
    if r.len() == 0 {
        assert(u + r =~= u);
    } else {
        assert((u + r).last() == r[r.len() - 1]);
        assert((u + r).drop_last() =~= u + r.drop_last());
        lemma_trim_end_whitespace_tail(u, r.drop_last());
    }
}

proof fn lemma_trim_start_all_whitespace(r: Seq<char>)
    requires
        forall|i: int| 0 <= i < r.len() ==> spec_is_whitespace(#[trigger] r[i]),
    ensures
        spec_trim_start(r).len() == 0,
    decreases r.len(),
{
    if r.len() > 0 {
        assert(spec_is_whitespace(r[0]));
        assert forall|i: int| 0 <= i < r.drop_first().len() implies spec_is_whitespace(#[trigger] r.drop_first()[i]) by {
            assert(r.drop_first()[i] == r[i + 1]);
        }
        lemma_trim_start_all_whitespace(r.drop_first());
    }
}

proof fn lemma_trim_start_keeps_last(y: Seq<char>)
    requires
        y.len() > 0,
        !spec_is_whitespace(y.last()),
    ensures
        spec_trim_start(y).len() > 0,
    decreases y.len(),
{
    if spec_is_whitespace(y[0]) {
        assert(y.len() > 1);
        assert(y.drop_first().last() == y.last());
        lemma_trim_start_keeps_last(y.drop_first());
    }
}

/// Log lines the helper prints before its report do not change what is read from
/// its output: when the whole output is not one JSON text, the report on the last
/// line (blanks around it included) is read, as if it had been printed alone.
pub proof fn law_snapshot_ignores_leading_noise(pre: Seq<char>, j: Seq<char>)
    requires
        forall|i: int| 0 <= i < j.len() ==> #[trigger] j[i] != '\n',
        spec_trim(j).len() > 0,
        spec_helper_payload(spec_trim(j)) is Some,
        spec_helper_payload(spec_trim(pre + seq!['\n'] + j)) is None,
    ensures
        spec_parse_snapshot_output(pre + seq!['\n'] + j) == spec_parse_snapshot_output(j),
{
    // The last line without its trailing blanks, and the blanks.
    lemma_trim_end_split(j);
    let l = spec_trim_end(j);
    let r = j.skip(l.len() as int);
    assert forall|i: int| 0 <= i < r.len() implies spec_is_whitespace(#[trigger] r[i]) by {
        assert(r[i] == j[i + l.len()]);
    }
    assert(j =~= l + r);
    if l.len() == 0 {
        assert(j =~= r);
        lemma_trim_start_all_whitespace(j);
        assert(spec_trim(j).len() == 0);
        assert(false);
    }
    // The report line reads as the whole report does.
    lemma_trim_start_keeps_last(l);
    lemma_trim_start_concat(l, r);
    assert(spec_trim_start(j) == spec_trim_start(l) + r);
    lemma_trim_end_whitespace_tail(spec_trim_start(l), r);
    assert(spec_trim(l) == spec_trim(j));
    // The whole output, trimmed.
    let x = pre + seq!['\n'];
    let s = x + j;
    assert(pre + seq!['\n'] + j == s);
    lemma_trim_start_concat(x, j);
    let w = spec_trim_start(x);
    if w.len() == 0 {
        assert(spec_trim(s) == spec_trim(j));
        assert(false);
    }
    lemma_trim_end_concat(w, j);
    let t = spec_trim(s);
    assert(t == w + l);
    lemma_trim_start_last(x);
    assert(w.last() == '\n');
    let a = w.drop_last();
    assert(w =~= a.push('\n'));
    let nl = |c: char| c == '\n';
    assert(spec_split_by(a.push('\n'), nl) == spec_split_by(a, nl).push(Seq::<char>::empty())) by {
        assert(a.push('\n').drop_last() =~= a);
    }
    assert forall|i: int| 0 <= i < l.len() implies !nl(#[trigger] l[i]) by {
        assert(l[i] == j[i]);
    }
    lemma_split_append_plain(a.push('\n'), l, nl);
    lemma_split_by_nonempty(a, nl);
    let sa = spec_split_by(a, nl);
    let pieces = spec_split_by(t, nl);
    assert(t =~= a.push('\n') + l);
    assert(Seq::<char>::empty() + l =~= l);
    assert(pieces =~= sa.push(l));
    let ls = spec_lines(t);
    assert(ls.last() == l);
    assert(ls.len() > 0);
}

// ---------------------------------------------------------------------------
// Reset and update sequences
// ---------------------------------------------------------------------------

/// A container reset keeps going after a failed step: every step but the restart
/// runs whatever failed before it; the container is removed first, and the restart,
/// when asked for, comes last and runs only when nothing failed.
pub proof fn law_reset_keeps_going_after_failures(args: ResetContainerArgs, next: int, e1: nat, e2: nat)
    ensures
        ({
            let plan = spec_reset_plan(args);
            &&& plan[0] == ResetStep::RemoveContainer
            &&& (0 <= next < plan.len() && plan[next] != ResetStep::Recreate) ==> spec_reset_action(plan, next, e1)
                == spec_reset_action(plan, next, e2)
            &&& (0 <= next < plan.len() && plan[next] == ResetStep::Recreate) ==> {
                &&& next == plan.len() - 1
                &&& (spec_reset_action(plan, next, e1) == ResetAction::StartService <==> e1 == 0)
            }
            &&& spec_reset_action(plan, plan.len() as int, e1) == ResetAction::Finish
        }),
{
    let plan = spec_reset_plan(args);
    let a = seq![ResetStep::RemoveContainer];
    let b: Seq<ResetStep> = if args.volumes { seq![ResetStep::RemoveVolumes] } else { Seq::empty() };
    let c: Seq<ResetStep> = if args.clean_mounts || args.purge_mounts { seq![ResetStep::CleanMounts] } else { Seq::empty() };
    let d: Seq<ResetStep> = if args.recreate { seq![ResetStep::Recreate] } else { Seq::empty() };
    assert(plan == a + b + c + d);
    assert(plan[0] == ResetStep::RemoveContainer);
    if 0 <= next < plan.len() && plan[next] == ResetStep::Recreate {
        if next < (a + b + c).len() {
            assert(plan[next] == (a + b + c)[next]);
            if next < (a + b).len() {
                assert((a + b + c)[next] == (a + b)[next]);
                if next < 1 {
                    assert((a + b)[next] == a[next]);
                } else {
                    assert((a + b)[next] == b[next - 1]);
                }
            } else {
                assert((a + b + c)[next] == c[next - (a + b).len()]);
            }
            assert(false);
        }
    }
}


/// The update backs the current image up before it pulls or builds the new one,
/// stops the service before it recreates the container, and prunes last.
pub proof fn law_update_backup_first_stop_before_recreate(use_build: bool, i: int, j: int)
    ensures
        ({
            let steps = spec_image_update_steps(use_build);
            &&& (0 <= i < steps.len() && 0 <= j < steps.len() && steps[i] == ImageUpdateStep::Backup && (steps[j]
                == ImageUpdateStep::Pull || steps[j] == ImageUpdateStep::Build)) ==> i < j
            &&& (0 <= i < steps.len() && 0 <= j < steps.len() && steps[i] == ImageUpdateStep::Stop && steps[j]
                == ImageUpdateStep::Recreate) ==> i < j
            &&& steps.last() == ImageUpdateStep::Purge
        }),
{
    let steps = spec_image_update_steps(use_build);
    if 0 <= i < steps.len() && 0 <= j < steps.len() {
        if use_build {
            assert(i == 0 || i == 1 || i == 2 || i == 3 || i == 4);
            assert(j == 0 || j == 1 || j == 2 || j == 3 || j == 4);
        } else {
            assert(i == 0 || i == 1 || i == 2 || i == 3 || i == 4 || i == 5);
            assert(j == 0 || j == 1 || j == 2 || j == 3 || j == 4 || j == 5);
        }
    }
}


// ---------------------------------------------------------------------------
// What the commands are for
// ---------------------------------------------------------------------------

/// With a configuration, Docker and the opencode container, the opencode update is
/// offered unless the running container's commit is known to be the latest one: it
/// is withheld exactly when both commits are known and equal, and it can always be
/// chosen.
pub proof fn law_opencode_update_offered_unless_current(
    config_note: Option<Seq<char>>,
    docker_note: Option<Seq<char>>,
    latest_commit: Option<Seq<char>>,
    opencode_note: Option<Seq<char>>,
    running: bool,
    current_commit: Option<Seq<char>>,
)
    ensures
        ({
            let c = spec_opencode_candidate(
                true,
                true,
                config_note,
                docker_note,
                latest_commit,
                opencode_note,
                true,
                running,
                current_commit,
            );
            &&& c.selectable
            &&& (!c.available <==> (running && current_commit is Some && latest_commit is Some
                && current_commit->0 == latest_commit->0))
        }),
{
}

/// A container reset cleans the configured bind mounts exactly when asked to clean
/// or purge them, removes the volumes exactly when asked to, restarts exactly when
/// asked to, and always removes the container.
pub proof fn law_reset_plan_follows_flags(args: ResetContainerArgs)
    ensures
        spec_reset_plan(args).contains(ResetStep::CleanMounts) <==> (args.clean_mounts || args.purge_mounts),
        spec_reset_plan(args).contains(ResetStep::RemoveVolumes) <==> args.volumes,
        spec_reset_plan(args).contains(ResetStep::Recreate) <==> args.recreate,
        spec_reset_plan(args).contains(ResetStep::RemoveContainer),
{
    let plan = spec_reset_plan(args);
    let a = seq![ResetStep::RemoveContainer];
    let b: Seq<ResetStep> = if args.volumes { seq![ResetStep::RemoveVolumes] } else { Seq::empty() };
    let c: Seq<ResetStep> = if args.clean_mounts || args.purge_mounts { seq![ResetStep::CleanMounts] } else { Seq::empty() };
    let d: Seq<ResetStep> = if args.recreate { seq![ResetStep::Recreate] } else { Seq::empty() };
    assert(plan =~= a + b + c + d);
    assert(plan[0] == ResetStep::RemoveContainer);
    let n1: int = 1 + b.len() as int;
    let n2: int = n1 + c.len() as int;
    assert forall|i: int| 0 <= i < plan.len() implies #[trigger] plan[i] == (if i == 0 {
        ResetStep::RemoveContainer
    } else if i < n1 {
        ResetStep::RemoveVolumes
    } else if i < n2 {
        ResetStep::CleanMounts
    } else {
        ResetStep::Recreate
    }) by {
        if i == 0 {
        } else if i < n1 {
            assert(plan[i] == b[i - 1]);
        } else if i < n2 {
            assert(plan[i] == c[i - n1]);
        } else {
            assert(plan[i] == d[i - n2]);
        }
    }
    if args.volumes {
        assert(plan[1] == ResetStep::RemoveVolumes);
    }
    if args.clean_mounts || args.purge_mounts {
        assert(plan[n1] == ResetStep::CleanMounts);
    }
    if args.recreate {
        assert(plan[n2] == ResetStep::Recreate);
    }
}

/// The journalctl command shows the unit's journal without a pager; its output
/// format comes right after the unit: bare messages (`-o cat`) without timestamps,
/// ISO timestamps without the host name (`-o short-iso --no-hostname`) with them.
pub proof fn law_journalctl_output_format(lines: Seq<char>, timestamps: bool, no_follow: bool, service: Seq<char>)
    ensures
        spec_journalctl(lines, timestamps, no_follow, service) matches Some(v) ==> {
            &&& v.len() >= 6
            &&& v[0] == "journalctl"@
            &&& v[1] == "--no-pager"@
            &&& v[2] == "-u"@
            &&& v[3] == service
            &&& v[4] == "-o"@
            &&& if timestamps {
                v[5] == "short-iso"@ && v[6] == "--no-hostname"@
            } else {
                v[5] == "cat"@
            }
            &&& (!no_follow <==> v.last() == "-f"@)
        },
{
    reveal_strlit("-f");
    reveal_strlit("cat");
    reveal_strlit("--no-hostname");
    reveal_strlit("short-iso");
    reveal_strlit("journalctl");
    reveal_strlit("--no-pager");
    reveal_strlit("-u");
    reveal_strlit("-n");
    reveal_strlit("-o");
    let head = seq!["journalctl"@, "--no-pager"@, "-u"@, service];
    let format = if timestamps {
        seq!["-o"@, "short-iso"@, "--no-hostname"@]
    } else {
        seq!["-o"@, "cat"@]
    };
    let follow = if no_follow {
        Seq::<Seq<char>>::empty()
    } else {
        seq!["-f"@]
    };
    let t = spec_trim(lines);
    match spec_journalctl(lines, timestamps, no_follow, service) {
        Some(v) => {
            let mid = if spec_ascii_lowercase(t) == "all"@ {
                Seq::<Seq<char>>::empty()
            } else {
                seq!["-n"@, t]
            };
            assert(v == head + format + mid + follow);
            assert((head + format + mid + follow)[4] == format[0]);
            assert((head + format + mid + follow)[5] == format[1]);
            if timestamps {
                assert((head + format + mid + follow)[6] == format[2]);
            }
            if !no_follow {
                assert(v.last() == "-f"@);
            } else {
                assert(v == head + format + mid);
                if mid.len() == 0 {
                    assert(v.last() == format.last());
                    assert(format.last() != "-f"@) by {
                        if timestamps {
                            assert(format.last()[0] != "-f"@[0] || format.last().len() != 2);
                        }
                    }
                } else {
                    assert(v.last() == t);
                    assert(crate::text::is_ascii_digit(t[0]));
                    assert(t != "-f"@);
                }
            }
        },
        None => {},
    }
}

/// The line count asked for goes to journalctl as `-n <count>` just before the follow
/// flag (or at the end); `all`, in any case, asks for no count; anything else that
/// is not a number is refused.
pub proof fn law_journalctl_line_count(lines: Seq<char>, timestamps: bool, no_follow: bool, service: Seq<char>)
    ensures
        ({
            let t = spec_trim(lines);
            let r = spec_journalctl(lines, timestamps, no_follow, service);
            let k: int = if no_follow { 0 } else { 1 };
            &&& (t.len() > 0 && (forall|i: int| 0 <= i < t.len() ==> crate::text::is_ascii_digit(#[trigger] t[i])))
                ==> (r matches Some(v) && v.len() >= 2 + k && v[v.len() - 2 - k] == "-n"@ && v[v.len() - 1 - k] == t)
            &&& spec_ascii_lowercase(t) == "all"@ ==> (r matches Some(v) && v.len() == (if timestamps {
                7int
            } else {
                6int
            }) + k)
            &&& (r is None <==> !(spec_ascii_lowercase(t) == "all"@ || (t.len() > 0 && forall|i: int|
                0 <= i < t.len() ==> crate::text::is_ascii_digit(#[trigger] t[i]))))
        }),
{
    reveal_strlit("-f");
    reveal_strlit("cat");
    reveal_strlit("--no-hostname");
    reveal_strlit("short-iso");
    reveal_strlit("journalctl");
    reveal_strlit("--no-pager");
    reveal_strlit("-u");
    reveal_strlit("-n");
    reveal_strlit("-o");
    reveal_strlit("all");
    let head = seq!["journalctl"@, "--no-pager"@, "-u"@, service];
    let format = if timestamps {
        seq!["-o"@, "short-iso"@, "--no-hostname"@]
    } else {
        seq!["-o"@, "cat"@]
    };
    let follow = if no_follow {
        Seq::<Seq<char>>::empty()
    } else {
        seq!["-f"@]
    };
    let t = spec_trim(lines);
    if t.len() > 0 && (forall|i: int| 0 <= i < t.len() ==> crate::text::is_ascii_digit(#[trigger] t[i])) {
        if spec_ascii_lowercase(t) == "all"@ {
            assert(spec_ascii_lowercase(t)[0] == crate::text::ascii_lower(t[0]));
            assert(crate::text::is_ascii_digit(t[0]));
            assert(false);
        }
        let v = head + format + seq!["-n"@, t] + follow;
        assert(spec_journalctl(lines, timestamps, no_follow, service) == Some(v));
        if no_follow {
            assert(v =~= head + format + seq!["-n"@, t]);
        }
    }
    if spec_ascii_lowercase(t) == "all"@ {
        let v = head + format + follow;
        assert(spec_journalctl(lines, timestamps, no_follow, service) == Some(v));
    }
}

/// The configuration table shows a setting's own value: a flag as `true` or `false`
/// as it is set, a number and a non-empty text as they are; a set password never as
/// itself.
pub proof fn law_config_values_shown_as_set(key: Seq<char>, b: bool, n: String, s: String)
    ensures
        key != "auth_password"@ ==> spec_format_value(key, ConfigValue::Bool(b)) == (if b {
            "true"@
        } else {
            "false"@
        }),
        key != "auth_password"@ ==> spec_format_value(key, ConfigValue::Bool(true)) != spec_format_value(
            key,
            ConfigValue::Bool(false),
        ),
        key != "auth_password"@ ==> spec_format_value(key, ConfigValue::Number(n)) == n@,
        key != "auth_password"@ && s@.len() > 0 ==> spec_format_value(key, ConfigValue::Str(s)) == s@,
        s@.len() > 0 && s@ != "********"@ ==> spec_format_value("auth_password"@, ConfigValue::Str(s)) != s@,
{
    reveal_strlit("true");
    reveal_strlit("false");
    assert("true"@.len() != "false"@.len());
}

/// Every name of the form `[a-z0-9][a-z0-9-]{0,31}` is a valid instance name, and
/// only those: a name may start with a letter or a digit, and `-` may follow.
pub proof fn law_instance_names(bytes: Seq<u8>)
    ensures
        spec_valid_instance_id(bytes) <==> {
            &&& 1 <= bytes.len() <= 32
            &&& ((48 <= bytes[0] <= 57) || (97 <= bytes[0] <= 122))
            &&& forall|i: int| 0 <= i < bytes.len() ==> (48 <= #[trigger] bytes[i] <= 57) || (97 <= bytes[i] <= 122)
                || bytes[i] == 45
        },
{
}


/// A name of the form `[a-z0-9][a-z0-9-]{0,31}` (other than `auto`) given to
/// `--sandbox-instance` selects the instance of that name, whether it starts with a
/// letter or a digit.
pub proof fn law_named_instance_accepted(n: Seq<char>)
    requires
        1 <= n.len() <= 32,
        ('a' <= n[0] <= 'z') || ('0' <= n[0] <= '9'),
        forall|i: int| 0 <= i < n.len() ==> ('a' <= #[trigger] n[i] <= 'z') || ('0' <= n[i] <= '9') || n[i] == '-',
        n != "auto"@,
    ensures
        spec_sandbox_request(Some(n)) == Ok::<SandboxRequestView, Seq<char>>(SandboxRequestView::Named(n)),
{
    assert(!spec_is_whitespace(n[0]));
    assert(spec_trim_start(n) == n);
    assert(!spec_is_whitespace(n.last()));
    assert(spec_trim_end(n) == n);
    assert(spec_trim(n) == n);
    assert(spec_ascii_lowercase(n) =~= n);
    assert(is_ascii_chars(n));
    is_ascii_chars_encode_utf8(n);
    let bytes = encode_utf8(n);
    assert forall|i: int| 0 <= i < bytes.len() implies is_lower_or_digit(#[trigger] bytes[i]) || bytes[i] == 45 by {
        assert(n[i] as u8 == bytes[i]);
    }
    assert(is_lower_or_digit(bytes[0])) by {
        assert(n[0] as u8 == bytes[0]);
    }
    assert(spec_valid_instance_id(bytes));
}

} // verus!
