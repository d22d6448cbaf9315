//! Bind mount comparison, normalization and editing.
//!
//! A mount specification `/host/path:/container/path[:ro]` is parsed elsewhere; this
//! module works on the parsed form.

use vstd::prelude::*;
use crate::text::{append, chars_of, owned, seq_eq, starts_with, str_eq, string_views};

verus! {

/// A bind mount from the configuration, in parsed form.
#[derive(Debug, Clone, PartialEq, Eq)]
pub struct ParsedMount {
    pub host_path: String,
    pub container_path: String,
    pub read_only: bool,
}

/// A bind mount as Docker reports it for a container.
#[derive(Debug, Clone, PartialEq, Eq)]
pub struct ContainerBindMount {
    pub source: String,
    pub target: String,
    pub read_only: bool,
}

/// The mathematical content of a mount: host side, container side and mode.
pub struct MountView {
    pub host: Seq<char>,
    pub target: Seq<char>,
    pub read_only: bool,
}

impl View for ParsedMount {
    type V = MountView;

    open spec fn view(&self) -> MountView {
        MountView { host: self.host_path@, target: self.container_path@, read_only: self.read_only }
    }
}

impl View for ContainerBindMount {
    type V = MountView;

    open spec fn view(&self) -> MountView {
        MountView { host: self.source@, target: self.target@, read_only: self.read_only }
    }
}

pub open spec fn mount_views(v: Seq<ParsedMount>) -> Seq<MountView> {
    v.map_values(|m: ParsedMount| m@)
}

pub open spec fn bind_views(v: Seq<ContainerBindMount>) -> Seq<MountView> {
    v.map_values(|m: ContainerBindMount| m@)
}

impl ParsedMount {
    /// A copy of this mount.
    pub fn duplicate(&self) -> (r: ParsedMount)
        ensures
            r@ == self@,
    {
        ParsedMount {
            host_path: self.host_path.clone(),
            container_path: self.container_path.clone(),
            read_only: self.read_only,
        }
    }
}

// ---------------------------------------------------------------------------
// Host path matching (Docker Desktop path mapping)
// ---------------------------------------------------------------------------

/// Whether a bind source reported by Docker denotes the configured host path:
/// equal, equal after removing `/host_mnt` (and then `/private`), or the configured
/// path starts with `/private` and the source is the rest of it (`/tmp` for a
/// configured `/private/tmp`).
pub open spec fn spec_host_paths_match(c: Seq<char>, k: Seq<char>) -> bool {
    let host_mnt = "/host_mnt"@;
    let private = "/private"@;
    ||| c == k
    ||| (host_mnt.is_prefix_of(c) && {
        let stripped = c.skip(host_mnt.len() as int);
        ||| stripped == k
        ||| (private.is_prefix_of(stripped) && stripped.skip(private.len() as int) == k)
    })
    ||| (private.is_prefix_of(k) && c == k.skip(private.len() as int))
}

fn skip_chars(v: &Vec<char>, n: usize) -> (r: Vec<char>)
    requires
        n <= v@.len(),
    ensures
        r@ == v@.skip(n as int),
{
    let mut r: Vec<char> = Vec::new();
    let mut i = n;
    while i < v.len()
        invariant
            n <= i <= v@.len(),
            r@ == v@.subrange(n as int, i as int),
        decreases v@.len() - i,
    {
        r.push(v[i]);
        assert(r@ =~= v@.subrange(n as int, i + 1));
        i = i + 1;
    }
    assert(r@ =~= v@.skip(n as int));
    r
}

/// Check if two host paths match, accounting for how macOS Docker Desktop maps paths
/// (`/tmp` -> `/private/tmp` -> `/host_mnt/private/tmp`).
pub fn host_paths_match(container_path: &str, configured_path: &str) -> (b: bool)
    ensures
        b == spec_host_paths_match(container_path@, configured_path@),
{
    let c = chars_of(container_path);
    let k = chars_of(configured_path);
    if seq_eq(&c, &k) {
        return true;
    }
    let host_mnt = "/host_mnt";
    let private = "/private";
    let hl = host_mnt.unicode_len();
    let pl = private.unicode_len();
    if starts_with(&c, host_mnt) {
        let stripped = skip_chars(&c, hl);
        if seq_eq(&stripped, &k) {
            return true;
        }
        if starts_with(&stripped, private) {
            let private_stripped = skip_chars(&stripped, pl);
            if seq_eq(&private_stripped, &k) {
                return true;
            }
        }
    }
    if starts_with(&k, private) {
        let private_path = skip_chars(&k, pl);
        if seq_eq(&c, &private_path) {
            return true;
        }
    }
    false
}

/// Whether some current bind mount has the configured target and mode and a
/// matching host path.
pub open spec fn spec_mount_has_match(conf: MountView, current: Seq<MountView>) -> bool {
    exists|i: int|
        0 <= i < current.len() && (#[trigger] current[i]).target == conf.target
            && current[i].read_only == conf.read_only && spec_host_paths_match(
            current[i].host,
            conf.host,
        )
}

pub fn mount_has_match(conf: &ParsedMount, current: &Vec<ContainerBindMount>) -> (b: bool)
    ensures
        b == spec_mount_has_match(conf@, bind_views(current@)),
{
    let ghost cur = bind_views(current@);
    let mut i: usize = 0;
    while i < current.len()
        invariant
            i <= current@.len(),
            cur == bind_views(current@),
            forall|j: int|
                0 <= j < i ==> !(#[trigger] cur[j].target == conf@.target && cur[j].read_only
                    == conf@.read_only && spec_host_paths_match(cur[j].host, conf@.host)),
        decreases current@.len() - i,
    {
        let m = &current[i];
        assert(cur[i as int] == m@);
        if str_eq(m.target.as_str(), conf.container_path.as_str()) && m.read_only == conf.read_only
            && host_paths_match(m.source.as_str(), conf.host_path.as_str()) {
            assert(cur[i as int].target == conf@.target);
            return true;
        }
        i = i + 1;
    }
    false
}

/// Whether the container's bind mounts are the configured ones, ignoring order.
pub open spec fn spec_mounts_equal(current: Seq<MountView>, configured: Seq<MountView>) -> bool {
    current.len() == configured.len() && forall|i: int|
        0 <= i < configured.len() ==> spec_mount_has_match(#[trigger] configured[i], current)
}

/// Compare container bind mounts with configured mounts (ignoring order).
pub fn mounts_equal(current: &Vec<ContainerBindMount>, configured: &Vec<ParsedMount>) -> (b: bool)
    ensures
        b == spec_mounts_equal(bind_views(current@), mount_views(configured@)),
{
    if current.len() != configured.len() {
        return false;
    }
    let ghost conf = mount_views(configured@);
    let mut i: usize = 0;
    while i < configured.len()
        invariant
            i <= configured@.len(),
            conf == mount_views(configured@),
            forall|j: int| 0 <= j < i ==> spec_mount_has_match(#[trigger] conf[j], bind_views(current@)),
        decreases configured@.len() - i,
    {
        assert(conf[i as int] == configured@[i as int]@);
        if !mount_has_match(&configured[i], current) {
            return false;
        }
        i = i + 1;
    }
    true
}


// ---------------------------------------------------------------------------
// Duplicate target normalization
// ---------------------------------------------------------------------------

/// For a container target that several mounts share: the mount kept (the last one)
/// and the earlier ones that are dropped.
#[derive(Debug, Clone, PartialEq, Eq)]
pub struct DuplicateMountTargetResolution {
    pub container_path: String,
    pub kept_mount: ParsedMount,
    pub removed_mounts: Vec<ParsedMount>,
}

pub struct ResolutionView {
    pub target: Seq<char>,
    pub kept: MountView,
    pub removed: Seq<MountView>,
}

impl View for DuplicateMountTargetResolution {
    type V = ResolutionView;

    open spec fn view(&self) -> ResolutionView {
        ResolutionView {
            target: self.container_path@,
            kept: self.kept_mount@,
            removed: mount_views(self.removed_mounts@),
        }
    }
}

pub open spec fn resolution_views(v: Seq<DuplicateMountTargetResolution>) -> Seq<ResolutionView> {
    v.map_values(|r: DuplicateMountTargetResolution| r@)
}

/// The positions `0..n`.
pub open spec fn positions(n: nat) -> Seq<int> {
    Seq::new(n, |i: int| i)
}

/// No later mount has the target of mount `j`.
pub open spec fn is_last_of_target(s: Seq<MountView>, j: int) -> bool {
    forall|k: int| j < k < s.len() ==> (#[trigger] s[k]).target != s[j].target
}

/// No earlier mount has the target of mount `j`.
pub open spec fn is_first_of_target(s: Seq<MountView>, j: int) -> bool {
    forall|k: int| 0 <= k < j ==> (#[trigger] s[k]).target != s[j].target
}

/// The positions of the mounts whose target is `t`, in order.
pub open spec fn positions_with_target(s: Seq<MountView>, t: Seq<char>) -> Seq<int> {
    positions(s.len()).filter(|i: int| s[i].target == t)
}

/// The resolution for target `t`: the last mount with that target is kept, the
/// earlier ones are removed.
pub open spec fn spec_resolution(s: Seq<MountView>, t: Seq<char>) -> ResolutionView {
    let idx = positions_with_target(s, t);
    ResolutionView { target: t, kept: s[idx.last()], removed: idx.drop_last().map_values(|i: int| s[i]) }
}

/// The mounts kept: for each target only its last mount, in the original order.
pub open spec fn spec_normalized(s: Seq<MountView>) -> Seq<MountView> {
    positions(s.len()).filter(|i: int| is_last_of_target(s, i)).map_values(|i: int| s[i])
}

/// One resolution per target that occurs more than once, in order of first occurrence.
pub open spec fn spec_resolutions(s: Seq<MountView>) -> Seq<ResolutionView> {
    positions(s.len()).filter(|i: int| is_first_of_target(s, i) && !is_last_of_target(s, i)).map_values(
        |i: int| spec_resolution(s, s[i].target),
    )
}

fn is_last_target(mounts: &Vec<ParsedMount>, j: usize) -> (b: bool)
    requires
        j < mounts.len(),
    ensures
        b == is_last_of_target(mount_views(mounts@), j as int),
{
    let ghost s = mount_views(mounts@);
    let mut k = j + 1;
    while k < mounts.len()
        invariant
            j < k <= mounts@.len(),
            s == mount_views(mounts@),
            forall|m: int| j < m < k ==> (#[trigger] s[m]).target != s[j as int].target,
        decreases mounts@.len() - k,
    {
        if str_eq(mounts[k].container_path.as_str(), mounts[j].container_path.as_str()) {
            assert(s[k as int].target == s[j as int].target);
            return false;
        }
        k = k + 1;
    }
    true
}

fn is_first_target(mounts: &Vec<ParsedMount>, j: usize) -> (b: bool)
    requires
        j < mounts@.len(),
    ensures
        b == is_first_of_target(mount_views(mounts@), j as int),
{
    let ghost s = mount_views(mounts@);
    let mut k: usize = 0;
    while k < j
        invariant
            k <= j < mounts@.len(),
            s == mount_views(mounts@),
            forall|m: int| 0 <= m < k ==> (#[trigger] s[m]).target != s[j as int].target,
        decreases j - k,
    {
        if str_eq(mounts[k].container_path.as_str(), mounts[j].container_path.as_str()) {
            assert(s[k as int].target == s[j as int].target);
            return false;
        }
        k = k + 1;
    }
    true
}

pub open spec fn usize_ints(v: Seq<usize>) -> Seq<int> {
    v.map_values(|x: usize| x as int)
}

fn positions_of_target(mounts: &Vec<ParsedMount>, t: &str) -> (idx: Vec<usize>)
    ensures
        usize_ints(idx@) == positions_with_target(mount_views(mounts@), t@),
        forall|i: int| 0 <= i < idx@.len() ==> idx@[i] < mounts@.len(),
{
    let ghost s = mount_views(mounts@);
    let ghost all = positions(s.len());
    let mut idx: Vec<usize> = Vec::new();
    let mut k: usize = 0;
    while k < mounts.len()
        invariant
            k <= mounts@.len(),
            s == mount_views(mounts@),
            all == positions(s.len()),
            usize_ints(idx@) == all.take(k as int).filter(|i: int| s[i].target == t@),
            forall|i: int| 0 <= i < idx@.len() ==> idx@[i] < mounts@.len(),
        decreases mounts@.len() - k,
    {
        proof {
            reveal_with_fuel(Seq::filter, 1);
            assert(all.take(k + 1).drop_last() =~= all.take(k as int));
            assert(all.take(k + 1).last() == k as int);
        }
        if str_eq(mounts[k].container_path.as_str(), t) {
            idx.push(k);
            assert(usize_ints(idx@) =~= all.take(k as int).filter(|i: int| s[i].target == t@).push(k as int));
        }
        k = k + 1;
    }
    assert(all.take(mounts@.len() as int) =~= all);
    idx
}

fn duplicate_all(mounts: &Vec<ParsedMount>, idx: &Vec<usize>, count: usize) -> (r: Vec<ParsedMount>)
    requires
        count <= idx@.len(),
        forall|i: int| 0 <= i < idx@.len() ==> idx@[i] < mounts@.len(),
    ensures
        mount_views(r@) == usize_ints(idx@).take(count as int).map_values(|i: int| mount_views(mounts@)[i]),
{
    let ghost s = mount_views(mounts@);
    let mut r: Vec<ParsedMount> = Vec::new();
    let mut k: usize = 0;
    while k < count
        invariant
            k <= count <= idx@.len(),
            s == mount_views(mounts@),
            forall|i: int| 0 <= i < idx@.len() ==> idx@[i] < mounts@.len(),
            mount_views(r@) == usize_ints(idx@).take(k as int).map_values(|i: int| s[i]),
        decreases count - k,
    {
        let m = mounts[idx[k]].duplicate();
        assert(m@ == s[usize_ints(idx@)[k as int]]);
        let ghost before = mount_views(r@);
        r.push(m);
        assert(mount_views(r@) =~= before.push(m@));
        assert(mount_views(r@) =~= usize_ints(idx@).take(k + 1).map_values(|i: int| s[i]));
        k = k + 1;
    }
    r
}

/// Keeps only the last mount for each container target, and reports for each target
/// with several mounts which one was kept and which were dropped.
pub fn normalize_mount_targets(mounts: Vec<ParsedMount>) -> (r: (
    Vec<ParsedMount>,
    Vec<DuplicateMountTargetResolution>,
))
    ensures
        mount_views(r.0@) == spec_normalized(mount_views(mounts@)),
        resolution_views(r.1@) == spec_resolutions(mount_views(mounts@)),
{
    let ghost s = mount_views(mounts@);
    let ghost all = positions(s.len());
    let n = mounts.len();
    let mut normalized: Vec<ParsedMount> = Vec::new();
    let mut resolutions: Vec<DuplicateMountTargetResolution> = Vec::new();
    let mut j: usize = 0;
    while j < n
        invariant
            j <= n == mounts@.len(),
            s == mount_views(mounts@),
            all == positions(s.len()),
            mount_views(normalized@) == all.take(j as int).filter(|i: int| is_last_of_target(s, i)).map_values(
                |i: int| s[i],
            ),
            resolution_views(resolutions@) == all.take(j as int).filter(
                |i: int| is_first_of_target(s, i) && !is_last_of_target(s, i),
            ).map_values(|i: int| spec_resolution(s, s[i].target)),
        decreases n - j,
    {
        proof {
            reveal_with_fuel(Seq::filter, 1);
            assert(all.take(j + 1).drop_last() =~= all.take(j as int));
            assert(all.take(j + 1).last() == j as int);
        }
        let last = is_last_target(&mounts, j);
        let first = is_first_target(&mounts, j);
        if last {
            normalized.push(mounts[j].duplicate());
            assert(mount_views(normalized@) =~= all.take(j as int).filter(|i: int| is_last_of_target(s, i)).map_values(
                |i: int| s[i],
            ).push(s[j as int]));
        }
        if first && !last {
            let target = mounts[j].container_path.as_str();
            let idx = positions_of_target(&mounts, target);
            proof {
                let p = |i: int| s[i].target == s[j as int].target;
                assert(all[j as int] == j as int);
                all.lemma_filter_contains(p, j as int);
            }
            let cnt = idx.len() - 1;
            let kept = mounts[idx[cnt]].duplicate();
            let removed = duplicate_all(&mounts, &idx, cnt);
            let res = DuplicateMountTargetResolution {
                container_path: mounts[j].container_path.clone(),
                kept_mount: kept,
                removed_mounts: removed,
            };
            proof {
                let idxs = usize_ints(idx@);
                assert(idxs.drop_last() =~= idxs.take(cnt as int));
                assert(idxs.last() == idx@[cnt as int] as int);
                assert(res@ == spec_resolution(s, s[j as int].target));
            }
            resolutions.push(res);
            assert(resolution_views(resolutions@) =~= all.take(j as int).filter(
                |i: int| is_first_of_target(s, i) && !is_last_of_target(s, i),
            ).map_values(|i: int| spec_resolution(s, s[i].target)).push(spec_resolution(s, s[j as int].target)));
        }
        j = j + 1;
    }
    assert(all.take(n as int) =~= all);
    (normalized, resolutions)
}


// ---------------------------------------------------------------------------
// Rendering
// ---------------------------------------------------------------------------

pub open spec fn spec_mode_word(read_only: bool) -> Seq<char> {
    if read_only {
        "ro"@
    } else {
        "rw"@
    }
}

/// `host -> container (ro|rw)`.
pub open spec fn spec_mount_display(m: MountView) -> Seq<char> {
    m.host + " -> "@ + m.target + " ("@ + spec_mode_word(m.read_only) + ")"@
}

/// The display form `host -> container (ro|rw)` of a mount.
pub fn format_mount_display(mount: &ParsedMount) -> (s: String)
    ensures
        s@ == spec_mount_display(mount@),
{
    let mut s = mount.host_path.clone();
    append(&mut s, " -> ");
    append(&mut s, mount.container_path.as_str());
    append(&mut s, " (");
    append(&mut s, if mount.read_only { "ro" } else { "rw" });
    append(&mut s, ")");
    s
}

/// `host:container` with `:ro` appended for read-only mounts.
pub open spec fn spec_mount_spec(m: MountView) -> Seq<char> {
    m.host + ":"@ + m.target + (if m.read_only { ":ro"@ } else { ""@ })
}

/// The specification string `host:container[:ro]` of a mount.
pub fn mount_to_spec(mount: &ParsedMount) -> (s: String)
    ensures
        s@ == spec_mount_spec(mount@),
{
    let mut s = mount.host_path.clone();
    append(&mut s, ":");
    append(&mut s, mount.container_path.as_str());
    append(&mut s, if mount.read_only { ":ro" } else { "" });
    s
}

// ---------------------------------------------------------------------------
// Configured mount entries
// ---------------------------------------------------------------------------

/// A mount entry of the configuration: its specification string and, when the
/// string parses, its parsed form.
#[derive(Debug, Clone, PartialEq, Eq)]
pub struct ConfigMount {
    pub spec: String,
    pub parsed: Option<ParsedMount>,
}

pub struct ConfigMountView {
    pub spec: Seq<char>,
    pub parsed: Option<MountView>,
}

impl View for ConfigMount {
    type V = ConfigMountView;

    open spec fn view(&self) -> ConfigMountView {
        ConfigMountView {
            spec: self.spec@,
            parsed: match self.parsed {
                Some(m) => Some(m@),
                None => None,
            },
        }
    }
}

pub open spec fn config_views(v: Seq<ConfigMount>) -> Seq<ConfigMountView> {
    v.map_values(|m: ConfigMount| m@)
}

pub open spec fn entry_specs(v: Seq<ConfigMountView>) -> Seq<Seq<char>> {
    v.map_values(|e: ConfigMountView| e.spec)
}

/// Whether an entry parses and targets `t`.
pub open spec fn targets(e: ConfigMountView, t: Seq<char>) -> bool {
    e.parsed is Some && e.parsed->0.target == t
}

/// What adding a mount did to the configured list.
#[derive(Debug, Clone, PartialEq, Eq)]
pub enum MountUpsertOutcome {
    Added,
    AlreadyConfigured,
    Replaced { replaced_mounts: Vec<ParsedMount> },
}

pub enum UpsertOutcomeView {
    Added,
    AlreadyConfigured,
    Replaced(Seq<MountView>),
}

impl View for MountUpsertOutcome {
    type V = UpsertOutcomeView;

    open spec fn view(&self) -> UpsertOutcomeView {
        match self {
            MountUpsertOutcome::Added => UpsertOutcomeView::Added,
            MountUpsertOutcome::AlreadyConfigured => UpsertOutcomeView::AlreadyConfigured,
            MountUpsertOutcome::Replaced { replaced_mounts } => UpsertOutcomeView::Replaced(
                mount_views(replaced_mounts@),
            ),
        }
    }
}

/// The test "parses and targets `t`", as a predicate on entries.
pub open spec fn targets_pred(t: Seq<char>) -> spec_fn(ConfigMountView) -> bool {
    |e: ConfigMountView| targets(e, t)
}

/// The test "does not parse, or targets something other than `t`".
pub open spec fn other_target_pred(t: Seq<char>) -> spec_fn(ConfigMountView) -> bool {
    |e: ConfigMountView| !targets(e, t)
}

/// The entries that do not target `t`, in order.
pub open spec fn other_target_entries(es: Seq<ConfigMountView>, t: Seq<char>) -> Seq<ConfigMountView> {
    es.filter(other_target_pred(t))
}

/// The parsed entries that target `t`, in order.
pub open spec fn same_target_mounts(es: Seq<ConfigMountView>, t: Seq<char>) -> Seq<MountView> {
    es.filter(targets_pred(t)).map_values(|e: ConfigMountView| e.parsed->0)
}

/// The specification strings of the entries that do not target `t`, in order.
pub open spec fn other_target_specs(es: Seq<ConfigMountView>, t: Seq<char>) -> Seq<Seq<char>> {
    entry_specs(other_target_entries(es, t))
}

/// The list after adding `spec` (parsed as `m`): unchanged if `m` is already the only
/// mount for its target; otherwise every mount for that target is replaced by `spec`,
/// which goes last.
pub open spec fn spec_upsert(es: Seq<ConfigMountView>, spec: Seq<char>, m: MountView) -> (
    Seq<Seq<char>>,
    UpsertOutcomeView,
) {
    let same = same_target_mounts(es, m.target);
    let exact = same.filter(|x: MountView| x.host == m.host && x.read_only == m.read_only);
    if exact.len() == 1 && same.len() == 1 {
        (entry_specs(es), UpsertOutcomeView::AlreadyConfigured)
    } else if same.len() == 0 {
        (other_target_specs(es, m.target).push(spec), UpsertOutcomeView::Added)
    } else {
        (other_target_specs(es, m.target).push(spec), UpsertOutcomeView::Replaced(same))
    }
}

fn entry_targets(e: &ConfigMount, t: &str) -> (b: bool)
    ensures
        b == targets(e@, t@),
{
    match &e.parsed {
        Some(p) => str_eq(p.container_path.as_str(), t),
        None => false,
    }
}

fn all_specs(existing: &Vec<ConfigMount>) -> (r: Vec<String>)
    ensures
        string_views(r@) == entry_specs(config_views(existing@)),
{
    let ghost es = config_views(existing@);
    let mut r: Vec<String> = Vec::new();
    let mut i: usize = 0;
    while i < existing.len()
        invariant
            i <= existing@.len(),
            es == config_views(existing@),
            string_views(r@) == entry_specs(es.take(i as int)),
        decreases existing@.len() - i,
    {
        let sp = existing[i].spec.clone();
        assert(sp@ == es[i as int].spec);
        let ghost before = string_views(r@);
        r.push(sp);
        assert(string_views(r@) =~= before.push(sp@));
        assert(entry_specs(es.take(i + 1)) =~= entry_specs(es.take(i as int)).push(es[i as int].spec));
        i = i + 1;
    }
    assert(es.take(existing@.len() as int) =~= es);
    r
}

/// Adds `mount_spec` (parsed as `parsed`) to the configured mounts, replacing every
/// configured mount with the same container target.
pub fn upsert_mount_by_target(existing: &Vec<ConfigMount>, mount_spec: &str, parsed: &ParsedMount) -> (r: (
    Vec<String>,
    MountUpsertOutcome,
))
    ensures
        (string_views(r.0@), r.1@) == spec_upsert(config_views(existing@), mount_spec@, parsed@),
{
    let ghost es = config_views(existing@);
    let ghost t = parsed@.target;
    let target = parsed.container_path.as_str();
    let mut retained: Vec<String> = Vec::new();
    let mut same_target: Vec<ParsedMount> = Vec::new();
    let mut i: usize = 0;
    while i < existing.len()
        invariant
            i <= existing@.len(),
            es == config_views(existing@),
            t == parsed@.target,
            target@ == t,
            string_views(retained@) == other_target_specs(es.take(i as int), t),
            mount_views(same_target@) == same_target_mounts(es.take(i as int), t),
        decreases existing@.len() - i,
    {
        proof {
            reveal_with_fuel(Seq::filter, 1);
            assert(es.take(i + 1).drop_last() =~= es.take(i as int));
            assert(es.take(i + 1).last() == es[i as int]);
        }
        let e = &existing[i];
        if entry_targets(e, target) {
            let m = match &e.parsed {
                Some(p) => p.duplicate(),
                None => {
                    assert(false);
                    parsed.duplicate()
                },
            };
            same_target.push(m);
            assert(mount_views(same_target@) =~= same_target_mounts(es.take(i as int), t).push(
                es[i as int].parsed->0,
            ));
            assert(string_views(retained@) =~= other_target_specs(es.take(i + 1), t));
        } else {
            retained.push(e.spec.clone());
            assert(string_views(retained@) =~= other_target_specs(es.take(i as int), t).push(
                es[i as int].spec,
            ));
            assert(mount_views(same_target@) =~= same_target_mounts(es.take(i + 1), t));
        }
        i = i + 1;
    }
    assert(es.take(existing@.len() as int) =~= es);
    let ghost same = mount_views(same_target@);
    let mut exact: usize = 0;
    let mut k: usize = 0;
    while k < same_target.len()
        invariant
            k <= same_target@.len(),
            same == mount_views(same_target@),
            exact == same.take(k as int).filter(
                |x: MountView| x.host == parsed@.host && x.read_only == parsed@.read_only,
            ).len(),
            exact <= k,
        decreases same_target@.len() - k,
    {
        proof {
            reveal_with_fuel(Seq::filter, 1);
            assert(same.take(k + 1).drop_last() =~= same.take(k as int));
        }
        let m = &same_target[k];
        if str_eq(m.host_path.as_str(), parsed.host_path.as_str()) && m.read_only == parsed.read_only {
            exact = exact + 1;
        }
        k = k + 1;
    }
    assert(same.take(same_target@.len() as int) =~= same);
    if exact == 1 && same_target.len() == 1 {
        return (all_specs(existing), MountUpsertOutcome::AlreadyConfigured);
    }
    retained.push(owned(mount_spec));
    if same_target.len() == 0 {
        (retained, MountUpsertOutcome::Added)
    } else {
        (retained, MountUpsertOutcome::Replaced { replaced_mounts: same_target })
    }
}

/// The parsed mounts of the configuration and the entries that did not parse.
pub struct MountCollection {
    pub mounts: Vec<ParsedMount>,
    pub skipped: Vec<String>,
}

/// Splits configured entries into parsed mounts and unparsable specification strings.
pub fn collect_config_mounts(entries: &Vec<ConfigMount>) -> (c: MountCollection)
    ensures
        mount_views(c.mounts@) == config_views(entries@).filter(|e: ConfigMountView| e.parsed is Some).map_values(
            |e: ConfigMountView| e.parsed->0,
        ),
        string_views(c.skipped@) == config_views(entries@).filter(|e: ConfigMountView| e.parsed is None).map_values(
            |e: ConfigMountView| e.spec,
        ),
{
    let ghost es = config_views(entries@);
    let mut mounts: Vec<ParsedMount> = Vec::new();
    let mut skipped: Vec<String> = Vec::new();
    let mut i: usize = 0;
    while i < entries.len()
        invariant
            i <= entries@.len(),
            es == config_views(entries@),
            mount_views(mounts@) == es.take(i as int).filter(|e: ConfigMountView| e.parsed is Some).map_values(
                |e: ConfigMountView| e.parsed->0,
            ),
            string_views(skipped@) == es.take(i as int).filter(|e: ConfigMountView| e.parsed is None).map_values(
                |e: ConfigMountView| e.spec,
            ),
        decreases entries@.len() - i,
    {
        proof {
            reveal_with_fuel(Seq::filter, 1);
            assert(es.take(i + 1).drop_last() =~= es.take(i as int));
            assert(es.take(i + 1).last() == es[i as int]);
        }
        match &entries[i].parsed {
            Some(p) => {
                mounts.push(p.duplicate());
                assert(mount_views(mounts@) =~= es.take(i as int).filter(|e: ConfigMountView| e.parsed is Some).map_values(
                    |e: ConfigMountView| e.parsed->0,
                ).push(es[i as int].parsed->0));
                assert(string_views(skipped@) =~= es.take(i + 1).filter(|e: ConfigMountView| e.parsed is None).map_values(
                    |e: ConfigMountView| e.spec,
                ));
            },
            None => {
                skipped.push(entries[i].spec.clone());
                assert(string_views(skipped@) =~= es.take(i as int).filter(|e: ConfigMountView| e.parsed is None).map_values(
                    |e: ConfigMountView| e.spec,
                ).push(es[i as int].spec));
                assert(mount_views(mounts@) =~= es.take(i + 1).filter(|e: ConfigMountView| e.parsed is Some).map_values(
                    |e: ConfigMountView| e.parsed->0,
                ));
            },
        }
        i = i + 1;
    }
    assert(es.take(entries@.len() as int) =~= es);
    MountCollection { mounts, skipped }
}

/// Whether an entry parses and its host path is one of `hosts`.
pub open spec fn removed_by_hosts(e: ConfigMountView, hosts: Seq<Seq<char>>) -> bool {
    e.parsed is Some && hosts.contains(e.parsed->0.host)
}

fn host_listed(host: &str, hosts: &Vec<String>) -> (b: bool)
    ensures
        b == string_views(hosts@).contains(host@),
{
    let ghost hv = string_views(hosts@);
    let mut i: usize = 0;
    while i < hosts.len()
        invariant
            i <= hosts@.len(),
            hv == string_views(hosts@),
            forall|j: int| 0 <= j < i ==> hv[j] != host@,
        decreases hosts@.len() - i,
    {
        if str_eq(hosts[i].as_str(), host) {
            assert(hv[i as int] == host@);
            return true;
        }
        i = i + 1;
    }
    false
}

/// Drops from the configured mounts those whose host path is listed in `hosts`;
/// returns the remaining specification strings and how many were dropped.
pub fn remove_mounts_from_config(entries: &Vec<ConfigMount>, hosts: &Vec<String>) -> (r: (
    Vec<String>,
    usize,
))
    ensures
        string_views(r.0@) == config_views(entries@).filter(
            |e: ConfigMountView| !removed_by_hosts(e, string_views(hosts@)),
        ).map_values(|e: ConfigMountView| e.spec),
        r.1 + r.0@.len() == entries@.len(),
{
    let ghost es = config_views(entries@);
    let ghost hv = string_views(hosts@);
    let mut kept: Vec<String> = Vec::new();
    let mut removed: usize = 0;
    let mut i: usize = 0;
    while i < entries.len()
        invariant
            i <= entries@.len(),
            es == config_views(entries@),
            hv == string_views(hosts@),
            string_views(kept@) == es.take(i as int).filter(|e: ConfigMountView| !removed_by_hosts(e, hv)).map_values(
                |e: ConfigMountView| e.spec,
            ),
            removed + kept@.len() == i,
        decreases entries@.len() - i,
    {
        proof {
            reveal_with_fuel(Seq::filter, 1);
            assert(es.take(i + 1).drop_last() =~= es.take(i as int));
            assert(es.take(i + 1).last() == es[i as int]);
        }
        let drop = match &entries[i].parsed {
            Some(p) => host_listed(p.host_path.as_str(), hosts),
            None => false,
        };
        if drop {
            removed = removed + 1;
        } else {
            kept.push(entries[i].spec.clone());
            assert(string_views(kept@) =~= es.take(i as int).filter(|e: ConfigMountView| !removed_by_hosts(e, hv)).map_values(
                |e: ConfigMountView| e.spec,
            ).push(es[i as int].spec));
        }
        i = i + 1;
    }
    assert(es.take(entries@.len() as int) =~= es);
    (kept, removed)
}

/// The first configured mount that parses and targets `target`.
pub fn find_mount_for_target(entries: &Vec<ConfigMount>, target: &str) -> (r: Option<ParsedMount>)
    ensures
        r is None <==> forall|i: int|
            0 <= i < entries@.len() ==> !targets(#[trigger] config_views(entries@)[i], target@),
        r matches Some(m) ==> exists|i: int|
            0 <= i < entries@.len() && targets(#[trigger] config_views(entries@)[i], target@)
                && config_views(entries@)[i].parsed->0 == m@ && forall|j: int|
                0 <= j < i ==> !targets(#[trigger] config_views(entries@)[j], target@),
{
    let ghost es = config_views(entries@);
    let mut i: usize = 0;
    while i < entries.len()
        invariant
            i <= entries@.len(),
            es == config_views(entries@),
            forall|j: int| 0 <= j < i ==> !targets(#[trigger] es[j], target@),
        decreases entries@.len() - i,
    {
        if entry_targets(&entries[i], target) {
            match &entries[i].parsed {
                Some(p) => {
                    let m = p.duplicate();
                    assert(targets(es[i as int], target@));
                    return Some(m);
                },
                None => {},
            }
        }
        i = i + 1;
    }
    None
}

// ---------------------------------------------------------------------------
// Restart: mount mismatch handling
// ---------------------------------------------------------------------------

/// What restart does when the running container's mounts differ from the configured ones.
#[derive(Debug, PartialEq, Eq)]
pub enum MountMismatchAction {
    NoMismatch,
    PromptRecreate,
    QuietError(String),
}

pub open spec fn mount_changed_message() -> Seq<char> {
    "Mount configuration changed. Container must be recreated to apply mount changes.\nRun without --quiet to be prompted, or manually recreate with:\n  occ stop --remove\n  occ start"@
}

/// No mismatch when the mounts are equal; otherwise an error in quiet mode and a
/// prompt to recreate the container in interactive mode.
pub fn resolve_mount_mismatch_action(
    current: &Vec<ContainerBindMount>,
    configured: &Vec<ParsedMount>,
    quiet: bool,
) -> (a: MountMismatchAction)
    ensures
        spec_mounts_equal(bind_views(current@), mount_views(configured@)) ==> a
            == MountMismatchAction::NoMismatch,
        !spec_mounts_equal(bind_views(current@), mount_views(configured@)) && quiet ==> (a matches MountMismatchAction::QuietError(m) && m@ == mount_changed_message()),
        !spec_mounts_equal(bind_views(current@), mount_views(configured@)) && !quiet ==> a
            == MountMismatchAction::PromptRecreate,
{
    if mounts_equal(current, configured) {
        return MountMismatchAction::NoMismatch;
    }
    if quiet {
        return MountMismatchAction::QuietError(
            owned(
                "Mount configuration changed. Container must be recreated to apply mount changes.\nRun without --quiet to be prompted, or manually recreate with:\n  occ stop --remove\n  occ start",
            ),
        );
    }
    MountMismatchAction::PromptRecreate
}

/// The host path shown for a bind source: on macOS the `/host_mnt` prefix that Docker
/// Desktop adds is removed.
pub fn format_bind_source_for_display(source: &str, is_macos: bool) -> (r: String)
    ensures
        r@ == (if is_macos && "/host_mnt"@.is_prefix_of(source@) {
            source@.skip("/host_mnt"@.len() as int)
        } else {
            source@
        }),
{
    if !is_macos {
        return owned(source);
    }
    let c = chars_of(source);
    let prefix = "/host_mnt";
    if starts_with(&c, prefix) {
        let rest = skip_chars(&c, prefix.unicode_len());
        return crate::text::string_of(&rest);
    }
    owned(source)
}

} // verus!
