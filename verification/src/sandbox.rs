//! Sandbox instance profiles: isolated Docker resources per worktree.

use vstd::prelude::*;
use vstd::utf8::encode_utf8;
use crate::text::{
    append, ascii_lowercase, chars_of, owned, push_hex, push_repeated, spec_ascii_lowercase,
    spec_hex, spec_pad_left, spec_trim, string_of, trim,
};

verus! {

/// Which Docker resources a command works on: the shared ones, or those of one
/// named sandbox instance (suffixed with `-<instance>`).
#[derive(Debug, Clone)]
pub struct SandboxProfile {
    pub instance_id: Option<String>,
    pub suffix: Option<String>,
}

impl SandboxProfile {
    /// The shared profile: no instance, no suffix.
    pub fn shared() -> (p: Self)
        ensures
            p.instance_id is None,
            p.suffix is None,
    {
        SandboxProfile { instance_id: None, suffix: None }
    }

    /// The profile of one instance, whose resources carry the suffix `-<instance_id>`.
    pub fn isolated(instance_id: String) -> (p: Self)
        ensures
            p.instance_id matches Some(i) && i@ == instance_id@,
            p.suffix matches Some(s) && s@ == seq!['-'] + instance_id@,
    {
        let mut suffix = owned("-");
        append(&mut suffix, instance_id.as_str());
        proof {
            reveal_strlit("-");
        }
        SandboxProfile { suffix: Some(suffix), instance_id: Some(instance_id) }
    }
}

pub open spec fn is_lower_or_digit(b: u8) -> bool {
    (97 <= b <= 122) || (48 <= b <= 57)
}

/// A valid instance name: 1 to 32 bytes of `a-z`, `0-9` and `-`, not starting
/// with `-` (`[a-z0-9][a-z0-9-]{0,31}`).
pub open spec fn spec_valid_instance_id(bytes: Seq<u8>) -> bool {
    &&& 1 <= bytes.len() <= 32
    &&& is_lower_or_digit(bytes[0])
    &&& forall|i: int| 0 <= i < bytes.len() ==> is_lower_or_digit(#[trigger] bytes[i]) || bytes[i] == 45
}

/// Whether `value` is a valid instance name.
pub fn is_valid_instance_id(value: &str) -> (b: bool)
    ensures
        b == spec_valid_instance_id(encode_utf8(value@)),
{
    let bytes = value.as_bytes();
    if bytes.len() == 0 || bytes.len() > 32 {
        return false;
    }
    let first = bytes[0];
    if !((97 <= first && first <= 122) || (48 <= first && first <= 57)) {
        return false;
    }
    let mut i: usize = 0;
    while i < bytes.len()
        invariant
            i <= bytes@.len(),
            bytes@ == encode_utf8(value@),
            forall|j: int| 0 <= j < i ==> is_lower_or_digit(#[trigger] bytes@[j]) || bytes@[j] == 45,
        decreases bytes@.len() - i,
    {
        let b = bytes[i];
        if !((97 <= b && b <= 122) || (48 <= b && b <= 57) || b == 45) {
            return false;
        }
        i = i + 1;
    }
    true
}

/// The error for an invalid instance name.
pub open spec fn spec_invalid_instance_message(value: Seq<char>) -> Seq<char> {
    "Invalid sandbox instance '"@ + value + "'. Expected [a-z0-9][a-z0-9-]{0,31}"@
}

/// Accepts a valid instance name as it is.
pub fn normalize_manual_instance_id(value: &str) -> (r: Result<String, String>)
    ensures
        r matches Ok(s) ==> spec_valid_instance_id(encode_utf8(value@)) && s@ == value@,
        r matches Err(e) ==> !spec_valid_instance_id(encode_utf8(value@)) && e@
            == spec_invalid_instance_message(value@),
{
    if !is_valid_instance_id(value) {
        let mut e = owned("Invalid sandbox instance '");
        append(&mut e, value);
        append(&mut e, "'. Expected [a-z0-9][a-z0-9-]{0,31}");
        return Err(e);
    }
    Ok(owned(value))
}

pub const FNV1A_64_OFFSET_BASIS: u64 = 0xcbf29ce484222325;

pub const FNV1A_64_PRIME: u64 = 0x100000001b3;

/// The 64-bit FNV-1a hash of `input`: for each byte, XOR it in, then multiply by
/// the FNV prime modulo 2^64.
pub open spec fn spec_fnv1a_64(input: Seq<u8>) -> u64
    decreases input.len(),
{
    if input.len() == 0 {
        FNV1A_64_OFFSET_BASIS
    } else {
        let h = spec_fnv1a_64(input.drop_last()) ^ (input.last() as u64);
        vstd::wrapping::u64_specs::wrapping_mul(h, FNV1A_64_PRIME)
    }
}

/// A deterministic 64-bit FNV-1a hash, used to name resources (not for security).
pub fn compute_stable_fnv1a_64_hash(input: &[u8]) -> (h: u64)
    ensures
        h == spec_fnv1a_64(input@),
{
    let mut hash = FNV1A_64_OFFSET_BASIS;
    let mut i: usize = 0;
    while i < input.len()
        invariant
            i <= input@.len(),
            hash == spec_fnv1a_64(input@.take(i as int)),
        decreases input@.len() - i,
    {
        proof {
            assert(input@.take(i + 1).drop_last() =~= input@.take(i as int));
        }
        hash = hash ^ (input[i] as u64);
        hash = hash.wrapping_mul(FNV1A_64_PRIME);
        i = i + 1;
    }
    assert(input@.take(input@.len() as int) =~= input@);
    hash
}

/// The instance name derived from a worktree's canonical path:
/// `wt-` and the path's hash in at least twelve hex digits.
pub open spec fn spec_auto_instance_id(path: Seq<u8>) -> Seq<char> {
    "wt-"@ + spec_pad_left(spec_hex(spec_fnv1a_64(path) as nat), 12, '0')
}

/// The instance name for a worktree, from the bytes of its canonical path.
pub fn auto_instance_id(path: &[u8]) -> (s: String)
    ensures
        s@ == spec_auto_instance_id(path@),
{
    let hash = compute_stable_fnv1a_64_hash(path);
    let mut digits = String::new();
    push_hex(&mut digits, hash);
    let mut s = owned("wt-");
    let n = digits.unicode_len();
    if n < 12 {
        push_repeated(&mut s, '0', 12 - n);
    }
    append(&mut s, digits.as_str());
    proof {
        reveal_strlit("wt-");
        assert(digits@ =~= Seq::<char>::empty() + spec_hex(hash as nat));
    }
    assert(s@ =~= spec_auto_instance_id(path@));
    s
}

/// What a `--sandbox-instance` value asks for.
#[derive(Debug, Clone)]
pub enum SandboxRequest {
    /// The shared resources.
    Shared,
    /// An instance named after the current worktree.
    Auto,
    /// The named instance.
    Named(String),
}

/// The value trimmed and lowercased (ASCII).
fn normalized(raw: &str) -> (s: Vec<char>)
    ensures
        s@ == spec_ascii_lowercase(spec_trim(raw@)),
{
    ascii_lowercase(&trim(&chars_of(raw)))
}

/// The request read from a `--sandbox-instance` value (or the environment), trimmed
/// and lowercased: nothing is the shared profile, `auto` a per-worktree instance,
/// anything else a name that must be valid.
pub open spec fn spec_sandbox_request(raw: Option<Seq<char>>) -> Result<SandboxRequestView, Seq<char>> {
    match raw {
        None => Ok(SandboxRequestView::Shared),
        Some(r) => {
            let n = spec_ascii_lowercase(spec_trim(r));
            if n.len() == 0 {
                Err("--sandbox-instance cannot be empty; use a-z, 0-9, and '-' only"@)
            } else if n == "auto"@ {
                Ok(SandboxRequestView::Auto)
            } else if spec_valid_instance_id(encode_utf8(n)) {
                Ok(SandboxRequestView::Named(n))
            } else {
                Err(spec_invalid_instance_message(n))
            }
        },
    }
}

/// [`SandboxRequest`] with the name as characters.
pub enum SandboxRequestView {
    Shared,
    Auto,
    Named(Seq<char>),
}

impl View for SandboxRequest {
    type V = SandboxRequestView;

    open spec fn view(&self) -> SandboxRequestView {
        match self {
            SandboxRequest::Shared => SandboxRequestView::Shared,
            SandboxRequest::Auto => SandboxRequestView::Auto,
            SandboxRequest::Named(n) => SandboxRequestView::Named(n@),
        }
    }
}

/// Resolves a `--sandbox-instance` value.
pub fn resolve_sandbox_request(raw: Option<&str>) -> (r: Result<SandboxRequest, String>)
    ensures
        match (r, spec_sandbox_request(
            match raw {
                Some(s) => Some(s@),
                None => None,
            },
        )) {
            (Ok(a), Ok(b)) => a@ == b,
            (Err(a), Err(b)) => a@ == b,
            _ => false,
        },
{
    let raw = match raw {
        None => return Ok(SandboxRequest::Shared),
        Some(r) => r,
    };
    let n = normalized(raw);
    let s = string_of(&n);
    if n.len() == 0 {
        return Err(owned("--sandbox-instance cannot be empty; use a-z, 0-9, and '-' only"));
    }
    if crate::text::eq_str(&n, "auto") {
        return Ok(SandboxRequest::Auto);
    }
    if is_valid_instance_id(s.as_str()) {
        Ok(SandboxRequest::Named(s))
    } else {
        let mut e = owned("Invalid sandbox instance '");
        append(&mut e, s.as_str());
        append(&mut e, "'. Expected [a-z0-9][a-z0-9-]{0,31}");
        Err(e)
    }
}

} // verus!
