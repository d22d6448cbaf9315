//! Character-level text helpers with exact specifications.
//!
//! Strings are specified through their views, sequences of `char`.

use vstd::prelude::*;

verus! {

// ---------------------------------------------------------------------------
// Character classes
// ---------------------------------------------------------------------------

/// The Unicode `White_Space` property, which `char::is_whitespace` tests: `'\t'`
/// through `'\r'`, the space, U+0085, U+00A0, U+1680, U+2000 through U+200A, U+2028,
/// U+2029, U+202F, U+205F and U+3000.
pub open spec fn spec_is_whitespace(c: char) -> bool {
    let n = c as u32;
    ||| 0x09 <= n <= 0x0D
    ||| n == 0x20
    ||| n == 0x85
    ||| n == 0xA0
    ||| n == 0x1680
    ||| 0x2000 <= n <= 0x200A
    ||| n == 0x2028
    ||| n == 0x2029
    ||| n == 0x202F
    ||| n == 0x205F
    ||| n == 0x3000
}

/// Whether a character outside ASCII is `Alphabetic` or `Numeric` in Unicode.
pub uninterp spec fn spec_unicode_alphanumeric(c: char) -> bool;

/// What `char::is_alphanumeric` tests: on ASCII the letters and digits, beyond it
/// the Unicode `Alphabetic` or `Numeric` property.
pub open spec fn spec_is_alphanumeric(c: char) -> bool {
    if (c as u32) < 128 {
        is_ascii_alphanumeric(c)
    } else {
        spec_unicode_alphanumeric(c)
    }
}

/// Whether `c` has the Unicode `White_Space` property (what `char::is_whitespace`
/// tests).
pub(crate) fn is_whitespace(c: char) -> (b: bool)
    ensures
        b == spec_is_whitespace(c),
{
    let n = c as u32;
    (0x09 <= n && n <= 0x0D) || n == 0x20 || n == 0x85 || n == 0xA0 || n == 0x1680 || (0x2000 <= n
        && n <= 0x200A) || n == 0x2028 || n == 0x2029 || n == 0x202F || n == 0x205F || n == 0x3000
}

/// `char::is_alphanumeric`. Claimed: on ASCII characters it holds exactly of the
/// letters and digits, as documented; beyond ASCII it is the Unicode `Alphabetic` or
/// `Numeric` property, which is named here and not restated.
#[verifier::external_body]
pub(crate) fn is_alphanumeric(c: char) -> (b: bool)
    ensures
        b == spec_is_alphanumeric(c),
        (c as u32) >= 128 ==> b == spec_unicode_alphanumeric(c),
{
    c.is_alphanumeric()
}

pub open spec fn is_ascii_digit(c: char) -> bool {
    '0' <= c && c <= '9'
}

pub open spec fn is_ascii_lower(c: char) -> bool {
    'a' <= c && c <= 'z'
}

pub open spec fn is_ascii_upper(c: char) -> bool {
    'A' <= c && c <= 'Z'
}

pub open spec fn is_ascii_alphanumeric(c: char) -> bool {
    is_ascii_digit(c) || is_ascii_lower(c) || is_ascii_upper(c)
}

pub open spec fn is_hex_letter(c: char) -> bool {
    ('a' <= c && c <= 'f') || ('A' <= c && c <= 'F')
}

pub open spec fn is_ascii_hexdigit(c: char) -> bool {
    is_ascii_digit(c) || is_hex_letter(c)
}

/// ASCII lowercase mapping of one character (`char::to_ascii_lowercase`).
pub open spec fn ascii_lower(c: char) -> char {
    if is_ascii_upper(c) {
        ((c as u32) + 32) as char
    } else {
        c
    }
}

pub fn is_digit(c: char) -> (b: bool)
    ensures
        b == is_ascii_digit(c),
{
    '0' <= c && c <= '9'
}

pub fn is_hexdigit(c: char) -> (b: bool)
    ensures
        b == is_ascii_hexdigit(c),
{
    ('0' <= c && c <= '9') || ('a' <= c && c <= 'f') || ('A' <= c && c <= 'F')
}

pub fn to_ascii_lower(c: char) -> (r: char)
    ensures
        r == ascii_lower(c),
{
    if 'A' <= c && c <= 'Z' {
        let b: u8 = (c as u8) + 32u8;
        b as char
    } else {
        c
    }
}

// ---------------------------------------------------------------------------
// Conversions between strings and character vectors
// ---------------------------------------------------------------------------

/// Appends one character to a string (`String::push`).
#[verifier::external_body]
pub(crate) fn push_char(s: &mut String, c: char)
    ensures
        final(s)@ == old(s)@.push(c),
{
    s.push(c);
}

/// The characters of `s`.
pub fn chars_of(s: &str) -> (v: Vec<char>)
    ensures
        v@ == s@,
{
    let n = s.unicode_len();
    let mut v: Vec<char> = Vec::new();
    let mut i: usize = 0;
    while i < n
        invariant
            n == s@.len(),
            i <= n,
            v@ == s@.take(i as int),
        decreases n - i,
    {
        v.push(s.get_char(i));
        assert(s@.take(i + 1) =~= s@.take(i as int).push(s@[i as int]));
        i = i + 1;
    }
    assert(s@.take(n as int) =~= s@);
    v
}

/// The string holding `v[from..to]`.
pub fn string_of_range(v: &Vec<char>, from: usize, to: usize) -> (s: String)
    requires
        from <= to <= v@.len(),
    ensures
        s@ == v@.subrange(from as int, to as int),
{
    let mut s = String::new();
    let mut i = from;
    while i < to
        invariant
            from <= i <= to <= v@.len(),
            s@ == v@.subrange(from as int, i as int),
        decreases to - i,
    {
        push_char(&mut s, v[i]);
        assert(v@.subrange(from as int, i + 1) =~= v@.subrange(from as int, i as int).push(v@[i as int]));
        i = i + 1;
    }
    s
}

/// The string holding all of `v`.
pub fn string_of(v: &Vec<char>) -> (s: String)
    ensures
        s@ == v@,
{
    let s = string_of_range(v, 0, v.len());
    assert(v@.subrange(0, v@.len() as int) =~= v@);
    s
}

/// A copy of `s` as an owned string.
pub fn owned(s: &str) -> (r: String)
    ensures
        r@ == s@,
{
    s.to_owned()
}

/// Appends `t` to `s`.
pub fn append(s: &mut String, t: &str)
    ensures
        final(s)@ == old(s)@ + t@,
{
    s.append(t);
}

// ---------------------------------------------------------------------------
// Decimal and hexadecimal rendering
// ---------------------------------------------------------------------------

/// The character for a single digit, in base 10 or 16 (lowercase).
pub open spec fn spec_digit_char(d: nat) -> char {
    if d < 10 {
        (('0' as u32) + d) as char
    } else if d < 16 {
        (('a' as u32) + (d - 10)) as char
    } else {
        '?'
    }
}

/// The decimal digits of `n`, most significant first, without sign or padding.
pub open spec fn spec_decimal(n: nat) -> Seq<char>
    decreases n,
{
    if n < 10 {
        seq![spec_digit_char(n)]
    } else {
        spec_decimal(n / 10).push(spec_digit_char(n % 10))
    }
}

/// The decimal rendering of a signed integer, with a leading `-` when negative.
pub open spec fn spec_signed_decimal(n: int) -> Seq<char> {
    if n < 0 {
        seq!['-'] + spec_decimal((-n) as nat)
    } else {
        spec_decimal(n as nat)
    }
}

/// The lowercase hexadecimal digits of `n`, most significant first.
pub open spec fn spec_hex(n: nat) -> Seq<char>
    decreases n,
{
    if n < 16 {
        seq![spec_digit_char(n)]
    } else {
        spec_hex(n / 16).push(spec_digit_char(n % 16))
    }
}

/// `s` padded on the left with `c` to at least `width` characters.
pub open spec fn spec_pad_left(s: Seq<char>, width: nat, c: char) -> Seq<char> {
    if s.len() >= width {
        s
    } else {
        Seq::new((width - s.len()) as nat, |i: int| c) + s
    }
}

/// `s` padded on the right with spaces to at least `width` characters
/// (the `{:<width}` format).
pub open spec fn spec_pad_right(s: Seq<char>, width: nat) -> Seq<char> {
    if s.len() >= width {
        s
    } else {
        s + Seq::new((width - s.len()) as nat, |i: int| ' ')
    }
}

fn digit_char(d: u64) -> (c: char)
    requires
        d < 16,
    ensures
        c == spec_digit_char(d as nat),
{
    if d < 10 {
        let b: u8 = (d as u8) + 48u8;
        b as char
    } else {
        let b: u8 = (d as u8) + 87u8;
        b as char
    }
}

/// Appends the decimal digits of `n` to `s`.
pub fn push_decimal(s: &mut String, n: u64)
    ensures
        final(s)@ == old(s)@ + spec_decimal(n as nat),
    decreases n,
{
    if n < 10 {
        push_char(s, digit_char(n));
        assert(old(s)@ + spec_decimal(n as nat) =~= old(s)@.push(spec_digit_char(n as nat)));
    } else {
        push_decimal(s, n / 10);
        push_char(s, digit_char(n % 10));
        assert(old(s)@ + spec_decimal(n as nat) =~= (old(s)@ + spec_decimal((n / 10) as nat)).push(
            spec_digit_char((n % 10) as nat),
        ));
    }
}

/// Renders `n` in decimal (`n.to_string()`).
pub fn decimal_string(n: u64) -> (s: String)
    ensures
        s@ == spec_decimal(n as nat),
{
    let mut s = String::new();
    push_decimal(&mut s, n);
    assert(Seq::<char>::empty() + spec_decimal(n as nat) =~= spec_decimal(n as nat));
    s
}

/// Appends the decimal rendering of a signed integer to `s`.
pub fn push_signed_decimal(s: &mut String, n: i64)
    ensures
        final(s)@ == old(s)@ + spec_signed_decimal(n as int),
{
    if n < 0 {
        push_char(s, '-');
        let m: u64 = if n == i64::MIN {
            9223372036854775808u64
        } else {
            (-n) as u64
        };
        push_decimal(s, m);
        assert(old(s)@ + spec_signed_decimal(n as int) =~= old(s)@.push('-') + spec_decimal(m as nat));
    } else {
        push_decimal(s, n as u64);
    }
}

/// Appends the lowercase hexadecimal digits of `n` to `s`.
pub fn push_hex(s: &mut String, n: u64)
    ensures
        final(s)@ == old(s)@ + spec_hex(n as nat),
    decreases n,
{
    if n < 16 {
        push_char(s, digit_char(n));
        assert(old(s)@ + spec_hex(n as nat) =~= old(s)@.push(spec_digit_char(n as nat)));
    } else {
        push_hex(s, n / 16);
        push_char(s, digit_char(n % 16));
        assert(old(s)@ + spec_hex(n as nat) =~= (old(s)@ + spec_hex((n / 16) as nat)).push(
            spec_digit_char((n % 16) as nat),
        ));
    }
}

/// Appends `c` repeated `count` times to `s`.
pub fn push_repeated(s: &mut String, c: char, count: usize)
    ensures
        final(s)@ == old(s)@ + Seq::new(count as nat, |i: int| c),
{
    let mut k: usize = 0;
    while k < count
        invariant
            k <= count,
            s@ == old(s)@ + Seq::new(k as nat, |i: int| c),
        decreases count - k,
    {
        push_char(s, c);
        k = k + 1;
        assert(s@ =~= old(s)@ + Seq::new(k as nat, |i: int| c));
    }
}

/// Appends `t` padded on the right with spaces to `width` characters (`{:<width}`).
pub fn push_padded_right(s: &mut String, t: &str, width: usize)
    ensures
        final(s)@ == old(s)@ + spec_pad_right(t@, width as nat),
{
    let len = t.unicode_len();
    append(s, t);
    if len < width {
        push_repeated(s, ' ', width - len);
        assert(s@ =~= old(s)@ + spec_pad_right(t@, width as nat));
    }
}

// ---------------------------------------------------------------------------
// Splitting
// ---------------------------------------------------------------------------

/// The pieces of `s` between separators (`str::split` with a predicate): always at
/// least one piece; adjacent separators give empty pieces.
pub open spec fn spec_split_by(s: Seq<char>, is_sep: spec_fn(char) -> bool) -> Seq<Seq<char>>
    decreases s.len(),
{
    if s.len() == 0 {
        seq![Seq::<char>::empty()]
    } else {
        let prev = spec_split_by(s.drop_last(), is_sep);
        if is_sep(s.last()) {
            prev.push(Seq::<char>::empty())
        } else {
            prev.update(prev.len() - 1, prev.last().push(s.last()))
        }
    }
}

pub proof fn lemma_split_by_nonempty(s: Seq<char>, is_sep: spec_fn(char) -> bool)
    ensures
        spec_split_by(s, is_sep).len() >= 1,
    decreases s.len(),
{
    if s.len() > 0 {
        lemma_split_by_nonempty(s.drop_last(), is_sep);
    }
}

/// The ways of choosing separators that the exec splitter supports.
#[derive(Clone, Copy)]
pub enum Separator {
    /// One given character.
    Char(char),
    /// Unicode whitespace.
    Whitespace,
    /// Anything that is not an ASCII hexadecimal digit.
    NonHexDigit,
}

pub open spec fn separator_pred(sep: Separator) -> spec_fn(char) -> bool {
    match sep {
        Separator::Char(d) => |c: char| c == d,
        Separator::Whitespace => |c: char| spec_is_whitespace(c),
        Separator::NonHexDigit => |c: char| !is_ascii_hexdigit(c),
    }
}

fn is_separator(sep: Separator, c: char) -> (b: bool)
    ensures
        b == (separator_pred(sep))(c),
{
    match sep {
        Separator::Char(d) => c == d,
        Separator::Whitespace => is_whitespace(c),
        Separator::NonHexDigit => !is_hexdigit(c),
    }
}

pub open spec fn views(v: Seq<Vec<char>>) -> Seq<Seq<char>> {
    v.map_values(|x: Vec<char>| x@)
}

/// Splits `s` at every separator.
pub fn split_chars(s: &Vec<char>, sep: Separator) -> (pieces: Vec<Vec<char>>)
    ensures
        views(pieces@) == spec_split_by(s@, separator_pred(sep)),
{
    let mut pieces: Vec<Vec<char>> = Vec::new();
    pieces.push(Vec::new());
    let mut i: usize = 0;
    proof {
        assert(s@.take(0) =~= Seq::<char>::empty());
        assert(views(pieces@) =~= seq![Seq::<char>::empty()]);
    }
    while i < s.len()
        invariant
            i <= s@.len(),
            pieces@.len() >= 1,
            views(pieces@) == spec_split_by(s@.take(i as int), separator_pred(sep)),
        decreases s@.len() - i,
    {
        let c = s[i];
        let ghost prev = views(pieces@);
        proof {
            assert(s@.take(i + 1).drop_last() =~= s@.take(i as int));
            assert(s@.take(i + 1).last() == c);
        }
        if is_separator(sep, c) {
            pieces.push(Vec::new());
            assert(views(pieces@) =~= prev.push(Seq::<char>::empty()));
        } else {
            let last = pieces.len() - 1;
            let mut piece = pieces.remove(last);
            piece.push(c);
            pieces.push(piece);
            assert(views(pieces@) =~= prev.update(prev.len() - 1, prev.last().push(c)));
        }
        i = i + 1;
    }
    assert(s@.take(s@.len() as int) =~= s@);
    pieces
}

/// The whitespace-separated words of `s` (`str::split_whitespace`).
pub open spec fn spec_words(s: Seq<char>) -> Seq<Seq<char>> {
    spec_split_by(s, |c: char| spec_is_whitespace(c)).filter(|p: Seq<char>| p.len() > 0)
}

/// The leading characters of `s` up to its first whitespace (for a trimmed `s`, its
/// first word).
pub open spec fn spec_first_word(s: Seq<char>) -> Seq<char> {
    if exists|i: int| 0 <= i < s.len() && spec_is_whitespace(#[trigger] s[i]) {
        let i = choose|i: int|
            0 <= i < s.len() && spec_is_whitespace(s[i]) && forall|j: int|
                0 <= j < i ==> !spec_is_whitespace(#[trigger] s[j]);
        s.take(i)
    } else {
        s
    }
}

/// The leading characters of `s` up to its first whitespace.
pub fn first_word(s: &Vec<char>) -> (r: Vec<char>)
    ensures
        r@ == spec_first_word(s@),
{
    let mut r: Vec<char> = Vec::new();
    let mut i: usize = 0;
    while i < s.len()
        invariant
            i <= s@.len(),
            r@ == s@.take(i as int),
            forall|j: int| 0 <= j < i ==> !spec_is_whitespace(#[trigger] s@[j]),
        decreases s@.len() - i,
    {
        if is_whitespace(s[i]) {
            proof {
                let c = choose|k: int|
                    0 <= k < s@.len() && spec_is_whitespace(s@[k]) && forall|j: int|
                        0 <= j < k ==> !spec_is_whitespace(#[trigger] s@[j]);
                assert(0 <= i < s@.len() && spec_is_whitespace(s@[i as int]));
                if c < i {
                    assert(!spec_is_whitespace(s@[c]));
                } else if c > i {
                    assert(!spec_is_whitespace(s@[i as int]));
                }
                assert(c == i);
            }
            return r;
        }
        r.push(s[i]);
        assert(r@ =~= s@.take(i + 1));
        i = i + 1;
    }
    assert(s@.take(s@.len() as int) =~= s@);
    r
}

/// The whitespace-separated words of `s`.
pub fn words(s: &Vec<char>) -> (w: Vec<Vec<char>>)
    ensures
        views(w@) == spec_words(s@),
{
    let pieces = split_chars(s, Separator::Whitespace);
    let ghost all = views(pieces@);
    assert(separator_pred(Separator::Whitespace) == (|c: char| spec_is_whitespace(c)));
    let mut w: Vec<Vec<char>> = Vec::new();
    let mut i: usize = 0;
    while i < pieces.len()
        invariant
            i <= pieces@.len(),
            all == views(pieces@),
            views(w@) == all.take(i as int).filter(|p: Seq<char>| p.len() > 0),
        decreases pieces@.len() - i,
    {
        proof {
            reveal_with_fuel(Seq::filter, 1);
            assert(all.take(i + 1).drop_last() =~= all.take(i as int));
        }
        if pieces[i].len() > 0 {
            w.push(pieces[i].clone());
            assert(views(w@) =~= all.take(i as int).filter(|p: Seq<char>| p.len() > 0).push(all[i as int]));
        }
        i = i + 1;
    }
    assert(all.take(pieces@.len() as int) =~= all);
    w
}


// ---------------------------------------------------------------------------
// Lines
// ---------------------------------------------------------------------------

/// `p` without one trailing carriage return.
pub open spec fn spec_strip_cr(p: Seq<char>) -> Seq<char> {
    if p.len() > 0 && p.last() == '\r' {
        p.drop_last()
    } else {
        p
    }
}

/// The lines of `s` (`str::lines`): split at `'\n'`, a `'\r'` before a `'\n'`
/// removed, and no empty last line after a final line ending.
pub open spec fn spec_lines(s: Seq<char>) -> Seq<Seq<char>> {
    let pieces = spec_split_by(s, |c: char| c == '\n');
    let n = pieces.len();
    let head = pieces.take(n - 1).map_values(|p: Seq<char>| spec_strip_cr(p));
    if pieces[n - 1].len() > 0 {
        head.push(pieces[n - 1])
    } else {
        head
    }
}

fn strip_cr(p: Vec<char>) -> (r: Vec<char>)
    ensures
        r@ == spec_strip_cr(p@),
{
    let mut p = p;
    if p.len() > 0 && p[p.len() - 1] == '\r' {
        p.pop();
    }
    p
}

/// The lines of `s`.
pub fn lines(s: &Vec<char>) -> (ls: Vec<Vec<char>>)
    ensures
        views(ls@) == spec_lines(s@),
{
    let pieces = split_chars(s, Separator::Char('\n'));
    let ghost all = views(pieces@);
    proof {
        assert(separator_pred(Separator::Char('\n')) == (|c: char| c == '\n'));
        lemma_split_by_nonempty(s@, |c: char| c == '\n');
    }
    let n = pieces.len();
    let mut ls: Vec<Vec<char>> = Vec::new();
    let mut i: usize = 0;
    while i + 1 < n
        invariant
            n == pieces@.len(),
            n >= 1,
            i + 1 <= n,
            all == views(pieces@),
            views(ls@) == all.take(i as int).map_values(|p: Seq<char>| spec_strip_cr(p)),
        decreases n - i,
    {
        let cur = pieces[i].clone();
        assert(cur@ =~= all[i as int]);
        let piece = strip_cr(cur);
        let ghost before = views(ls@);
        ls.push(piece);
        proof {
            let target = all.take(i + 1).map_values(|p: Seq<char>| spec_strip_cr(p));
            assert(views(ls@) =~= before.push(piece@));
            assert(before.len() == i);
            assert(all.len() == n);
            assert(target.len() == i + 1);
            assert forall|j: int| 0 <= j < target.len() implies views(ls@)[j] == target[j] by {
                if j < i {
                    assert(views(ls@)[j] == before[j]);
                    assert(all.take(i + 1)[j] == all.take(i as int)[j]);
                } else {
                    assert(views(ls@)[j] == piece@);
                }
            }
            assert(views(ls@) =~= target);
        }
        i = i + 1;
    }
    if pieces[n - 1].len() > 0 {
        let cur = pieces[n - 1].clone();
        assert(cur@ =~= all[n - 1]);
        ls.push(cur);
        assert(views(ls@) =~= all.take(n - 1).map_values(|p: Seq<char>| spec_strip_cr(p)).push(
            all[n - 1],
        ));
    }
    ls
}

// ---------------------------------------------------------------------------
// Trimming
// ---------------------------------------------------------------------------

/// `s` without leading whitespace.
pub open spec fn spec_trim_start(s: Seq<char>) -> Seq<char>
    decreases s.len(),
{
    if s.len() > 0 && spec_is_whitespace(s[0]) {
        spec_trim_start(s.drop_first())
    } else {
        s
    }
}

/// `s` without trailing whitespace.
pub open spec fn spec_trim_end(s: Seq<char>) -> Seq<char>
    decreases s.len(),
{
    if s.len() > 0 && spec_is_whitespace(s.last()) {
        spec_trim_end(s.drop_last())
    } else {
        s
    }
}

/// `s` without leading and trailing whitespace (`str::trim`).
pub open spec fn spec_trim(s: Seq<char>) -> Seq<char> {
    spec_trim_end(spec_trim_start(s))
}

/// `s[from..]` with its leading whitespace removed is the result.
fn trim_start_from(s: &Vec<char>, from: usize, to: usize) -> (a: usize)
    requires
        from <= to <= s@.len(),
    ensures
        from <= a <= to,
        s@.subrange(a as int, to as int) == spec_trim_start(s@.subrange(from as int, to as int)),
{
    let mut a = from;
    while a < to && is_whitespace(s[a])
        invariant
            from <= a <= to <= s@.len(),
            spec_trim_start(s@.subrange(a as int, to as int)) == spec_trim_start(
                s@.subrange(from as int, to as int),
            ),
        decreases to - a,
    {
        assert(s@.subrange(a as int, to as int).drop_first() =~= s@.subrange(a + 1, to as int));
        a = a + 1;
    }
    a
}

fn trim_end_to(s: &Vec<char>, from: usize, to: usize) -> (b: usize)
    requires
        from <= to <= s@.len(),
    ensures
        from <= b <= to,
        s@.subrange(from as int, b as int) == spec_trim_end(s@.subrange(from as int, to as int)),
{
    let mut b = to;
    while b > from && is_whitespace(s[b - 1])
        invariant
            from <= b <= to <= s@.len(),
            spec_trim_end(s@.subrange(from as int, b as int)) == spec_trim_end(
                s@.subrange(from as int, to as int),
            ),
        decreases b - from,
    {
        assert(s@.subrange(from as int, b as int).drop_last() =~= s@.subrange(from as int, b - 1));
        b = b - 1;
    }
    b
}

/// The bounds of `s` with surrounding whitespace removed.
pub fn trim_bounds(s: &Vec<char>) -> (r: (usize, usize))
    ensures
        r.0 <= r.1 <= s@.len(),
        s@.subrange(r.0 as int, r.1 as int) == spec_trim(s@),
{
    let a = trim_start_from(s, 0, s.len());
    let b = trim_end_to(s, a, s.len());
    assert(s@.subrange(0, s@.len() as int) =~= s@);
    (a, b)
}

/// `s` with surrounding whitespace removed.
pub fn trim(s: &Vec<char>) -> (t: Vec<char>)
    ensures
        t@ == spec_trim(s@),
{
    let (a, b) = trim_bounds(s);
    let mut t: Vec<char> = Vec::new();
    let mut i = a;
    while i < b
        invariant
            a <= i <= b <= s@.len(),
            t@ == s@.subrange(a as int, i as int),
        decreases b - i,
    {
        t.push(s[i]);
        assert(t@ =~= s@.subrange(a as int, i + 1));
        i = i + 1;
    }
    t
}

// ---------------------------------------------------------------------------
// Comparisons
// ---------------------------------------------------------------------------

/// Whether `s` and `t` hold the same characters.
pub fn seq_eq(s: &Vec<char>, t: &Vec<char>) -> (b: bool)
    ensures
        b == (s@ == t@),
{
    if s.len() != t.len() {
        return false;
    }
    let mut i: usize = 0;
    while i < s.len()
        invariant
            s@.len() == t@.len(),
            i <= s@.len(),
            forall|j: int| 0 <= j < i ==> s@[j] == t@[j],
        decreases s@.len() - i,
    {
        if s[i] != t[i] {
            return false;
        }
        i = i + 1;
    }
    assert(s@ =~= t@);
    true
}

/// Whether `s` and the string `t` hold the same characters.
pub fn eq_str(s: &Vec<char>, t: &str) -> (b: bool)
    ensures
        b == (s@ == t@),
{
    let tv = chars_of(t);
    seq_eq(s, &tv)
}

/// Whether two strings hold the same characters.
pub fn str_eq(s: &str, t: &str) -> (b: bool)
    ensures
        b == (s@ == t@),
{
    let sv = chars_of(s);
    eq_str(&sv, t)
}

/// Whether `p` is a prefix of `s[from..]`.
pub fn has_prefix_at(s: &Vec<char>, from: usize, p: &Vec<char>) -> (b: bool)
    requires
        from <= s@.len(),
    ensures
        b == p@.is_prefix_of(s@.subrange(from as int, s@.len() as int)),
{
    if s.len() - from < p.len() {
        return false;
    }
    let mut i: usize = 0;
    while i < p.len()
        invariant
            from + p@.len() <= s@.len(),
            i <= p@.len(),
            forall|j: int| 0 <= j < i ==> p@[j] == s@[from + j],
        decreases p@.len() - i,
    {
        assert(from + i < s@.len());
        assert(s@.len() == s.len());
        if p[i] != s[from + i] {
            assert(s@.subrange(from as int, s@.len() as int)[i as int] == s@[from + i]);
            return false;
        }
        i = i + 1;
    }
    assert(p@ =~= s@.subrange(from as int, s@.len() as int).subrange(0, p@.len() as int));
    true
}

/// Whether `s` starts with `p` (`str::starts_with`).
pub fn starts_with(s: &Vec<char>, p: &str) -> (b: bool)
    ensures
        b == p@.is_prefix_of(s@),
{
    let pv = chars_of(p);
    let r = has_prefix_at(s, 0, &pv);
    assert(s@.subrange(0, s@.len() as int) =~= s@);
    r
}

/// Whether `s` ends with `p` (`str::ends_with`).
pub fn ends_with(s: &Vec<char>, p: &Vec<char>) -> (b: bool)
    ensures
        b == p@.is_suffix_of(s@),
{
    if s.len() < p.len() {
        return false;
    }
    let from = s.len() - p.len();
    let r = has_prefix_at(s, from, p);
    assert(r == (p@ =~= s@.subrange(from as int, s@.len() as int)));
    r
}

/// Whether `p` occurs in `s` at some position.
pub open spec fn spec_contains(s: Seq<char>, p: Seq<char>) -> bool {
    exists|i: int| 0 <= i <= s.len() - p.len() && #[trigger] s.subrange(i, i + p.len()) == p
}

/// Whether `p` occurs in `s` (`str::contains`).
pub fn contains(s: &Vec<char>, p: &Vec<char>) -> (b: bool)
    ensures
        b == spec_contains(s@, p@),
{
    if s.len() < p.len() {
        return false;
    }
    let last = s.len() - p.len();
    let mut i: usize = 0;
    loop
        invariant
            last + p@.len() == s@.len(),
            i <= last,
            forall|j: int| 0 <= j < i ==> #[trigger] s@.subrange(j, j + p@.len()) != p@,
        decreases last + 1 - i,
    {
        if has_prefix_at(s, i, p) {
            assert(s@.subrange(i as int, i + p@.len()) =~= s@.subrange(i as int, s@.len() as int).subrange(0, p@.len() as int));
            return true;
        }
        assert(s@.subrange(i as int, i + p@.len()) != p@) by {
            if s@.subrange(i as int, i + p@.len()) == p@ {
                assert(p@ =~= s@.subrange(i as int, s@.len() as int).subrange(0, p@.len() as int));
            }
        }
        if i == last {
            return false;
        }
        i = i + 1;
    }
}

/// Whether the string `p` occurs in `s`.
pub fn contains_str(s: &Vec<char>, p: &str) -> (b: bool)
    ensures
        b == spec_contains(s@, p@),
{
    let pv = chars_of(p);
    contains(s, &pv)
}

// ---------------------------------------------------------------------------
// Lists of strings
// ---------------------------------------------------------------------------

/// The characters of each string in `v`.
pub open spec fn string_views(v: Seq<String>) -> Seq<Seq<char>> {
    v.map_values(|s: String| s@)
}

/// The items joined with `sep` between neighbours (`[T]::join`).
pub open spec fn spec_join(items: Seq<Seq<char>>, sep: Seq<char>) -> Seq<char>
    decreases items.len(),
{
    if items.len() == 0 {
        Seq::empty()
    } else if items.len() == 1 {
        items[0]
    } else {
        spec_join(items.drop_last(), sep) + sep + items.last()
    }
}

/// The strings of `items` joined with `sep`.
pub fn join(items: &Vec<String>, sep: &str) -> (s: String)
    ensures
        s@ == spec_join(string_views(items@), sep@),
{
    let mut s = String::new();
    let mut i: usize = 0;
    while i < items.len()
        invariant
            i <= items@.len(),
            s@ == spec_join(string_views(items@).take(i as int), sep@),
        decreases items@.len() - i,
    {
        let ghost before = string_views(items@).take(i as int);
        proof {
            assert(string_views(items@).take(i + 1).drop_last() =~= before);
        }
        if i > 0 {
            append(&mut s, sep);
        }
        append(&mut s, items[i].as_str());
        proof {
            let after = string_views(items@).take(i + 1);
            if i == 0 {
                assert(after.len() == 1);
                assert(s@ =~= after[0]);
            } else {
                assert(s@ =~= spec_join(before, sep@) + sep@ + after.last());
            }
        }
        i = i + 1;
    }
    assert(string_views(items@).take(items@.len() as int) =~= string_views(items@));
    s
}

/// `s` with ASCII letters lowercased (`str::to_ascii_lowercase`).
pub open spec fn spec_ascii_lowercase(s: Seq<char>) -> Seq<char> {
    s.map_values(|c: char| ascii_lower(c))
}

/// `s` with ASCII letters lowercased.
pub fn ascii_lowercase(s: &Vec<char>) -> (r: Vec<char>)
    ensures
        r@ == spec_ascii_lowercase(s@),
{
    let mut r: Vec<char> = Vec::new();
    let mut i: usize = 0;
    while i < s.len()
        invariant
            i <= s@.len(),
            r@ == spec_ascii_lowercase(s@.take(i as int)),
        decreases s@.len() - i,
    {
        r.push(to_ascii_lower(s[i]));
        assert(r@ =~= spec_ascii_lowercase(s@.take(i + 1)));
        i = i + 1;
    }
    assert(s@.take(s@.len() as int) =~= s@);
    r
}

/// Whether every character of `s` is an ASCII digit.
pub fn all_digits(s: &Vec<char>) -> (b: bool)
    ensures
        b == (forall|i: int| 0 <= i < s@.len() ==> is_ascii_digit(#[trigger] s@[i])),
{
    let mut i: usize = 0;
    while i < s.len()
        invariant
            i <= s@.len(),
            forall|j: int| 0 <= j < i ==> is_ascii_digit(#[trigger] s@[j]),
        decreases s@.len() - i,
    {
        if !is_digit(s[i]) {
            return false;
        }
        i = i + 1;
    }
    true
}

// ---------------------------------------------------------------------------
// Unsigned integers
// ---------------------------------------------------------------------------

/// The value of a string of decimal digits.
pub open spec fn spec_digits_value(s: Seq<char>) -> nat
    decreases s.len(),
{
    if s.len() == 0 {
        0
    } else {
        spec_digits_value(s.drop_last()) * 10 + ((s.last() as u32) - ('0' as u32)) as nat
    }
}

/// Whether `s` consists of ASCII digits.
pub open spec fn all_ascii_digits(s: Seq<char>) -> bool {
    forall|i: int| 0 <= i < s.len() ==> is_ascii_digit(#[trigger] s[i])
}

/// `s` without one leading `+`.
pub open spec fn without_plus(s: Seq<char>) -> Seq<char> {
    if s.len() > 0 && s[0] == '+' {
        s.drop_first()
    } else {
        s
    }
}

/// What `str::parse` gives for an unsigned integer type whose largest value is
/// `max`: an optional `+`, then one or more ASCII digits, whose value is at most `max`.
pub open spec fn spec_parse_unsigned(s: Seq<char>, max: nat) -> Option<nat> {
    let d = without_plus(s);
    if d.len() == 0 || !all_ascii_digits(d) {
        None
    } else if spec_digits_value(d) > max {
        None
    } else {
        Some(spec_digits_value(d))
    }
}

/// Parses an unsigned integer of at most `max`, as `str::parse` does.
pub fn parse_unsigned(s: &Vec<char>, max: u64) -> (r: Option<u64>)
    ensures
        r matches Some(v) ==> spec_parse_unsigned(s@, max as nat) == Some(v as nat),
        r is None ==> spec_parse_unsigned(s@, max as nat) is None,
{
    let start: usize = if s.len() > 0 && s[0] == '+' {
        1
    } else {
        0
    };
    let ghost d = without_plus(s@);
    assert(d =~= s@.subrange(start as int, s@.len() as int));
    if s.len() == start {
        return None;
    }
    let cap: u128 = (max as u128) + 1;
    let mut acc: u128 = 0;
    let mut i: usize = start;
    while i < s.len()
        invariant
            start <= i <= s@.len(),
            d == without_plus(s@),
            d =~= s@.subrange(start as int, s@.len() as int),
            cap == max + 1,
            forall|j: int| 0 <= j < i - start ==> is_ascii_digit(#[trigger] d[j]),
            acc == (if spec_digits_value(d.take(i - start)) < cap {
                spec_digits_value(d.take(i - start))
            } else {
                cap as nat
            }),
        decreases s@.len() - i,
    {
        let c = s[i];
        if !is_digit(c) {
            proof {
                let k = i - start;
                assert(!is_ascii_digit(d[k]));
                assert(!all_ascii_digits(d));
            }
            return None;
        }
        proof {
            assert(d.take(i - start + 1).drop_last() =~= d.take(i - start));
            assert(d.take(i - start + 1).last() == c);
        }
        let digit: u128 = ((c as u32) - 48) as u128;
        let next = acc * 10 + digit;
        acc = if next < cap {
            next
        } else {
            cap
        };
        i = i + 1;
    }
    assert(d.take(d.len() as int) =~= d);
    if acc >= cap {
        None
    } else {
        Some(acc as u64)
    }
}

} // verus!
