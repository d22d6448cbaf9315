//! Terminal styling through `console`, and the state and log-level colors.
//!
//! Whether `console` emits escape codes depends on the terminal and the
//! environment, so each styled text is known only up to that choice: either the
//! plain text, or the text between the style's escape codes and the reset code.

use vstd::prelude::*;
use crate::text::{append, chars_of, contains_str, owned, spec_contains, str_eq};

verus! {

/// The styles the command line uses.
#[derive(Debug, Clone, Copy, PartialEq, Eq, Structural)]
pub enum Paint {
    Dim,
    Green,
    GreenBold,
    Yellow,
    YellowBold,
    YellowDim,
    Red,
    RedBold,
    Cyan,
    CyanBold,
    Bold,
}

/// The escape codes that open a style.
pub open spec fn ansi_open(p: Paint) -> Seq<char> {
    match p {
        Paint::Dim => "\x1b[2m"@,
        Paint::Green => "\x1b[32m"@,
        Paint::GreenBold => "\x1b[32m\x1b[1m"@,
        Paint::Yellow => "\x1b[33m"@,
        Paint::YellowBold => "\x1b[33m\x1b[1m"@,
        Paint::YellowDim => "\x1b[33m\x1b[2m"@,
        Paint::Red => "\x1b[31m"@,
        Paint::RedBold => "\x1b[31m\x1b[1m"@,
        Paint::Cyan => "\x1b[36m"@,
        Paint::CyanBold => "\x1b[36m\x1b[1m"@,
        Paint::Bold => "\x1b[1m"@,
    }
}

/// Whether `r` is `t` rendered in style `p`, with or without escape codes.
pub open spec fn is_painted(r: Seq<char>, t: Seq<char>, p: Paint) -> bool {
    r == t || r == ansi_open(p) + t + "\x1b[0m"@
}

/// Whether `r` is `t` rendered in style `p`, followed by the plain `rest`.
pub open spec fn is_painted_then(r: Seq<char>, t: Seq<char>, p: Paint, rest: Seq<char>) -> bool {
    r == t + rest || r == ansi_open(p) + t + "\x1b[0m"@ + rest
}

/// `console::style(text).dim().to_string()`: the text, between `ESC[2m` and `ESC[0m`
/// where `console` styles stdout.
#[verifier::external_body]
pub(crate) fn dim(text: &str) -> (r: String)
    ensures
        is_painted(r@, text@, Paint::Dim),
{
    console::style(text).dim().to_string()
}

/// `console::style(text).green().to_string()`.
#[verifier::external_body]
pub(crate) fn green(text: &str) -> (r: String)
    ensures
        is_painted(r@, text@, Paint::Green),
{
    console::style(text).green().to_string()
}

/// `console::style(text).green().bold().to_string()`.
#[verifier::external_body]
pub(crate) fn green_bold(text: &str) -> (r: String)
    ensures
        is_painted(r@, text@, Paint::GreenBold),
{
    console::style(text).green().bold().to_string()
}

/// `console::style(text).yellow().to_string()`.
#[verifier::external_body]
pub(crate) fn yellow(text: &str) -> (r: String)
    ensures
        is_painted(r@, text@, Paint::Yellow),
{
    console::style(text).yellow().to_string()
}

/// `console::style(text).yellow().bold().to_string()`.
#[verifier::external_body]
pub(crate) fn yellow_bold(text: &str) -> (r: String)
    ensures
        is_painted(r@, text@, Paint::YellowBold),
{
    console::style(text).yellow().bold().to_string()
}

/// `console::style(text).yellow().dim().to_string()`.
#[verifier::external_body]
pub(crate) fn yellow_dim(text: &str) -> (r: String)
    ensures
        is_painted(r@, text@, Paint::YellowDim),
{
    console::style(text).yellow().dim().to_string()
}

/// `console::style(text).red().to_string()`.
#[verifier::external_body]
pub(crate) fn red(text: &str) -> (r: String)
    ensures
        is_painted(r@, text@, Paint::Red),
{
    console::style(text).red().to_string()
}

/// `console::style(text).red().bold().to_string()`.
#[verifier::external_body]
pub(crate) fn red_bold(text: &str) -> (r: String)
    ensures
        is_painted(r@, text@, Paint::RedBold),
{
    console::style(text).red().bold().to_string()
}

/// `console::style(text).cyan().to_string()`.
#[verifier::external_body]
pub(crate) fn cyan(text: &str) -> (r: String)
    ensures
        is_painted(r@, text@, Paint::Cyan),
{
    console::style(text).cyan().to_string()
}

/// `console::style(text).cyan().bold().to_string()`.
#[verifier::external_body]
pub(crate) fn cyan_bold(text: &str) -> (r: String)
    ensures
        is_painted(r@, text@, Paint::CyanBold),
{
    console::style(text).cyan().bold().to_string()
}

/// `console::style(text).bold().to_string()`.
#[verifier::external_body]
pub(crate) fn bold(text: &str) -> (r: String)
    ensures
        is_painted(r@, text@, Paint::Bold),
{
    console::style(text).bold().to_string()
}

/// Renders `text` in style `p`.
pub fn paint(text: &str, p: Paint) -> (r: String)
    ensures
        is_painted(r@, text@, p),
{
    match p {
        Paint::Dim => dim(text),
        Paint::Green => green(text),
        Paint::GreenBold => green_bold(text),
        Paint::Yellow => yellow(text),
        Paint::YellowBold => yellow_bold(text),
        Paint::YellowDim => yellow_dim(text),
        Paint::Red => red(text),
        Paint::RedBold => red_bold(text),
        Paint::Cyan => cyan(text),
        Paint::CyanBold => cyan_bold(text),
        Paint::Bold => bold(text),
    }
}

/// Unicode lowercase of `s`, as `str::to_lowercase` computes it.
pub uninterp spec fn spec_to_lowercase(s: Seq<char>) -> Seq<char>;

/// `str::to_lowercase`. Its Unicode case mapping is named, not restated; on a text
/// of ASCII characters it lowers `A`-`Z` and leaves every other character as it is,
/// as the std documentation of the Unicode lowercase mapping gives for ASCII.
#[verifier::external_body]
pub(crate) fn to_lowercase(s: &str) -> (r: String)
    ensures
        r@ == spec_to_lowercase(s@),
        (forall|i: int| 0 <= i < s@.len() ==> (#[trigger] s@[i] as u32) < 128) ==> r@
            == crate::text::spec_ascii_lowercase(s@),
{
    s.to_lowercase()
}

/// The style of a container state: running is green and bold, stopped or exited
/// red, starting, restarting or created yellow, anything else dim; compared without
/// regard to case.
pub open spec fn spec_state_paint(state: Seq<char>) -> Paint {
    paint_of_lowered_state(spec_to_lowercase(state))
}

/// The style of a container state already lowercased.
pub open spec fn paint_of_lowered_state(l: Seq<char>) -> Paint {
    if l == "running"@ {
        Paint::GreenBold
    } else if l == "stopped"@ || l == "exited"@ {
        Paint::Red
    } else if l == "starting"@ || l == "restarting"@ || l == "created"@ {
        Paint::Yellow
    } else {
        Paint::Dim
    }
}

/// A container state, styled by what it means.
pub fn state_style(state: &str) -> (r: String)
    ensures
        is_painted(r@, state@, spec_state_paint(state@)),
        (forall|i: int| 0 <= i < state@.len() ==> (#[trigger] state@[i] as u32) < 128) ==> is_painted(
            r@,
            state@,
            paint_of_lowered_state(crate::text::spec_ascii_lowercase(state@)),
        ),
{
    let lower = to_lowercase(state);
    let l = lower.as_str();
    let p = if str_eq(l, "running") {
        Paint::GreenBold
    } else if str_eq(l, "stopped") || str_eq(l, "exited") {
        Paint::Red
    } else if str_eq(l, "starting") || str_eq(l, "restarting") || str_eq(l, "created") {
        Paint::Yellow
    } else {
        Paint::Dim
    };
    paint(state, p)
}

/// The style of a log line by the level it mentions, most severe first; `None`
/// leaves it plain.
pub open spec fn spec_log_level_paint(line: Seq<char>) -> Option<Paint> {
    if spec_contains(line, "ERROR"@) || spec_contains(line, "error"@) {
        Some(Paint::Red)
    } else if spec_contains(line, "WARN"@) || spec_contains(line, "warn"@) {
        Some(Paint::Yellow)
    } else if spec_contains(line, "INFO"@) || spec_contains(line, "info"@) {
        Some(Paint::Cyan)
    } else if spec_contains(line, "DEBUG"@) || spec_contains(line, "debug"@) {
        Some(Paint::Dim)
    } else {
        None
    }
}

/// A log line, styled by its level.
pub fn log_level_style(line: &str) -> (r: String)
    ensures
        match spec_log_level_paint(line@) {
            Some(p) => is_painted(r@, line@, p),
            None => r@ == line@,
        },
{
    let cs = chars_of(line);
    if contains_str(&cs, "ERROR") || contains_str(&cs, "error") {
        red(line)
    } else if contains_str(&cs, "WARN") || contains_str(&cs, "warn") {
        yellow(line)
    } else if contains_str(&cs, "INFO") || contains_str(&cs, "info") {
        cyan(line)
    } else if contains_str(&cs, "DEBUG") || contains_str(&cs, "debug") {
        dim(line)
    } else {
        owned(line)
    }
}

/// A piece of a message: its text and the style it is shown in, if any.
pub type Piece = (Seq<char>, Option<Paint>);

/// The message made of `pieces`, where `colored[i]` tells whether the terminal got
/// the escape codes of styled piece `i`.
pub open spec fn render_pieces(pieces: Seq<Piece>, colored: Seq<bool>) -> Seq<char>
    decreases pieces.len(),
{
    if pieces.len() == 0 {
        Seq::empty()
    } else {
        let (t, p) = pieces.last();
        let last = match p {
            Some(paint) => if colored[pieces.len() - 1] {
                ansi_open(paint) + t + "\x1b[0m"@
            } else {
                t
            },
            None => t,
        };
        render_pieces(pieces.drop_last(), colored.take(pieces.len() - 1)) + last
    }
}

/// Whether `s` shows `pieces`, each styled piece with or without escape codes.
pub open spec fn shows_pieces(s: Seq<char>, pieces: Seq<Piece>) -> bool {
    exists|colored: Seq<bool>| colored.len() == pieces.len() && s == #[trigger] render_pieces(pieces, colored)
}

/// Appends one piece of a message.
pub(crate) fn push_piece(s: &mut String, text: &str, p: Option<Paint>, Ghost(pieces): Ghost<Seq<Piece>>, Ghost(colored): Ghost<Seq<bool>>) -> (c: Ghost<bool>)
    requires
        colored.len() == pieces.len(),
        old(s)@ == render_pieces(pieces, colored),
    ensures
        final(s)@ == render_pieces(pieces.push((text@, p)), colored.push(c@)),
{
    let ghost c: bool;
    match p {
        Some(paint) => {
            let r = crate::style::paint(text, paint);
            append(s, r.as_str());
            proof {
                c = r@ != text@;
            }
        },
        None => {
            append(s, text);
            proof {
                c = false;
            }
        },
    }
    proof {
        let ps = pieces.push((text@, p));
        let cs = colored.push(c);
        assert(ps.drop_last() =~= pieces);
        assert(cs.take(ps.len() - 1) =~= colored);
    }
    Ghost(c)
}

pub open spec fn piece_views(v: Seq<(&str, Option<Paint>)>) -> Seq<Piece> {
    v.map_values(|x: (&str, Option<Paint>)| (x.0@, x.1))
}

/// Renders a message from its pieces.
pub fn render(pieces: &Vec<(&str, Option<Paint>)>) -> (s: String)
    ensures
        shows_pieces(s@, piece_views(pieces@)),
{
    let mut s = String::new();
    let ghost mut cs: Seq<bool> = Seq::empty();
    let mut i: usize = 0;
    assert(piece_views(pieces@).take(0) =~= Seq::<Piece>::empty());
    while i < pieces.len()
        invariant
            i <= pieces@.len(),
            cs.len() == i,
            s@ == render_pieces(piece_views(pieces@).take(i as int), cs),
        decreases pieces@.len() - i,
    {
        let (t, p) = pieces[i];
        let ghost before = piece_views(pieces@).take(i as int);
        let Ghost(c) = push_piece(&mut s, t, p, Ghost(before), Ghost(cs));
        proof {
            assert(before.push((t@, p)) =~= piece_views(pieces@).take(i + 1));
            cs = cs.push(c);
        }
        i = i + 1;
    }
    assert(piece_views(pieces@).take(pieces@.len() as int) =~= piece_views(pieces@));
    s
}

} // verus!
