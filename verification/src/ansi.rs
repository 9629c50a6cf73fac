//! Terminal escape codes: what a style puts before and after a piece of text.

use vstd::prelude::*;
use vstd::string::*;
use crate::strip::{escape_free, lemma_wrapped_strips_to, strips_to};
use crate::style::Style;

verus! {

/// The escape character that opens every style code.
pub open spec fn esc() -> char {
    '\x1b'
}

/// A character that may stand between the opening `ESC [` and the closing
/// `m` of a style code: a decimal digit or a semicolon.
pub open spec fn is_param_char(c: char) -> bool {
    c == '0' || c == '1' || c == '2' || c == '3' || c == '4' || c == '5' || c == '6' || c == '7'
        || c == '8' || c == '9' || c == ';'
}

/// Whether `s` is one complete style code: `ESC [`, then digits and
/// semicolons, then `m`.
pub open spec fn is_style_code(s: Seq<char>) -> bool {
    &&& s.len() >= 3
    &&& s[0] == esc()
    &&& s[1] == '['
    &&& s[s.len() - 1] == 'm'
    &&& forall|i: int| 2 <= i < s.len() - 1 ==> is_param_char(#[trigger] s[i])
}

/// The code that switches every style off again: `ESC [ 0 m`.
pub open spec fn reset_code() -> Seq<char> {
    seq![esc(), '[', '0', 'm']
}

/// The characters that yansi writes in front of text painted in `style`.
pub uninterp spec fn ansi_prefix(style: Style) -> Seq<char>;

/// The characters that follow text painted in `style`: nothing for the plain
/// style, the reset code for every other.
pub open spec fn ansi_suffix(style: Style) -> Seq<char> {
    if style.is_plain() {
        Seq::empty()
    } else {
        reset_code()
    }
}

/// `text` as it is painted in `style`.
pub open spec fn painted(style: Style, text: Seq<char>) -> Seq<char> {
    ansi_prefix(style) + text + ansi_suffix(style)
}

/// Builds the `yansi::Style` with the colors and attributes of `style` and
/// has its `fmt_prefix` write into a fresh string. yansi writes nothing for
/// the plain style; for every other it writes `ESC [`, the codes of the
/// attributes and colors separated by semicolons, and `m`. Which digits
/// those are is left to yansi: they are `ansi_prefix(style)`.
#[verifier::external_body]
pub(crate) fn prefix_of(style: &Style) -> (out: String)
    ensures
        out@ == ansi_prefix(*style),
        style.is_plain() ==> out@.len() == 0,
        !style.is_plain() ==> is_style_code(out@),
{
    let mut s = yansi::Style::new(style.foreground).bg(style.background);
    if style.bold { s = s.bold(); }
    if style.dimmed { s = s.dimmed(); }
    if style.italic { s = s.italic(); }
    if style.underline { s = s.underline(); }
    if style.blink { s = s.blink(); }
    if style.invert { s = s.invert(); }
    if style.hidden { s = s.hidden(); }
    if style.strikethrough { s = s.strikethrough(); }
    let mut out = String::new();
    let _ = s.fmt_prefix(&mut out);
    out
}

/// Builds the `yansi::Style` with the colors and attributes of `style` and
/// has its `fmt_suffix` write into a fresh string: nothing for the plain
/// style, `ESC [ 0 m` for every other.
#[verifier::external_body]
pub(crate) fn suffix_of(style: &Style) -> (out: String)
    ensures
        out@ == ansi_suffix(*style),
{
    let mut s = yansi::Style::new(style.foreground).bg(style.background);
    if style.bold { s = s.bold(); }
    if style.dimmed { s = s.dimmed(); }
    if style.italic { s = s.italic(); }
    if style.underline { s = s.underline(); }
    if style.blink { s = s.blink(); }
    if style.invert { s = s.invert(); }
    if style.hidden { s = s.hidden(); }
    if style.strikethrough { s = s.strikethrough(); }
    let mut out = String::new();
    let _ = s.fmt_suffix(&mut out);
    out
}

/// The reset code is a style code.
pub proof fn lemma_reset_is_style_code()
    ensures
        is_style_code(reset_code()),
{
}

/// Paints `raw` in `style`: the style's prefix, the text unchanged, the
/// style's suffix. Stripping the style codes gives `raw` back, unless `raw`
/// holds an escape character itself.
pub fn colored(style: &Style, raw: &str) -> (out: String)
    ensures
        out@ == painted(*style, raw@),
        style.is_plain() ==> out@ == raw@,
        escape_free(raw@) ==> strips_to(out@, raw@),
{
    let mut out = prefix_of(style);
    let suffix = suffix_of(style);
    proof {
        lemma_reset_is_style_code();
        if escape_free(raw@) {
            lemma_wrapped_strips_to(out@, raw@, suffix@);
        }
    }
    out.append(raw);
    out.append(suffix.as_str());
    proof {
        if style.is_plain() {
            assert(out@ =~= raw@);
        }
    }
    out
}

} // verus!
