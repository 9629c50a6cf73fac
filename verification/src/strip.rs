//! Removing style codes from text, and why painting and stripping cancel.

use vstd::prelude::*;
use crate::ansi::{esc, is_param_char, is_style_code};

verus! {

/// How many parameter characters `s` starts with.
pub open spec fn params_len(s: Seq<char>) -> nat
    decreases s.len(),
{
    if s.len() > 0 && is_param_char(s[0]) {
        1 + params_len(s.skip(1))
    } else {
        0
    }
}

/// The length of the style code that `s` starts with, or 0 where it starts
/// with none.
pub open spec fn code_len(s: Seq<char>) -> nat {
    if s.len() >= 2 && s[0] == esc() && s[1] == '[' {
        let k = params_len(s.skip(2));
        if 2 + k < s.len() && s[k as int + 2] == 'm' {
            k + 3
        } else {
            0
        }
    } else {
        0
    }
}

/// `s` without its style codes: every `ESC [`, digits and semicolons, `m`
/// is left out, every other character is kept.
pub open spec fn strip_ansi(s: Seq<char>) -> Seq<char>
    decreases s.len(),
{
    if s.len() == 0 {
        s
    } else if code_len(s) > 0 {
        strip_ansi(s.skip(code_len(s) as int))
    } else {
        seq![s[0]] + strip_ansi(s.skip(1))
    }
}

/// Whether `t` holds no escape character.
pub open spec fn escape_free(t: Seq<char>) -> bool {
    forall|i: int| 0 <= i < t.len() ==> #[trigger] t[i] != esc()
}

/// Whether `s` is styled text with content `t` wherever it stands: whatever
/// follows it, stripping removes the codes of `s`, keeps `t`, and goes on
/// with what follows.
pub open spec fn strips_to(s: Seq<char>, t: Seq<char>) -> bool {
    forall|rest: Seq<char>| #[trigger] strip_ansi(s + rest) == t + strip_ansi(rest)
}

/// Where `k` parameter characters are followed by another character, `k` is
/// the number of leading parameter characters.
proof fn lemma_params_len(s: Seq<char>, k: nat)
    requires
        k < s.len(),
        forall|i: int| 0 <= i < k ==> is_param_char(#[trigger] s[i]),
        !is_param_char(s[k as int]),
    ensures
        params_len(s) == k,
    decreases k,
{
    if k > 0 {
        let t = s.skip(1);
        assert forall|i: int| 0 <= i < k - 1 implies is_param_char(#[trigger] t[i]) by {
            assert(t[i] == s[i + 1]);
        }
        assert(t[k - 1] == s[k as int]);
        lemma_params_len(t, (k - 1) as nat);
    }
}

/// A style code at the start of a text is found in its full length.
pub proof fn lemma_code_len(code: Seq<char>, rest: Seq<char>)
    requires
        is_style_code(code),
    ensures
        code_len(code + rest) == code.len(),
{
    let s = code + rest;
    let k = (code.len() - 3) as nat;
    let t = s.skip(2);
    assert(s[0] == code[0]);
    assert(s[1] == code[1]);
    assert forall|i: int| 0 <= i < k implies is_param_char(#[trigger] t[i]) by {
        assert(t[i] == code[i + 2]);
    }
    assert(t[k as int] == code[code.len() - 1]);
    lemma_params_len(t, k);
    assert(s[k as int + 2] == 'm');
}

/// Stripping drops a style code and goes on with what follows it.
pub proof fn lemma_strip_code(code: Seq<char>, rest: Seq<char>)
    requires
        is_style_code(code),
    ensures
        strip_ansi(code + rest) == strip_ansi(rest),
{
    lemma_code_len(code, rest);
    assert((code + rest).skip(code.len() as int) =~= rest);
}

/// Stripping keeps text without escape characters and goes on with what
/// follows it.
pub proof fn lemma_strip_text(text: Seq<char>, rest: Seq<char>)
    requires
        escape_free(text),
    ensures
        strip_ansi(text + rest) == text + strip_ansi(rest),
    decreases text.len(),
{
    if text.len() == 0 {
        assert(text + rest =~= rest);
        assert(text + strip_ansi(rest) =~= strip_ansi(rest));
    } else {
        let s = text + rest;
        let tail = text.skip(1);
        assert(s[0] == text[0]);
        assert(code_len(s) == 0);
        assert(s.skip(1) =~= tail + rest);
        assert forall|i: int| 0 <= i < tail.len() implies #[trigger] tail[i] != esc() by {
            assert(tail[i] == text[i + 1]);
        }
        lemma_strip_text(tail, rest);
        assert(seq![s[0]] + (tail + strip_ansi(rest)) =~= text + strip_ansi(rest));
    }
}

/// Text without escape characters is its own content.
pub proof fn lemma_text_strips_to_itself(text: Seq<char>)
    requires
        escape_free(text),
    ensures
        strips_to(text, text),
{
    assert forall|rest: Seq<char>| #[trigger] strip_ansi(text + rest) == text + strip_ansi(rest) by {
        lemma_strip_text(text, rest);
    }
}

/// A style code has no content.
pub proof fn lemma_code_strips_to_nothing(code: Seq<char>)
    requires
        is_style_code(code),
    ensures
        strips_to(code, Seq::empty()),
{
    assert forall|rest: Seq<char>| #[trigger]
        strip_ansi(code + rest) == Seq::<char>::empty() + strip_ansi(rest) by {
        lemma_strip_code(code, rest);
        assert(Seq::<char>::empty() + strip_ansi(rest) =~= strip_ansi(rest));
    }
}

/// The empty text has no content.
pub proof fn lemma_empty_strips_to_nothing()
    ensures
        strips_to(Seq::empty(), Seq::empty()),
{
    assert forall|rest: Seq<char>| #[trigger]
        strip_ansi(Seq::<char>::empty() + rest) == Seq::<char>::empty() + strip_ansi(rest) by {
        assert(Seq::<char>::empty() + rest =~= rest);
        assert(Seq::<char>::empty() + strip_ansi(rest) =~= strip_ansi(rest));
    }
}

/// Styled texts in a row have their contents in a row.
pub proof fn lemma_strips_to_concat(a: Seq<char>, x: Seq<char>, b: Seq<char>, y: Seq<char>)
    requires
        strips_to(a, x),
        strips_to(b, y),
    ensures
        strips_to(a + b, x + y),
{
    assert forall|rest: Seq<char>| #[trigger]
        strip_ansi((a + b) + rest) == (x + y) + strip_ansi(rest) by {
        assert((a + b) + rest =~= a + (b + rest));
        assert(strip_ansi(a + (b + rest)) == x + strip_ansi(b + rest));
        assert(strip_ansi(b + rest) == y + strip_ansi(rest));
        assert(x + (y + strip_ansi(rest)) =~= (x + y) + strip_ansi(rest));
    }
}

/// Stripping styled text on its own leaves its content.
pub proof fn lemma_strips_to_alone(s: Seq<char>, t: Seq<char>)
    requires
        strips_to(s, t),
    ensures
        strip_ansi(s) == t,
{
    let e = Seq::<char>::empty();
    assert(s + e =~= s);
    assert(strip_ansi(s + e) == t + strip_ansi(e));
    assert(t + strip_ansi(e) =~= t);
}

/// Text without escape characters between two style codes, either of which
/// may be missing, is styled text whose content is that text.
pub proof fn lemma_wrapped_strips_to(prefix: Seq<char>, text: Seq<char>, suffix: Seq<char>)
    requires
        prefix.len() == 0 || is_style_code(prefix),
        suffix.len() == 0 || is_style_code(suffix),
        escape_free(text),
    ensures
        strips_to(prefix + text + suffix, text),
{
    let nothing = Seq::<char>::empty();
    if prefix.len() == 0 {
        assert(prefix =~= nothing);
        lemma_empty_strips_to_nothing();
    } else {
        lemma_code_strips_to_nothing(prefix);
    }
    if suffix.len() == 0 {
        assert(suffix =~= nothing);
        lemma_empty_strips_to_nothing();
    } else {
        lemma_code_strips_to_nothing(suffix);
    }
    lemma_text_strips_to_itself(text);
    lemma_strips_to_concat(prefix, nothing, text, text);
    lemma_strips_to_concat(prefix + text, nothing + text, suffix, nothing);
    assert(nothing + text + nothing =~= text);
}

} // verus!
