//! What holds of the decorator over whole token streams.

use vstd::prelude::*;
use crate::ansi::painted;
use crate::color_mode::ColorMode;
use crate::formatter::{State, Token};
use crate::render::Fragment;

verus! {

/// Whether `token` ends the key context.
pub open spec fn closes_key(token: Token) -> bool {
    token == Token::EndObjectKey || token == Token::BeginObjectValue || token
        == Token::EndObjectValue
}

/// Whether every object key that begins in `stream` also ends in it, as it
/// does in the stream of any complete JSON value.
pub open spec fn keys_closed(stream: Seq<Fragment>) -> bool {
    forall|i: int|
        0 <= i < stream.len() && (#[trigger] stream[i]).token == Token::BeginObjectKey
            ==> exists|j: int| i < j < stream.len() && closes_key((#[trigger] stream[j]).token)
}

/// Whether `stream` leaves an object key open: a key begins at `i` and
/// nothing after it ends the key context.
pub open spec fn opens_key_at(stream: Seq<Fragment>, i: int) -> bool {
    &&& 0 <= i < stream.len()
    &&& stream[i].token == Token::BeginObjectKey
    &&& forall|j: int| i < j < stream.len() ==> !closes_key((#[trigger] stream[j]).token)
}

/// A render never changes the style table.
pub proof fn law_styler_is_kept(state: State, stream: Seq<Fragment>)
    ensures
        state.after_all(stream).styler == state.styler,
    decreases stream.len(),
{
    if stream.len() > 0 {
        law_styler_is_kept(state, stream.drop_last());
    }
}

/// A decorator that starts outside a key is inside one after a stream only
/// if the stream leaves a key open.
proof fn lemma_in_key_means_open(state: State, stream: Seq<Fragment>)
    requires
        !state.in_object_key,
        state.after_all(stream).in_object_key,
    ensures
        exists|i: int| opens_key_at(stream, i),
    decreases stream.len(),
{
    if stream.len() > 0 {
        let front = stream.drop_last();
        let last = stream.last();
        if last.token == Token::BeginObjectKey {
            assert(opens_key_at(stream, stream.len() - 1));
        } else {
            assert(!closes_key(last.token));
            assert(state.after_all(front).in_object_key);
            lemma_in_key_means_open(state, front);
            let i = choose|i: int| opens_key_at(front, i);
            assert(front[i] == stream[i]);
            assert forall|j: int| i < j < stream.len() implies !closes_key(
                (#[trigger] stream[j]).token,
            ) by {
                if j < front.len() {
                    assert(front[j] == stream[j]);
                }
            }
            assert(opens_key_at(stream, i));
        }
    }
}

/// Rendering leaves no trace in the decorator: after the stream of a
/// complete value, a decorator that started outside a key is as it was, so
/// that rendering the same stream with it again gives the same text.
pub proof fn law_render_is_repeatable(state: State, stream: Seq<Fragment>)
    requires
        !state.in_object_key,
        keys_closed(stream),
    ensures
        state.after_all(stream) == state,
        state.after_all(stream).emits_all(stream) == state.emits_all(stream),
{
    law_styler_is_kept(state, stream);
    if state.after_all(stream).in_object_key {
        lemma_in_key_means_open(state, stream);
        let i = choose|i: int| opens_key_at(stream, i);
        let j = choose|j: int| i < j < stream.len() && closes_key((#[trigger] stream[j]).token);
        assert(!closes_key(stream[j].token));
    }
}

/// String text is styled by where it stands, not by what came before: after
/// any history, however deeply nested, the text that follows the beginning
/// of an object key is painted as a key.
pub proof fn law_key_text_is_key_styled(
    state: State,
    history: Seq<Fragment>,
    begin: Fragment,
    raw: Seq<char>,
)
    requires
        begin.token == Token::BeginObjectKey,
    ensures
        state.after_all(history.push(begin)).emits(Token::StringFragment, raw) == painted(
            state.styler.key,
            raw,
        ),
{
    law_styler_is_kept(state, history);
    assert(history.push(begin).drop_last() =~= history);
}

/// After any history, the text that follows the end of an object key or the
/// beginning or end of an object value is painted as a string value.
pub proof fn law_value_text_is_string_styled(
    state: State,
    history: Seq<Fragment>,
    end: Fragment,
    raw: Seq<char>,
)
    requires
        closes_key(end.token),
    ensures
        state.after_all(history.push(end)).emits(Token::StringFragment, raw) == painted(
            state.styler.string_value,
            raw,
        ),
{
    law_styler_is_kept(state, history);
    assert(history.push(end).drop_last() =~= history);
}

/// Quotation marks follow the table's flag, string content does not: with
/// the flag off the marks pass through unstyled, with it on they are painted
/// like the content, and the content is painted either way.
pub proof fn law_quotation_flag(state: State, raw: Seq<char>)
    ensures
        state.emits(Token::StringFragment, raw) == painted(state.string_style(), raw),
        state.styler.string_include_quotation ==> state.emits(Token::BeginString, raw) == painted(
            state.string_style(),
            raw,
        ) && state.emits(Token::EndString, raw) == painted(state.string_style(), raw),
        !state.styler.string_include_quotation ==> state.emits(Token::BeginString, raw) == raw
            && state.emits(Token::EndString, raw) == raw,
{
}

/// `On` colorizes and `Off` does not, whatever the probe reports; `Auto`
/// colorizes exactly when the probe reports a terminal. A resolved mode is
/// `On` or `Off` and resolves to itself.
pub proof fn law_mode_resolution(mode: ColorMode, interactive: bool)
    ensures
        ColorMode::On.colorizes(interactive),
        !ColorMode::Off.colorizes(interactive),
        mode is Auto ==> mode.colorizes(interactive) == interactive,
        mode.resolved(interactive) is On || mode.resolved(interactive) is Off,
        mode.resolved(interactive).resolved(!interactive) == mode.resolved(interactive),
{
}

/// Without color the text is what the wrapped formatter emitted, whatever
/// the style table says.
pub proof fn law_off_ignores_styles(first: State, second: State, stream: Seq<Fragment>)
    ensures
        first.rendered(stream, false) == second.rendered(stream, false),
{
}

} // verus!
