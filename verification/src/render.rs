//! Rendering a whole token stream: colored through the decorator, or plain.

use vstd::prelude::*;
use vstd::string::*;
use crate::color_mode::{ColorMode, Output};
use crate::formatter::{ColoredFormatter, State, Token};
use crate::strip::{
    escape_free, lemma_empty_strips_to_nothing, lemma_strips_to_alone, lemma_strips_to_concat,
    lemma_text_strips_to_itself, strip_ansi, strips_to,
};
use crate::style::Styler;

verus! {

/// One event of a token stream, with the text that the wrapped formatter
/// emitted for it.
#[derive(Clone, Debug)]
pub struct Fragment {
    pub token: Token,
    pub raw: String,
}

/// The text of a stream as the wrapped formatter emitted it.
pub open spec fn plain_text(stream: Seq<Fragment>) -> Seq<char>
    decreases stream.len(),
{
    if stream.len() == 0 {
        Seq::empty()
    } else {
        plain_text(stream.drop_last()) + stream.last().raw@
    }
}

/// Whether no text of the stream holds an escape character.
pub open spec fn all_escape_free(stream: Seq<Fragment>) -> bool {
    forall|i: int| 0 <= i < stream.len() ==> escape_free(#[trigger] stream[i].raw@)
}

impl State {
    /// The decorator after every event of `stream`, in order.
    pub open spec fn after_all(self, stream: Seq<Fragment>) -> State
        decreases stream.len(),
    {
        if stream.len() == 0 {
            self
        } else {
            self.after_all(stream.drop_last()).after(stream.last().token)
        }
    }

    /// What the decorator sends to the sink for `stream`: for each event what
    /// it emits in the state that the events before it left.
    pub open spec fn emits_all(self, stream: Seq<Fragment>) -> Seq<char>
        decreases stream.len(),
    {
        if stream.len() == 0 {
            Seq::empty()
        } else {
            self.emits_all(stream.drop_last()) + self.after_all(stream.drop_last()).emits(
                stream.last().token,
                stream.last().raw@,
            )
        }
    }

    /// The text of a render: through the decorator where color is used, as
    /// the wrapped formatter emitted it where not.
    pub open spec fn rendered(self, stream: Seq<Fragment>, use_color: bool) -> Seq<char> {
        if use_color {
            self.emits_all(stream)
        } else {
            plain_text(stream)
        }
    }
}

/// The text of a stream without any style: what the wrapped formatter
/// emitted, event after event.
pub fn plain_json(stream: &Vec<Fragment>) -> (out: String)
    ensures
        out@ == plain_text(stream@),
{
    let mut out = String::new();
    let mut i: usize = 0;
    while i < stream.len()
        invariant
            i <= stream.len(),
            out@ == plain_text(stream@.take(i as int)),
        decreases stream.len() - i,
    {
        proof {
            assert(stream@.take(i + 1).drop_last() =~= stream@.take(i as int));
        }
        out.append(stream[i].raw.as_str());
        i += 1;
    }
    proof {
        assert(stream@.take(i as int) =~= stream@);
    }
    out
}

impl ColoredFormatter {
    /// Sends a whole stream through the decorator. Stripping the style codes
    /// from the result gives the text of the stream back, unless the stream
    /// holds an escape character itself.
    pub fn write_tokens(&mut self, stream: &Vec<Fragment>) -> (out: String)
        ensures
            out@ == old(self)@.emits_all(stream@),
            final(self)@ == old(self)@.after_all(stream@),
            all_escape_free(stream@) ==> strips_to(out@, plain_text(stream@)),
            all_escape_free(stream@) ==> strip_ansi(out@) == plain_text(stream@),
    {
        let ghost start = self@;
        let mut out = String::new();
        let mut i: usize = 0;
        proof {
            lemma_empty_strips_to_nothing();
        }
        while i < stream.len()
            invariant
                i <= stream.len(),
                out@ == start.emits_all(stream@.take(i as int)),
                self@ == start.after_all(stream@.take(i as int)),
                all_escape_free(stream@) ==> strips_to(
                    out@,
                    plain_text(stream@.take(i as int)),
                ),
            decreases stream.len() - i,
        {
            let ghost before = out@;
            let piece = self.write_token(stream[i].token, stream[i].raw.as_str());
            proof {
                assert(stream@.take(i + 1).drop_last() =~= stream@.take(i as int));
                if all_escape_free(stream@) {
                    lemma_strips_to_concat(
                        before,
                        plain_text(stream@.take(i as int)),
                        piece@,
                        stream@[i as int].raw@,
                    );
                }
            }
            out.append(piece.as_str());
            i += 1;
        }
        proof {
            assert(stream@.take(i as int) =~= stream@);
            if all_escape_free(stream@) {
                lemma_strips_to_alone(out@, plain_text(stream@));
            }
        }
        out
    }

    /// Renders a stream, colored or plain as `use_color` says. The colored
    /// text without its style codes is the plain text, unless the stream
    /// holds an escape character itself.
    pub fn to_colored_json_when(self, stream: &Vec<Fragment>, use_color: bool) -> (out: String)
        ensures
            out@ == self@.rendered(stream@, use_color),
            all_escape_free(stream@) ==> strip_ansi(out@) == plain_text(stream@),
    {
        if use_color {
            let mut formatter = self;
            formatter.write_tokens(stream)
        } else {
            let out = plain_json(stream);
            proof {
                if all_escape_free(stream@) {
                    lemma_plain_text_escape_free(stream@);
                    lemma_text_strips_to_itself(out@);
                    lemma_strips_to_alone(out@, out@);
                }
            }
            out
        }
    }

    /// Renders a stream in the given mode: colored for `On`, plain for
    /// `Off`, and for `Auto` whichever the probe of its stream decides.
    pub fn to_colored_json(self, stream: &Vec<Fragment>, mode: ColorMode) -> (out: String)
        ensures
            mode is On ==> out@ == self@.rendered(stream@, true),
            mode is Off ==> out@ == self@.rendered(stream@, false),
            out@ == self@.rendered(stream@, true) || out@ == self@.rendered(stream@, false),
            all_escape_free(stream@) ==> strip_ansi(out@) == plain_text(stream@),
    {
        let use_color = mode.use_color();
        self.to_colored_json_when(stream, use_color)
    }

    /// Renders a stream, colored where standard output is a terminal.
    pub fn to_colored_json_auto(self, stream: &Vec<Fragment>) -> (out: String)
        ensures
            out@ == self@.rendered(stream@, true) || out@ == self@.rendered(stream@, false),
            all_escape_free(stream@) ==> strip_ansi(out@) == plain_text(stream@),
    {
        self.to_colored_json(stream, ColorMode::Auto(Output::StdOut))
    }

    /// Renders a stream in the given mode and appends the text to `writer`.
    pub fn write_colored_json(self, stream: &Vec<Fragment>, writer: &mut String, mode: ColorMode)
        ensures
            mode is On ==> final(writer)@ == old(writer)@ + self@.rendered(stream@, true),
            mode is Off ==> final(writer)@ == old(writer)@ + self@.rendered(stream@, false),
            final(writer)@ == old(writer)@ + self@.rendered(stream@, true) || final(writer)@
                == old(writer)@ + self@.rendered(stream@, false),
    {
        let text = self.to_colored_json(stream, mode);
        writer.append(text.as_str());
    }
}

/// The state in which a render with the default palette starts.
pub open spec fn default_state() -> State {
    State { styler: Styler::jq_like(), in_object_key: false }
}

/// Renders a stream with the default palette, colored where standard output
/// is a terminal.
pub fn to_colored_json_auto(stream: &Vec<Fragment>) -> (out: String)
    ensures
        out@ == default_state().rendered(stream@, true) || out@ == default_state().rendered(
            stream@,
            false,
        ),
        all_escape_free(stream@) ==> strip_ansi(out@) == plain_text(stream@),
{
    to_colored_json(stream, ColorMode::Auto(Output::StdOut))
}

/// Renders a stream with the default palette in the given mode: colored for
/// `On`, plain for `Off`, and for `Auto` whichever the probe of its stream
/// decides.
pub fn to_colored_json(stream: &Vec<Fragment>, mode: ColorMode) -> (out: String)
    ensures
        mode is On ==> out@ == default_state().rendered(stream@, true),
        mode is Off ==> out@ == default_state().rendered(stream@, false),
        out@ == default_state().rendered(stream@, true) || out@ == default_state().rendered(
            stream@,
            false,
        ),
        all_escape_free(stream@) ==> strip_ansi(out@) == plain_text(stream@),
{
    ColoredFormatter::new().to_colored_json(stream, mode)
}

/// Renders a stream with the default palette, colored where standard output
/// is a terminal, and appends the text to `writer`.
pub fn write_colored_json(stream: &Vec<Fragment>, writer: &mut String)
    ensures
        final(writer)@ == old(writer)@ + default_state().rendered(stream@, true) || final(writer)@
            == old(writer)@ + default_state().rendered(stream@, false),
{
    write_colored_json_with_mode(stream, writer, ColorMode::Auto(Output::StdOut))
}

/// Renders a stream with the default palette in the given mode and appends
/// the text to `writer`.
pub fn write_colored_json_with_mode(stream: &Vec<Fragment>, writer: &mut String, mode: ColorMode)
    ensures
        mode is On ==> final(writer)@ == old(writer)@ + default_state().rendered(stream@, true),
        mode is Off ==> final(writer)@ == old(writer)@ + default_state().rendered(stream@, false),
        final(writer)@ == old(writer)@ + default_state().rendered(stream@, true) || final(writer)@
            == old(writer)@ + default_state().rendered(stream@, false),
{
    let text = if mode.use_color() {
        let mut formatter = ColoredFormatter::new();
        formatter.write_tokens(stream)
    } else {
        plain_json(stream)
    };
    writer.append(text.as_str());
}

/// Renders the stream of a parsed text with the given palette, or hands on
/// the error that parsing ended with.
pub fn to_colored_json_with_styler<E>(
    parsed: Result<Vec<Fragment>, E>,
    mode: ColorMode,
    styler: Styler,
) -> (result: Result<String, E>)
    ensures
        match parsed {
            Ok(stream) => {
                let start = State { styler, in_object_key: false };
                &&& result is Ok
                &&& mode is On ==> result->Ok_0@ == start.rendered(stream@, true)
                &&& mode is Off ==> result->Ok_0@ == start.rendered(stream@, false)
                &&& result->Ok_0@ == start.rendered(stream@, true) || result->Ok_0@
                    == start.rendered(stream@, false)
                &&& all_escape_free(stream@) ==> strip_ansi(result->Ok_0@) == plain_text(stream@)
            },
            Err(error) => result == Err::<String, E>(error),
        },
{
    match parsed {
        Ok(stream) => Ok(ColoredFormatter::with_styler(styler).to_colored_json(&stream, mode)),
        Err(error) => Err(error),
    }
}

/// Renders the stream of a parsed text with the given palette and appends
/// the text to `writer`. Where parsing ended with an error, the error is
/// handed on and nothing is written.
pub fn write_colored_json_with_styler<E>(
    parsed: Result<Vec<Fragment>, E>,
    writer: &mut String,
    mode: ColorMode,
    styler: Styler,
) -> (result: Result<(), E>)
    ensures
        match parsed {
            Ok(stream) => {
                let start = State { styler, in_object_key: false };
                &&& result is Ok
                &&& mode is On ==> final(writer)@ == old(writer)@ + start.rendered(stream@, true)
                &&& mode is Off ==> final(writer)@ == old(writer)@ + start.rendered(stream@, false)
                &&& final(writer)@ == old(writer)@ + start.rendered(stream@, true)
                    || final(writer)@ == old(writer)@ + start.rendered(stream@, false)
            },
            Err(error) => result == Err::<(), E>(error) && final(writer)@ == old(writer)@,
        },
{
    match parsed {
        Ok(stream) => {
            ColoredFormatter::with_styler(styler).write_colored_json(&stream, writer, mode);
            Ok(())
        },
        Err(error) => Err(error),
    }
}

/// The text of a stream holds no escape character where none of its
/// fragments does.
pub proof fn lemma_plain_text_escape_free(stream: Seq<Fragment>)
    requires
        all_escape_free(stream),
    ensures
        escape_free(plain_text(stream)),
    decreases stream.len(),
{
    if stream.len() > 0 {
        let front = stream.drop_last();
        assert forall|i: int| 0 <= i < front.len() implies escape_free(#[trigger] front[i].raw@) by {
            assert(front[i] == stream[i]);
        }
        lemma_plain_text_escape_free(front);
        assert(escape_free(stream.last().raw@));
    }
}

} // verus!
