//! The colorizing decorator: for every token that a JSON formatter emits it
//! decides which style the token gets, and keeps track of whether the text
//! belongs to an object key or to a value.

use vstd::prelude::*;
use crate::ansi::{colored, painted};
use crate::strip::{escape_free, lemma_text_strips_to_itself, strips_to};
use crate::style::{Style, Styler};

verus! {

/// The events of a JSON formatter. Each stands for one call in which the
/// wrapped formatter emits some text.
#[derive(Clone, Copy, Debug, PartialEq, Eq, Structural)]
pub enum Token {
    Null,
    Bool,
    Integer,
    Float,
    NumberStr,
    BeginString,
    EndString,
    StringFragment,
    CharEscape,
    BeginArray,
    EndArray,
    BeginArrayValue,
    EndArrayValue,
    BeginObject,
    EndObject,
    BeginObjectKey,
    EndObjectKey,
    BeginObjectValue,
    EndObjectValue,
    RawFragment,
}

/// What a decorator is, as far as its output is concerned: the style table
/// and whether the text being emitted belongs to an object key.
pub struct State {
    pub styler: Styler,
    pub in_object_key: bool,
}

impl State {
    /// The style of string text in the current context: the key style inside
    /// an object key, the string-value style elsewhere.
    pub open spec fn string_style(self) -> Style {
        if self.in_object_key {
            self.styler.key
        } else {
            self.styler.string_value
        }
    }

    /// The style that `token` is painted in, or `None` where its text passes
    /// through as the wrapped formatter emitted it.
    pub open spec fn style_of(self, token: Token) -> Option<Style> {
        match token {
            Token::Null => Some(self.styler.nil_value),
            Token::Bool => Some(self.styler.bool_value),
            Token::Integer | Token::NumberStr => Some(self.styler.integer_value),
            Token::Float => Some(self.styler.float_value),
            Token::BeginString | Token::EndString => if self.styler.string_include_quotation {
                Some(self.string_style())
            } else {
                None
            },
            Token::StringFragment => Some(self.string_style()),
            Token::BeginArray | Token::EndArray => Some(self.styler.array_brackets),
            Token::BeginObject | Token::EndObject => Some(self.styler.object_brackets),
            Token::CharEscape
            | Token::BeginArrayValue
            | Token::EndArrayValue
            | Token::BeginObjectKey
            | Token::EndObjectKey
            | Token::BeginObjectValue
            | Token::EndObjectValue
            | Token::RawFragment => None,
        }
    }

    /// What the decorator sends to the sink for `token`, when the wrapped
    /// formatter emitted `raw` for it.
    pub open spec fn emits(self, token: Token, raw: Seq<char>) -> Seq<char> {
        match self.style_of(token) {
            Some(style) => painted(style, raw),
            None => raw,
        }
    }

    /// Whether the text of `token` reaches the sink as the wrapped formatter
    /// emitted it: the token gets no style, or the plain one.
    pub open spec fn is_unstyled(self, token: Token) -> bool {
        match self.style_of(token) {
            Some(style) => style.is_plain(),
            None => true,
        }
    }

    /// The decorator after `token`: an object key begins with
    /// `BeginObjectKey` and is over with `EndObjectKey`; the events around an
    /// object value leave the key context as well.
    pub open spec fn after(self, token: Token) -> State {
        match token {
            Token::BeginObjectKey => State { in_object_key: true, ..self },
            Token::EndObjectKey | Token::BeginObjectValue | Token::EndObjectValue => State {
                in_object_key: false,
                ..self
            },
            _ => self,
        }
    }
}

/// Decorates the output of a JSON formatter with the styles of a `Styler`.
///
/// The decorator does not hold the formatter it decorates. Each method takes
/// what that formatter emitted for the event and returns what goes to the
/// sink in its place.
#[derive(Clone, Copy, Debug)]
pub struct ColoredFormatter {
    styler: Styler,
    in_object_key: bool,
}

impl View for ColoredFormatter {
    type V = State;

    closed spec fn view(&self) -> State {
        State { styler: self.styler, in_object_key: self.in_object_key }
    }
}

impl ColoredFormatter {
    /// A decorator with the default palette, outside any object key.
    pub fn new() -> (formatter: ColoredFormatter)
        ensures
            formatter@ == (State { styler: Styler::jq_like(), in_object_key: false }),
    {
        ColoredFormatter { styler: Styler::default(), in_object_key: false }
    }

    /// A decorator with the given palette, outside any object key.
    pub fn with_styler(styler: Styler) -> (formatter: ColoredFormatter)
        ensures
            formatter@ == (State { styler, in_object_key: false }),
    {
        ColoredFormatter { styler, in_object_key: false }
    }

    fn string_style(&self) -> (style: Style)
        ensures
            style == self@.string_style(),
    {
        if self.in_object_key {
            self.styler.key
        } else {
            self.styler.string_value
        }
    }

    /// `null`, in the style of null values.
    pub fn write_null(&mut self, raw: &str) -> (out: String)
        ensures
            out@ == old(self)@.emits(Token::Null, raw@),
            final(self)@ == old(self)@.after(Token::Null),
            escape_free(raw@) ==> strips_to(out@, raw@),
            old(self)@.is_unstyled(Token::Null) ==> out@ == raw@,
    {
        colored(&self.styler.nil_value, raw)
    }

    /// `true` or `false`, in the style of boolean values.
    pub fn write_bool(&mut self, raw: &str) -> (out: String)
        ensures
            out@ == old(self)@.emits(Token::Bool, raw@),
            final(self)@ == old(self)@.after(Token::Bool),
            escape_free(raw@) ==> strips_to(out@, raw@),
            old(self)@.is_unstyled(Token::Bool) ==> out@ == raw@,
    {
        colored(&self.styler.bool_value, raw)
    }

    /// An `i8` value, in the style of integer values.
    pub fn write_i8(&mut self, raw: &str) -> (out: String)
        ensures
            out@ == old(self)@.emits(Token::Integer, raw@),
            final(self)@ == old(self)@.after(Token::Integer),
            escape_free(raw@) ==> strips_to(out@, raw@),
            old(self)@.is_unstyled(Token::Integer) ==> out@ == raw@,
    {
        colored(&self.styler.integer_value, raw)
    }

    /// An `i16` value, in the style of integer values.
    pub fn write_i16(&mut self, raw: &str) -> (out: String)
        ensures
            out@ == old(self)@.emits(Token::Integer, raw@),
            final(self)@ == old(self)@.after(Token::Integer),
            escape_free(raw@) ==> strips_to(out@, raw@),
            old(self)@.is_unstyled(Token::Integer) ==> out@ == raw@,
    {
        colored(&self.styler.integer_value, raw)
    }

    /// An `i32` value, in the style of integer values.
    pub fn write_i32(&mut self, raw: &str) -> (out: String)
        ensures
            out@ == old(self)@.emits(Token::Integer, raw@),
            final(self)@ == old(self)@.after(Token::Integer),
            escape_free(raw@) ==> strips_to(out@, raw@),
            old(self)@.is_unstyled(Token::Integer) ==> out@ == raw@,
    {
        colored(&self.styler.integer_value, raw)
    }

    /// An `i64` value, in the style of integer values.
    pub fn write_i64(&mut self, raw: &str) -> (out: String)
        ensures
            out@ == old(self)@.emits(Token::Integer, raw@),
            final(self)@ == old(self)@.after(Token::Integer),
            escape_free(raw@) ==> strips_to(out@, raw@),
            old(self)@.is_unstyled(Token::Integer) ==> out@ == raw@,
    {
        colored(&self.styler.integer_value, raw)
    }

    /// An `u8` value, in the style of integer values.
    pub fn write_u8(&mut self, raw: &str) -> (out: String)
        ensures
            out@ == old(self)@.emits(Token::Integer, raw@),
            final(self)@ == old(self)@.after(Token::Integer),
            escape_free(raw@) ==> strips_to(out@, raw@),
            old(self)@.is_unstyled(Token::Integer) ==> out@ == raw@,
    {
        colored(&self.styler.integer_value, raw)
    }

    /// An `u16` value, in the style of integer values.
    pub fn write_u16(&mut self, raw: &str) -> (out: String)
        ensures
            out@ == old(self)@.emits(Token::Integer, raw@),
            final(self)@ == old(self)@.after(Token::Integer),
            escape_free(raw@) ==> strips_to(out@, raw@),
            old(self)@.is_unstyled(Token::Integer) ==> out@ == raw@,
    {
        colored(&self.styler.integer_value, raw)
    }

    /// An `u32` value, in the style of integer values.
    pub fn write_u32(&mut self, raw: &str) -> (out: String)
        ensures
            out@ == old(self)@.emits(Token::Integer, raw@),
            final(self)@ == old(self)@.after(Token::Integer),
            escape_free(raw@) ==> strips_to(out@, raw@),
            old(self)@.is_unstyled(Token::Integer) ==> out@ == raw@,
    {
        colored(&self.styler.integer_value, raw)
    }

    /// An `u64` value, in the style of integer values.
    pub fn write_u64(&mut self, raw: &str) -> (out: String)
        ensures
            out@ == old(self)@.emits(Token::Integer, raw@),
            final(self)@ == old(self)@.after(Token::Integer),
            escape_free(raw@) ==> strips_to(out@, raw@),
            old(self)@.is_unstyled(Token::Integer) ==> out@ == raw@,
    {
        colored(&self.styler.integer_value, raw)
    }

    /// An `f32` value, in the style of floating-point values.
    pub fn write_f32(&mut self, raw: &str) -> (out: String)
        ensures
            out@ == old(self)@.emits(Token::Float, raw@),
            final(self)@ == old(self)@.after(Token::Float),
            escape_free(raw@) ==> strips_to(out@, raw@),
            old(self)@.is_unstyled(Token::Float) ==> out@ == raw@,
    {
        colored(&self.styler.float_value, raw)
    }

    /// An `f64` value, in the style of floating-point values.
    pub fn write_f64(&mut self, raw: &str) -> (out: String)
        ensures
            out@ == old(self)@.emits(Token::Float, raw@),
            final(self)@ == old(self)@.after(Token::Float),
            escape_free(raw@) ==> strips_to(out@, raw@),
            old(self)@.is_unstyled(Token::Float) ==> out@ == raw@,
    {
        colored(&self.styler.float_value, raw)
    }

    /// A number that arrives as text, in the style of integer values.
    pub fn write_number_str(&mut self, raw: &str) -> (out: String)
        ensures
            out@ == old(self)@.emits(Token::NumberStr, raw@),
            final(self)@ == old(self)@.after(Token::NumberStr),
            escape_free(raw@) ==> strips_to(out@, raw@),
            old(self)@.is_unstyled(Token::NumberStr) ==> out@ == raw@,
    {
        colored(&self.styler.integer_value, raw)
    }

    /// The opening quotation mark: in the style of the key or string it opens
    /// where the table asks for painted quotation marks, unstyled otherwise.
    pub fn begin_string(&mut self, raw: &str) -> (out: String)
        ensures
            out@ == old(self)@.emits(Token::BeginString, raw@),
            final(self)@ == old(self)@.after(Token::BeginString),
            escape_free(raw@) ==> strips_to(out@, raw@),
            old(self)@.is_unstyled(Token::BeginString) ==> out@ == raw@,
    {
        if self.styler.string_include_quotation {
            let style = self.string_style();
            colored(&style, raw)
        } else {
            pass_through(raw)
        }
    }

    /// The closing quotation mark: in the style of the key or string it closes
    /// where the table asks for painted quotation marks, unstyled otherwise.
    pub fn end_string(&mut self, raw: &str) -> (out: String)
        ensures
            out@ == old(self)@.emits(Token::EndString, raw@),
            final(self)@ == old(self)@.after(Token::EndString),
            escape_free(raw@) ==> strips_to(out@, raw@),
            old(self)@.is_unstyled(Token::EndString) ==> out@ == raw@,
    {
        if self.styler.string_include_quotation {
            let style = self.string_style();
            colored(&style, raw)
        } else {
            pass_through(raw)
        }
    }

    /// A piece of string content: in the key style inside an object key, in the
    /// string-value style elsewhere, whatever the table says of quotation marks.
    pub fn write_string_fragment(&mut self, raw: &str) -> (out: String)
        ensures
            out@ == old(self)@.emits(Token::StringFragment, raw@),
            final(self)@ == old(self)@.after(Token::StringFragment),
            escape_free(raw@) ==> strips_to(out@, raw@),
            old(self)@.is_unstyled(Token::StringFragment) ==> out@ == raw@,
    {
        let style = self.string_style();
        colored(&style, raw)
    }

    /// The bracket that opens an array, in the style of array brackets.
    pub fn begin_array(&mut self, raw: &str) -> (out: String)
        ensures
            out@ == old(self)@.emits(Token::BeginArray, raw@),
            final(self)@ == old(self)@.after(Token::BeginArray),
            escape_free(raw@) ==> strips_to(out@, raw@),
            old(self)@.is_unstyled(Token::BeginArray) ==> out@ == raw@,
    {
        colored(&self.styler.array_brackets, raw)
    }

    /// The bracket that closes an array, with the line break and indentation
    /// that the wrapped formatter put before it, in the style of array brackets.
    pub fn end_array(&mut self, raw: &str) -> (out: String)
        ensures
            out@ == old(self)@.emits(Token::EndArray, raw@),
            final(self)@ == old(self)@.after(Token::EndArray),
            escape_free(raw@) ==> strips_to(out@, raw@),
            old(self)@.is_unstyled(Token::EndArray) ==> out@ == raw@,
    {
        colored(&self.styler.array_brackets, raw)
    }

    /// The separator before an array element, unstyled.
    pub fn begin_array_value(&mut self, raw: &str) -> (out: String)
        ensures
            out@ == old(self)@.emits(Token::BeginArrayValue, raw@),
            final(self)@ == old(self)@.after(Token::BeginArrayValue),
            escape_free(raw@) ==> strips_to(out@, raw@),
            old(self)@.is_unstyled(Token::BeginArrayValue) ==> out@ == raw@,
    {
        pass_through(raw)
    }

    /// What follows an array element, unstyled.
    pub fn end_array_value(&mut self, raw: &str) -> (out: String)
        ensures
            out@ == old(self)@.emits(Token::EndArrayValue, raw@),
            final(self)@ == old(self)@.after(Token::EndArrayValue),
            escape_free(raw@) ==> strips_to(out@, raw@),
            old(self)@.is_unstyled(Token::EndArrayValue) ==> out@ == raw@,
    {
        pass_through(raw)
    }

    /// The brace that opens an object, in the style of object brackets.
    pub fn begin_object(&mut self, raw: &str) -> (out: String)
        ensures
            out@ == old(self)@.emits(Token::BeginObject, raw@),
            final(self)@ == old(self)@.after(Token::BeginObject),
            escape_free(raw@) ==> strips_to(out@, raw@),
            old(self)@.is_unstyled(Token::BeginObject) ==> out@ == raw@,
    {
        colored(&self.styler.object_brackets, raw)
    }

    /// The brace that closes an object, with the line break and indentation that
    /// the wrapped formatter put before it, in the style of object brackets.
    pub fn end_object(&mut self, raw: &str) -> (out: String)
        ensures
            out@ == old(self)@.emits(Token::EndObject, raw@),
            final(self)@ == old(self)@.after(Token::EndObject),
            escape_free(raw@) ==> strips_to(out@, raw@),
            old(self)@.is_unstyled(Token::EndObject) ==> out@ == raw@,
    {
        colored(&self.styler.object_brackets, raw)
    }

    /// The separator before an object key, unstyled. The key context begins.
    pub fn begin_object_key(&mut self, raw: &str) -> (out: String)
        ensures
            out@ == old(self)@.emits(Token::BeginObjectKey, raw@),
            final(self)@ == old(self)@.after(Token::BeginObjectKey),
            escape_free(raw@) ==> strips_to(out@, raw@),
            old(self)@.is_unstyled(Token::BeginObjectKey) ==> out@ == raw@,
    {
        self.in_object_key = true;
        pass_through(raw)
    }

    /// What follows an object key, unstyled. The key context ends only now, so
    /// that the key's closing quotation mark was still painted as a key.
    pub fn end_object_key(&mut self, raw: &str) -> (out: String)
        ensures
            out@ == old(self)@.emits(Token::EndObjectKey, raw@),
            final(self)@ == old(self)@.after(Token::EndObjectKey),
            escape_free(raw@) ==> strips_to(out@, raw@),
            old(self)@.is_unstyled(Token::EndObjectKey) ==> out@ == raw@,
    {
        let out = pass_through(raw);
        self.in_object_key = false;
        out
    }

    /// The separator between a key and its value, unstyled. The key context is
    /// over, whether or not the end of the key was seen.
    pub fn begin_object_value(&mut self, raw: &str) -> (out: String)
        ensures
            out@ == old(self)@.emits(Token::BeginObjectValue, raw@),
            final(self)@ == old(self)@.after(Token::BeginObjectValue),
            escape_free(raw@) ==> strips_to(out@, raw@),
            old(self)@.is_unstyled(Token::BeginObjectValue) ==> out@ == raw@,
    {
        self.in_object_key = false;
        pass_through(raw)
    }

    /// What follows an object value, unstyled. The key context is over.
    pub fn end_object_value(&mut self, raw: &str) -> (out: String)
        ensures
            out@ == old(self)@.emits(Token::EndObjectValue, raw@),
            final(self)@ == old(self)@.after(Token::EndObjectValue),
            escape_free(raw@) ==> strips_to(out@, raw@),
            old(self)@.is_unstyled(Token::EndObjectValue) ==> out@ == raw@,
    {
        self.in_object_key = false;
        pass_through(raw)
    }

    /// Text that is already JSON, unstyled.
    pub fn write_raw_fragment(&mut self, raw: &str) -> (out: String)
        ensures
            out@ == old(self)@.emits(Token::RawFragment, raw@),
            final(self)@ == old(self)@.after(Token::RawFragment),
            escape_free(raw@) ==> strips_to(out@, raw@),
            old(self)@.is_unstyled(Token::RawFragment) ==> out@ == raw@,
    {
        pass_through(raw)
    }

    /// Handles any event: the same as the method that is named after it. A
    /// character escape inside a string passes through unstyled.
    pub fn write_token(&mut self, token: Token, raw: &str) -> (out: String)
        ensures
            out@ == old(self)@.emits(token, raw@),
            final(self)@ == old(self)@.after(token),
            escape_free(raw@) ==> strips_to(out@, raw@),
            old(self)@.is_unstyled(token) ==> out@ == raw@,
    {
        match token {
            Token::Null => self.write_null(raw),
            Token::Bool => self.write_bool(raw),
            Token::Integer => self.write_i64(raw),
            Token::Float => self.write_f64(raw),
            Token::NumberStr => self.write_number_str(raw),
            Token::BeginString => self.begin_string(raw),
            Token::EndString => self.end_string(raw),
            Token::StringFragment => self.write_string_fragment(raw),
            Token::CharEscape => pass_through(raw),
            Token::BeginArray => self.begin_array(raw),
            Token::EndArray => self.end_array(raw),
            Token::BeginArrayValue => self.begin_array_value(raw),
            Token::EndArrayValue => self.end_array_value(raw),
            Token::BeginObject => self.begin_object(raw),
            Token::EndObject => self.end_object(raw),
            Token::BeginObjectKey => self.begin_object_key(raw),
            Token::EndObjectKey => self.end_object_key(raw),
            Token::BeginObjectValue => self.begin_object_value(raw),
            Token::EndObjectValue => self.end_object_value(raw),
            Token::RawFragment => self.write_raw_fragment(raw),
        }
    }
}

/// The text as it is, for the events that get no style.
fn pass_through(raw: &str) -> (out: String)
    ensures
        out@ == raw@,
        escape_free(raw@) ==> strips_to(out@, raw@),
{
    proof {
        if escape_free(raw@) {
            lemma_text_strips_to_itself(raw@);
        }
    }
    raw.to_owned()
}

} // verus!
