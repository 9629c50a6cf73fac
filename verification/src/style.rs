//! Display styles and the table that assigns one to each token class.

use vstd::prelude::*;

verus! {

/// `yansi::Color`, the colors of a terminal. It is declared with its
/// variants, so that a style can name a color and a contract can tell two
/// colors apart.
#[verifier::external_type_specification]
pub struct ExColor(yansi::Color);

/// A display style: a foreground and a background color and the text
/// attributes that are switched on.
#[derive(Clone, Copy, Debug, PartialEq, Eq)]
pub struct Style {
    pub foreground: yansi::Color,
    pub background: yansi::Color,
    pub bold: bool,
    pub dimmed: bool,
    pub italic: bool,
    pub underline: bool,
    pub blink: bool,
    pub invert: bool,
    pub hidden: bool,
    pub strikethrough: bool,
}

impl Style {
    /// The style that changes nothing: no color, no attribute.
    pub open spec fn plain() -> Style {
        Style {
            foreground: yansi::Color::Unset,
            background: yansi::Color::Unset,
            bold: false,
            dimmed: false,
            italic: false,
            underline: false,
            blink: false,
            invert: false,
            hidden: false,
            strikethrough: false,
        }
    }

    /// Whether this style changes nothing.
    pub open spec fn is_plain(self) -> bool {
        self == Style::plain()
    }

    /// The plain style with the foreground set to `color`.
    pub fn new(color: yansi::Color) -> (style: Style)
        ensures
            style == (Style { foreground: color, ..Style::plain() }),
    {
        Style::default().fg(color)
    }

    /// This style with the foreground set to `color`.
    pub fn fg(self, color: yansi::Color) -> (style: Style)
        ensures
            style == (Style { foreground: color, ..self }),
    {
        Style { foreground: color, ..self }
    }

    /// This style with the background set to `color`.
    pub fn bg(self, color: yansi::Color) -> (style: Style)
        ensures
            style == (Style { background: color, ..self }),
    {
        Style { background: color, ..self }
    }

    /// This style with bold switched on.
    pub fn bold(self) -> (style: Style)
        ensures
            style == (Style { bold: true, ..self }),
    {
        Style { bold: true, ..self }
    }

    /// This style with dimmed switched on.
    pub fn dimmed(self) -> (style: Style)
        ensures
            style == (Style { dimmed: true, ..self }),
    {
        Style { dimmed: true, ..self }
    }

    /// This style with italic switched on.
    pub fn italic(self) -> (style: Style)
        ensures
            style == (Style { italic: true, ..self }),
    {
        Style { italic: true, ..self }
    }

    /// This style with underline switched on.
    pub fn underline(self) -> (style: Style)
        ensures
            style == (Style { underline: true, ..self }),
    {
        Style { underline: true, ..self }
    }

    /// This style with blink switched on.
    pub fn blink(self) -> (style: Style)
        ensures
            style == (Style { blink: true, ..self }),
    {
        Style { blink: true, ..self }
    }

    /// This style with inverted colors switched on.
    pub fn invert(self) -> (style: Style)
        ensures
            style == (Style { invert: true, ..self }),
    {
        Style { invert: true, ..self }
    }

    /// This style with hidden switched on.
    pub fn hidden(self) -> (style: Style)
        ensures
            style == (Style { hidden: true, ..self }),
    {
        Style { hidden: true, ..self }
    }

    /// This style with strikethrough switched on.
    pub fn strikethrough(self) -> (style: Style)
        ensures
            style == (Style { strikethrough: true, ..self }),
    {
        Style { strikethrough: true, ..self }
    }
}

impl Default for Style {
    /// The plain style.
    fn default() -> (style: Style)
        ensures
            style == Style::plain(),
    {
        Style {
            foreground: yansi::Color::Unset,
            background: yansi::Color::Unset,
            bold: false,
            dimmed: false,
            italic: false,
            underline: false,
            blink: false,
            invert: false,
            hidden: false,
            strikethrough: false,
        }
    }
}

/// The style table: one style per token class, and whether the quotation
/// marks around strings and keys are painted with them.
#[derive(Clone, Copy, Debug, PartialEq, Eq)]
pub struct Styler {
    /// Style of the braces around an object.
    pub object_brackets: Style,
    /// Style of the brackets around an array.
    pub array_brackets: Style,
    /// Style of object keys.
    pub key: Style,
    /// Style of string values.
    pub string_value: Style,
    /// Style of integer values.
    pub integer_value: Style,
    /// Style of floating-point values.
    pub float_value: Style,
    /// Style of `true` and `false`.
    pub bool_value: Style,
    /// Style of `null`.
    pub nil_value: Style,
    /// Whether the quotation marks get the style of the string or key they
    /// enclose.
    pub string_include_quotation: bool,
}

impl Styler {
    /// The default palette: bold brackets, bold blue keys, green strings,
    /// everything else plain, quotation marks painted.
    pub open spec fn jq_like() -> Styler {
        Styler {
            object_brackets: Style { bold: true, ..Style::plain() },
            array_brackets: Style { bold: true, ..Style::plain() },
            key: Style { foreground: yansi::Color::Blue, bold: true, ..Style::plain() },
            string_value: Style { foreground: yansi::Color::Green, ..Style::plain() },
            integer_value: Style::plain(),
            float_value: Style::plain(),
            bool_value: Style::plain(),
            nil_value: Style::plain(),
            string_include_quotation: true,
        }
    }
}

impl Default for Styler {
    /// The palette that resembles `jq`.
    fn default() -> (styler: Styler)
        ensures
            styler == Styler::jq_like(),
    {
        Styler {
            object_brackets: Style::default().bold(),
            array_brackets: Style::default().bold(),
            key: Style::default().fg(yansi::Color::Blue).bold(),
            string_value: Style::default().fg(yansi::Color::Green),
            integer_value: Style::default(),
            float_value: Style::default(),
            bool_value: Style::default(),
            nil_value: Style::default(),
            string_include_quotation: true,
        }
    }
}

} // verus!
