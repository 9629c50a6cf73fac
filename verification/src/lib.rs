//! Colored JSON output: a decorator that wraps the tokens a JSON formatter
//! emits in terminal style codes, and the policy that decides whether color
//! is used at all.

pub mod ansi;
pub mod color_mode;
pub mod formatter;
pub mod laws;
pub mod render;
pub mod strip;
pub mod style;

pub use color_mode::{ColorMode, Output};
pub use formatter::{ColoredFormatter, State, Token};
pub use render::{
    plain_json, to_colored_json, to_colored_json_auto, to_colored_json_with_styler,
    write_colored_json, write_colored_json_with_mode, write_colored_json_with_styler, Fragment,
};
pub use style::{Style, Styler};
