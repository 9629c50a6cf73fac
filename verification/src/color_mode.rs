//! The color policy: whether a render emits style codes at all.

use vstd::prelude::*;

verus! {

/// The output stream whose terminal capability decides `ColorMode::Auto`.
#[derive(Clone, Copy, Debug, PartialEq, Eq, Structural)]
pub enum Output {
    StdOut,
    StdErr,
}

/// Force color on, force it off, or decide by the output stream.
#[derive(Clone, Copy, Debug, PartialEq, Eq, Structural)]
pub enum ColorMode {
    On,
    Off,
    Auto(Output),
}

/// Calls `atty::is` on the stream that `output` stands for. `atty::is` asks
/// the operating system whether that stream is attached to a terminal, so the
/// answer depends on the process's environment at the time of the call and
/// nothing is claimed of it.
#[verifier::external_body]
fn is_tty(output: Output) -> (tty: bool) {
    match output {
        Output::StdOut => atty::is(atty::Stream::Stdout),
        Output::StdErr => atty::is(atty::Stream::Stderr),
    }
}

impl ColorMode {
    /// The decision a mode stands for, given what the probe of its stream
    /// reports: `On` and `Off` ignore the probe, `Auto` follows it.
    pub open spec fn colorizes(self, interactive: bool) -> bool {
        match self {
            ColorMode::On => true,
            ColorMode::Off => false,
            ColorMode::Auto(_) => interactive,
        }
    }

    /// The mode that `eval` collapses to under a given probe result.
    pub open spec fn resolved(self, interactive: bool) -> ColorMode {
        if self.colorizes(interactive) {
            ColorMode::On
        } else {
            ColorMode::Off
        }
    }

    /// Whether `output` is an interactive terminal right now. The stream is
    /// probed on every call.
    pub fn should_colorize(output: Output) -> (tty: bool) {
        is_tty(output)
    }

    /// The color decision for a probe result that the caller already holds.
    pub fn use_color_when(self, interactive: bool) -> (on: bool)
        ensures
            on == self.colorizes(interactive),
    {
        match self {
            ColorMode::On => true,
            ColorMode::Off => false,
            ColorMode::Auto(_) => interactive,
        }
    }

    /// Whether color should be used. `On` and `Off` answer without probing;
    /// `Auto` probes its stream, so its answer is whatever the probe says.
    pub fn use_color(self) -> (on: bool)
        ensures
            self is On ==> on,
            self is Off ==> !on,
    {
        match self {
            ColorMode::On => true,
            ColorMode::Off => false,
            ColorMode::Auto(output) => {
                let interactive = Self::should_colorize(output);
                self.use_color_when(interactive)
            },
        }
    }

    /// Collapses a mode to `On` or `Off` for a probe result that the caller
    /// already holds.
    pub fn eval_when(self, interactive: bool) -> (mode: ColorMode)
        ensures
            mode == self.resolved(interactive),
    {
        if self.use_color_when(interactive) {
            ColorMode::On
        } else {
            ColorMode::Off
        }
    }

    /// Collapses `Auto` to `On` or `Off` by probing now; `On` and `Off` are
    /// returned as they are.
    pub fn eval(self) -> (mode: ColorMode)
        ensures
            mode is On || mode is Off,
            self is On ==> mode is On,
            self is Off ==> mode is Off,
    {
        if self.use_color() {
            ColorMode::On
        } else {
            ColorMode::Off
        }
    }
}

impl Default for ColorMode {
    /// `Auto` on standard output.
    fn default() -> (mode: ColorMode)
        ensures
            mode == ColorMode::Auto(Output::StdOut),
    {
        ColorMode::Auto(Output::StdOut)
    }
}

} // verus!
