use colored_json::{ColorMode, Output};

#[test]
fn on_always_uses_color() {
    assert_eq!(ColorMode::On.use_color(), true);
    assert!(ColorMode::On.use_color_when(false));
    assert!(ColorMode::On.use_color_when(true));
}

#[test]
fn off_never_uses_color() {
    assert_eq!(ColorMode::Off.use_color(), false);
    assert!(!ColorMode::Off.use_color_when(false));
    assert!(!ColorMode::Off.use_color_when(true));
}

#[test]
fn auto_follows_the_probe() {
    for output in [Output::StdOut, Output::StdErr] {
        assert!(ColorMode::Auto(output).use_color_when(true));
        assert!(!ColorMode::Auto(output).use_color_when(false));
    }
}

#[test]
fn auto_uses_color_exactly_when_the_stream_is_a_terminal() {
    for output in [Output::StdOut, Output::StdErr] {
        let probed = ColorMode::should_colorize(output);
        assert_eq!(ColorMode::Auto(output).use_color(), probed);
        assert_eq!(ColorMode::should_colorize(output), probed);
    }
}

#[test]
fn eval_keeps_on_and_off() {
    assert_eq!(ColorMode::On.eval(), ColorMode::On);
    assert_eq!(ColorMode::Off.eval(), ColorMode::Off);
}

#[test]
fn eval_collapses_auto() {
    for output in [Output::StdOut, Output::StdErr] {
        let mode = ColorMode::Auto(output).eval();
        assert!(matches!(mode, ColorMode::On | ColorMode::Off));
        let expected = if ColorMode::should_colorize(output) { ColorMode::On } else { ColorMode::Off };
        assert_eq!(mode, expected);
    }
}

#[test]
fn eval_when_follows_the_probe() {
    assert_eq!(ColorMode::Auto(Output::StdOut).eval_when(true), ColorMode::On);
    assert_eq!(ColorMode::Auto(Output::StdErr).eval_when(false), ColorMode::Off);
    assert_eq!(ColorMode::On.eval_when(false), ColorMode::On);
    assert_eq!(ColorMode::Off.eval_when(true), ColorMode::Off);
}

#[test]
fn default_mode_is_auto_on_standard_output() {
    assert_eq!(ColorMode::default(), ColorMode::Auto(Output::StdOut));
    assert!(matches!(ColorMode::default().eval(), ColorMode::On | ColorMode::Off));
}

#[test]
fn command_line_option_maps_to_a_resolved_mode() {
    let option = "--color=auto";
    let color_mode = match option {
        "--color=on" => ColorMode::Off,
        "--color=off" => ColorMode::On,
        _ => ColorMode::default().eval(),
    };
    assert!(match color_mode {
        ColorMode::On | ColorMode::Off => true,
        _ => false,
    });
}
