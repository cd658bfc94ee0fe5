use cnxt::Color;
use cnxt::ColorLevel;
use cnxt::ColoredString;
use cnxt::Colorize;
use cnxt::Style;
use cnxt::Styles;

#[test]
fn clear_round_trips_the_text() {
    let texts = ["", "hello", "ünïcödé ⚙", "with \x1B[0m inside"];
    for t in texts {
        let styled = t.red().on_blue().bold();
        let cleared = styled.clear();
        assert_eq!(cleared.input, t);
        assert!(cleared.is_plain());
    }
}

#[test]
fn from_string_is_plain() {
    let cs = ColoredString::from(String::from("abc"));
    assert!(cs.is_plain());
    assert_eq!(cs.input, "abc");
}

#[test]
fn plain_value_renders_unchanged_at_every_level() {
    let levels = [
        ColorLevel::Disabled,
        ColorLevel::Ansi16,
        ColorLevel::Ansi256,
        ColorLevel::TrueColor,
    ];
    for level in levels {
        let cs = ColoredString::from(String::from("plain text"));
        assert_eq!(cs.render(level), "plain text");
    }
}

#[test]
fn disabled_renders_unchanged_even_when_styled() {
    let cs = "bold red".red().bold();
    assert_eq!(cs.render(ColorLevel::Disabled), "bold red");
}

#[test]
fn end_to_end_bold_red() {
    let cs = "x".red().bold();
    assert_eq!(cs.render(ColorLevel::TrueColor), "\x1B[1;31mx\x1B[0m");
}

#[test]
fn background_comes_before_foreground() {
    let cs = "x".red().on_blue();
    assert_eq!(cs.render(ColorLevel::TrueColor), "\x1B[44;31mx\x1B[0m");
}

#[test]
fn style_then_background_then_foreground() {
    let cs = "x".red().on_blue().bold();
    assert_eq!(cs.render(ColorLevel::TrueColor), "\x1B[1;44;31mx\x1B[0m");
}

#[test]
fn single_slot_has_no_leading_separator() {
    assert_eq!("x".bold().render(ColorLevel::TrueColor), "\x1B[1mx\x1B[0m");
    assert_eq!("x".on_blue().render(ColorLevel::TrueColor), "\x1B[44mx\x1B[0m");
    assert_eq!("x".red().render(ColorLevel::TrueColor), "\x1B[31mx\x1B[0m");
}

#[test]
fn render_downgrades_truecolor_at_lower_levels() {
    let cs = "x".truecolor(255, 0, 0);
    assert_eq!(cs.render(ColorLevel::Ansi16), "\x1B[91mx\x1B[0m");
    let cs = "x".truecolor(95, 135, 175);
    assert_eq!(cs.render(ColorLevel::Ansi256), "\x1B[38;5;67mx\x1B[0m");
}

#[test]
fn nested_styling_reinserts_outer_preamble_after_embedded_reset() {
    // The inner value carries its own styling, ending in a plain reset.
    let inner = "a".red().render(ColorLevel::TrueColor);
    assert_eq!(inner, "\x1B[31ma\x1B[0m");
    let text = format!("{inner}tail");
    let outer = ColoredString::from(text).bold();
    let rendered = outer.render(ColorLevel::TrueColor);
    // The bold preamble reappears right after the embedded reset, so the
    // tail still displays bold.
    assert_eq!(rendered, "\x1B[1m\x1B[31ma\x1B[0m\x1B[1mtail\x1B[0m");
    assert!(rendered.contains("\x1B[0m\x1B[1mtail"));
}

#[test]
fn every_embedded_reset_is_followed_by_the_preamble() {
    let text = String::from("one\x1B[0mtwo\x1B[0mthree");
    let outer = ColoredString::from(text).on_green();
    let rendered = outer.render(ColorLevel::TrueColor);
    assert_eq!(
        rendered,
        "\x1B[42mone\x1B[0m\x1B[42mtwo\x1B[0m\x1B[42mthree\x1B[0m"
    );
}

#[test]
fn escape_leaves_reset_free_text_alone() {
    let cs = "no resets here".blue();
    assert_eq!(cs.escape_inner_reset_sequences(ColorLevel::TrueColor), "no resets here");
}

#[test]
fn compute_style_empty_when_plain_or_disabled() {
    let plain = ColoredString::from(String::from("x"));
    assert_eq!(plain.compute_style(ColorLevel::TrueColor), "");
    let styled = "x".red();
    assert_eq!(styled.compute_style(ColorLevel::Disabled), "");
    assert_eq!(styled.compute_style(ColorLevel::TrueColor), "\x1B[31m");
}

#[test]
fn later_color_calls_override_earlier_ones() {
    let cs = "x".red().blue();
    assert_eq!(cs.fgcolor, Some(Color::Blue));
    let cs = "x".on_red().on_blue();
    assert_eq!(cs.bgcolor, Some(Color::Blue));
}

#[test]
fn style_flags_accumulate() {
    let cs = "x".bold().italic();
    assert!(cs.style.contains(Styles::Bold));
    assert!(cs.style.contains(Styles::Italic));
}

#[test]
fn conditional_coloring() {
    let on = "x".red_if(true);
    assert_eq!(on.fgcolor, Some(Color::Red));
    let off = "x".red_if(false);
    assert_eq!(off.fgcolor, None);
    assert!(off.is_plain());
    let kept = "x".green().red_if(false);
    assert_eq!(kept.fgcolor, Some(Color::Green));
    let bg = "x".on_cyan_if(true);
    assert_eq!(bg.bgcolor, Some(Color::Cyan));
}

#[test]
fn clear_slot_methods() {
    let mut cs = "x".red().on_blue().bold();
    cs.clear_fgcolor();
    assert_eq!(cs.fgcolor, None);
    assert_eq!(cs.bgcolor, Some(Color::Blue));
    cs.clear_bgcolor();
    assert_eq!(cs.bgcolor, None);
    assert!(cs.style.contains(Styles::Bold));
    cs.clear_style();
    assert_eq!(cs.style, Style::default());
    assert!(cs.is_plain());
}

#[test]
fn normal_equals_clear() {
    let a = "x".red().normal();
    let b = "x".red().clear();
    assert_eq!(a, b);
    assert!(a.is_plain());
}

#[test]
fn has_colors_by_level() {
    assert!(!ColoredString::has_colors(ColorLevel::Disabled));
    assert!(ColoredString::has_colors(ColorLevel::Ansi16));
    assert!(ColoredString::has_colors(ColorLevel::Ansi256));
    assert!(ColoredString::has_colors(ColorLevel::TrueColor));
}

#[test]
fn ansi256_and_truecolor_builders() {
    let cs = "x".ansi256color(42);
    assert_eq!(cs.fgcolor, Some(Color::Ansi256 { idx: 42 }));
    let cs = "x".on_ansi256color(7);
    assert_eq!(cs.bgcolor, Some(Color::Ansi256 { idx: 7 }));
    let cs = "x".truecolor(1, 2, 3);
    assert_eq!(cs.fgcolor, Some(Color::TrueColor { r: 1, g: 2, b: 3 }));
    let cs = "x".on_truecolor(4, 5, 6);
    assert_eq!(cs.bgcolor, Some(Color::TrueColor { r: 4, g: 5, b: 6 }));
}

#[test]
fn purple_is_magenta() {
    assert_eq!("x".purple().fgcolor, Some(Color::Magenta));
    assert_eq!("x".bright_purple().fgcolor, Some(Color::BrightMagenta));
    assert_eq!("x".on_purple().bgcolor, Some(Color::Magenta));
}

#[test]
fn rendering_a_styled_empty_text() {
    let cs = "".red();
    assert!(!cs.is_plain());
    assert_eq!(cs.render(ColorLevel::TrueColor), "\x1B[31m\x1B[0m");
}
