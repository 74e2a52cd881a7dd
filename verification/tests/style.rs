use label_logger::{Color, Environment, OutputMode, Style, Styled};

fn env(colors: bool, colors_stderr: bool) -> Environment {
    Environment { mode: OutputMode::Piped, colors, colors_stderr }
}

#[test]
fn new_style_sets_nothing() {
    let style = Style::new();
    assert_eq!(style.fg, None);
    assert_eq!(style.bg, None);
    assert!(!style.fg_bright);
    assert!(!style.bg_bright);
    assert!(!style.bold);
    assert_eq!(style.force, None);
    assert!(!style.for_stderr);
}

#[test]
fn builders_set_one_field_each() {
    let base = Style::new();
    assert_eq!(base.fg(Color::Red), Style { fg: Some(Color::Red), ..base });
    assert_eq!(base.bg(Color::Blue), Style { bg: Some(Color::Blue), ..base });
    assert_eq!(base.bright(), Style { fg_bright: true, ..base });
    assert_eq!(base.on_bright(), Style { bg_bright: true, ..base });
    assert_eq!(base.bold(), Style { bold: true, ..base });
    assert_eq!(base.for_stderr(), Style { for_stderr: true, ..base });
    assert_eq!(base.force_styling(false), Style { force: Some(false), ..base });
}

#[test]
fn apply_to_keeps_text_and_style() {
    let style = Style::new().fg(Color::Magenta);
    let styled: Styled = style.apply_to("text");
    assert_eq!(styled.text, "text");
    assert_eq!(styled.style, style);
}

#[test]
fn dotted_description_names_what_is_set() {
    assert_eq!(Style::new().to_dotted(), "");
    assert_eq!(Style::new().fg(Color::Red).bold().to_dotted(), "red.bold");
    assert_eq!(Style::new().fg(Color::Black).bright().to_dotted(), "black.bright");
    assert_eq!(Style::new().fg(Color::Black).bg(Color::White).to_dotted(), "black.on_white");
    assert_eq!(Style::new().bg(Color::Yellow).on_bright().to_dotted(), "on_yellow.on_bright");
    assert_eq!(
        Style::new().fg(Color::Cyan).bright().bg(Color::Green).on_bright().bold().to_dotted(),
        "cyan.bright.on_green.on_bright.bold"
    );
    assert_eq!(Style::new().bold().to_dotted(), "bold");
}

#[test]
fn dotted_description_knows_every_colour() {
    let colors = [
        (Color::Black, "black.on_black"),
        (Color::Red, "red.on_red"),
        (Color::Green, "green.on_green"),
        (Color::Yellow, "yellow.on_yellow"),
        (Color::Blue, "blue.on_blue"),
        (Color::Magenta, "magenta.on_magenta"),
        (Color::Cyan, "cyan.on_cyan"),
        (Color::White, "white.on_white"),
    ];
    for (color, terms) in colors {
        assert_eq!(Style::new().fg(color).bg(color).to_dotted(), terms);
    }
}

#[test]
fn styling_follows_the_stream() {
    let out = Style::new().fg(Color::Red);
    let err = Style::new().fg(Color::Red).for_stderr();
    assert!(out.is_enabled(&env(true, false)));
    assert!(!out.is_enabled(&env(false, true)));
    assert!(err.is_enabled(&env(false, true)));
    assert!(!err.is_enabled(&env(true, false)));
}

#[test]
fn forced_styling_overrides_the_stream() {
    let on = Style::new().fg(Color::Red).force_styling(true);
    let off = Style::new().fg(Color::Red).force_styling(false);
    assert!(on.is_enabled(&env(false, false)));
    assert!(!off.is_enabled(&env(true, true)));
}

#[test]
fn disabled_style_leaves_text_bare() {
    let style = Style::new().fg(Color::Red).bold();
    assert_eq!(style.render("Error", &env(false, false)), "Error");
}

#[test]
fn enabled_style_wraps_text_in_codes() {
    let style = Style::new().fg(Color::Red).bold();
    assert_eq!(style.render("Error", &env(true, false)), "\u{1b}[31m\u{1b}[1mError\u{1b}[0m");
}

#[test]
fn bright_colour_uses_the_extended_palette() {
    let style = Style::new().fg(Color::Black).bright();
    assert_eq!(style.render("›", &env(true, true)), "\u{1b}[38;5;8m›\u{1b}[0m");
}

#[test]
fn background_comes_after_text_colour() {
    let style = Style::new().fg(Color::Black).bg(Color::White);
    assert_eq!(style.render(" ", &env(true, true)), "\u{1b}[30m\u{1b}[47m \u{1b}[0m");
}

#[test]
fn plain_style_leaves_text_bare() {
    assert_eq!(Style::new().render("text", &env(true, true)), "text");
    assert_eq!(Style::new().bright().on_bright().render("text", &env(true, true)), "text");
}

#[test]
fn styled_text_renders_in_its_style() {
    let styled = Style::new().fg(Color::Green).for_stderr().apply_to("✔");
    assert_eq!(styled.render(&env(false, true)), "\u{1b}[32m✔\u{1b}[0m");
    assert_eq!(styled.render(&env(true, false)), "✔");
}
