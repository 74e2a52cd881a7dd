use label_logger::{Color, Environment, LabelTheme, OutputMode, Style};

fn piped(colors: bool) -> Environment {
    Environment { mode: OutputMode::Piped, colors, colors_stderr: colors }
}

fn terminal(width: u32) -> Environment {
    Environment { mode: OutputMode::Interactive { width }, colors: false, colors_stderr: false }
}

#[test]
fn default_theme_styles() {
    let theme = LabelTheme::default();
    let plain = Style::new().for_stderr();
    assert_eq!(theme.defaults_style, plain.fg(Color::Cyan));
    assert_eq!(theme.prompt_style, plain.bold());
    assert_eq!(theme.error_style, plain.fg(Color::Red));
    assert_eq!(theme.hint_style, plain.fg(Color::Black).bright());
    assert_eq!(theme.values_style, plain.fg(Color::Green));
    assert_eq!(theme.active_item_style, plain.fg(Color::Cyan));
    assert_eq!(theme.inactive_item_style, plain);
    assert_eq!(theme.fuzzy_cursor_style, plain.fg(Color::Black).bg(Color::White));
    assert!(theme.inline_selections);
}

#[test]
fn default_theme_marks() {
    let theme = LabelTheme::default();
    let plain = Style::new().for_stderr();
    assert_eq!(theme.prompt_prefix.text, "?");
    assert_eq!(theme.prompt_prefix.style, plain.fg(Color::Yellow));
    assert_eq!(theme.prompt_suffix.text, "›");
    assert_eq!(theme.prompt_suffix.style, plain.fg(Color::Black).bright());
    assert_eq!(theme.success_prefix.text, "✔");
    assert_eq!(theme.success_prefix.style, plain.fg(Color::Green));
    assert_eq!(theme.success_suffix.text, "·");
    assert_eq!(theme.success_suffix.style, plain.fg(Color::Black).bright());
    assert_eq!(theme.error_prefix.text, "✘");
    assert_eq!(theme.error_prefix.style, plain.fg(Color::Red));
    assert_eq!(theme.active_item_prefix.text, "❯");
    assert_eq!(theme.active_item_prefix.style, plain.fg(Color::Green));
    assert_eq!(theme.inactive_item_prefix.text, " ");
    assert_eq!(theme.inactive_item_prefix.style, plain);
    assert_eq!(theme.checked_item_prefix.text, "✔");
    assert_eq!(theme.checked_item_prefix.style, plain.fg(Color::Green));
    assert_eq!(theme.unchecked_item_prefix.text, "✔");
    assert_eq!(theme.unchecked_item_prefix.style, plain.fg(Color::Black));
    assert_eq!(theme.picked_item_prefix.text, "❯");
    assert_eq!(theme.picked_item_prefix.style, plain.fg(Color::Green));
    assert_eq!(theme.unpicked_item_prefix.text, " ");
    assert_eq!(theme.unpicked_item_prefix.style, plain);
}

#[test]
fn prompt_line() {
    let theme = LabelTheme::default();
    assert_eq!(theme.format_prompt("What?", &piped(false)), "? What?");
    assert_eq!(theme.format_prompt("What?", &terminal(40)), "           ? What?");
}

#[test]
fn prompt_line_in_colour() {
    let theme = LabelTheme::default();
    assert_eq!(
        theme.format_prompt("What?", &piped(true)),
        "\u{1b}[33m?\u{1b}[0m \u{1b}[1mWhat?\u{1b}[0m"
    );
}

#[test]
fn error_line() {
    let theme = LabelTheme::default();
    assert_eq!(theme.format_error("bad input", &piped(false)), "✘ bad input");
    assert_eq!(
        theme.format_error("bad input", &piped(true)),
        "\u{1b}[31m✘\u{1b}[0m \u{1b}[31mbad input\u{1b}[0m"
    );
}

#[test]
fn input_prompt_without_default() {
    let theme = LabelTheme::default();
    assert_eq!(theme.format_input_prompt("Name", None, &piped(false)), "? Name › ");
}

#[test]
fn input_prompt_with_default() {
    let theme = LabelTheme::default();
    assert_eq!(theme.format_input_prompt("Name", Some("joe"), &piped(false)), "? Name (joe) › ");
}

#[test]
fn confirm_prompt_hints() {
    let theme = LabelTheme::default();
    let env = piped(false);
    assert_eq!(theme.format_confirm_prompt("Sure?", None, &env), "? Sure? (y/n) ›");
    assert_eq!(theme.format_confirm_prompt("Sure?", Some(true), &env), "? Sure? (y/n) › yes");
    assert_eq!(theme.format_confirm_prompt("Sure?", Some(false), &env), "? Sure? (y/n) › no");
}

#[test]
fn confirm_selection() {
    let theme = LabelTheme::default();
    let env = piped(false);
    assert_eq!(theme.format_confirm_prompt_selection("Sure?", Some(true), &env), "✔ Sure? · yes");
    assert_eq!(theme.format_confirm_prompt_selection("Sure?", Some(false), &env), "✔ Sure? · no");
    assert_eq!(theme.format_confirm_prompt_selection("Sure?", None, &env), "✔ Sure? ·");
    assert_eq!(theme.format_confirm_prompt_selection("", Some(false), &env), " · no");
}

#[test]
fn input_selection() {
    let theme = LabelTheme::default();
    let env = piped(false);
    assert_eq!(theme.format_input_prompt_selection("Name", "joe", &env), "✔ Name · joe");
    assert_eq!(theme.format_input_prompt_selection("Name", "", &env), "✔ Name");
    assert_eq!(theme.format_input_prompt_selection("", "joe", &env), " · joe");
    assert_eq!(theme.format_input_prompt_selection("", "", &env), "");
}

#[test]
fn password_selection_hides_the_answer() {
    let theme = LabelTheme::default();
    assert_eq!(
        theme.format_password_prompt_selection("Password", &piped(false)),
        "✔ Password · ********"
    );
}

#[test]
fn multi_select_selection_lists_inline() {
    let theme = LabelTheme::default();
    let env = piped(false);
    assert_eq!(
        theme.format_multi_select_prompt_selection("Pick", &["a", "b", "c"], &env),
        "✔ Pick· a, b, c"
    );
    assert_eq!(theme.format_multi_select_prompt_selection("Pick", &["a"], &env), "✔ Pick· a");
    assert_eq!(theme.format_multi_select_prompt_selection("Pick", &[], &env), "✔ Pick· ");
    assert_eq!(theme.format_multi_select_prompt_selection("", &["a", "b"], &env), "· a, b");
}

#[test]
fn multi_select_selection_without_inline_list() {
    let theme = LabelTheme { inline_selections: false, ..LabelTheme::default() };
    assert_eq!(
        theme.format_multi_select_prompt_selection("Pick", &["a", "b"], &piped(false)),
        "✔ Pick· "
    );
}

#[test]
fn multi_select_selection_styles_each_value() {
    let theme = LabelTheme::default();
    let env = Environment { mode: OutputMode::Piped, colors: false, colors_stderr: true };
    assert_eq!(
        theme.format_multi_select_prompt_selection("", &["a", "b"], &env),
        "\u{1b}[38;5;8m·\u{1b}[0m \u{1b}[32ma\u{1b}[0m, \u{1b}[32mb\u{1b}[0m"
    );
}

#[test]
fn select_item() {
    let theme = LabelTheme::default();
    let env = piped(false);
    assert_eq!(theme.format_select_prompt_item("item", true, &env), "❯ item");
    assert_eq!(theme.format_select_prompt_item("item", false, &env), "  item");
}

#[test]
fn select_item_on_terminal() {
    let theme = LabelTheme::default();
    assert_eq!(theme.format_select_prompt_item("item", true, &terminal(30)), "           ❯ item");
}

#[test]
fn multi_select_item_marks() {
    let theme = LabelTheme::default();
    let env = piped(true);
    let checked = "\u{1b}[32m\u{1b}[1m\u{1b}[32m✔\u{1b}[0m\u{1b}[0m";
    let unchecked = "\u{1b}[32m\u{1b}[1m\u{1b}[30m✔\u{1b}[0m\u{1b}[0m";
    assert_eq!(
        theme.format_multi_select_prompt_item("item", true, true, &env),
        format!("{} \u{1b}[36mitem\u{1b}[0m", checked)
    );
    assert_eq!(
        theme.format_multi_select_prompt_item("item", true, false, &env),
        format!("{} item", checked)
    );
    assert_eq!(
        theme.format_multi_select_prompt_item("item", false, true, &env),
        format!("{} \u{1b}[36mitem\u{1b}[0m", unchecked)
    );
    assert_eq!(
        theme.format_multi_select_prompt_item("item", false, false, &env),
        format!("{} item", unchecked)
    );
}

#[test]
fn sort_item_marks() {
    let theme = LabelTheme::default();
    let env = piped(false);
    assert_eq!(theme.format_sort_prompt_item("item", true, true, &env), "❯ item");
    assert_eq!(theme.format_sort_prompt_item("item", false, true, &env), "  item");
    assert_eq!(theme.format_sort_prompt_item("item", true, false, &env), "  item");
    assert_eq!(theme.format_sort_prompt_item("item", false, false, &env), "  item");
}

#[test]
fn sort_item_styles() {
    let theme = LabelTheme::default();
    let env = Environment { mode: OutputMode::Piped, colors: false, colors_stderr: true };
    assert_eq!(
        theme.format_sort_prompt_item("item", false, true, &env),
        "  \u{1b}[36mitem\u{1b}[0m"
    );
    assert_eq!(theme.format_sort_prompt_item("item", true, false, &env), "  item");
}

#[test]
fn fuzzy_prompt_marks_the_cursor() {
    let cursor = Style::new().fg(Color::Black).bg(Color::White).force_styling(true);
    let theme = LabelTheme { fuzzy_cursor_style: cursor, ..LabelTheme::default() };
    let env = piped(false);
    assert_eq!(
        theme.format_fuzzy_select_prompt("Find", "abc", 1, &env),
        "✔ Find › a\u{1b}[30m\u{1b}[47mb\u{1b}[0mc"
    );
    assert_eq!(
        theme.format_fuzzy_select_prompt("Find", "abc", 0, &env),
        "✔ Find › \u{1b}[30m\u{1b}[47ma\u{1b}[0mbc"
    );
    assert_eq!(
        theme.format_fuzzy_select_prompt("Find", "abc", 2, &env),
        "✔ Find › ab\u{1b}[30m\u{1b}[47mc\u{1b}[0m"
    );
}

#[test]
fn fuzzy_prompt_cursor_past_the_end() {
    let cursor = Style::new().fg(Color::Black).bg(Color::White).force_styling(true);
    let theme = LabelTheme { fuzzy_cursor_style: cursor, ..LabelTheme::default() };
    let env = piped(false);
    assert_eq!(
        theme.format_fuzzy_select_prompt("Find", "abc", 3, &env),
        "✔ Find › abc\u{1b}[30m\u{1b}[47m \u{1b}[0m"
    );
    assert_eq!(
        theme.format_fuzzy_select_prompt("Find", "", 0, &env),
        "✔ Find › \u{1b}[30m\u{1b}[47m \u{1b}[0m"
    );
    assert_eq!(
        theme.format_fuzzy_select_prompt("", "abc", 9, &env),
        " › abc\u{1b}[30m\u{1b}[47m \u{1b}[0m"
    );
}

#[test]
fn fuzzy_prompt_counts_characters() {
    let theme = LabelTheme::default();
    let env = piped(false);
    assert_eq!(theme.format_fuzzy_select_prompt("Find", "aéb", 1, &env), "✔ Find › aéb");
    assert_eq!(theme.format_fuzzy_select_prompt("Find", "aéb", 3, &env), "✔ Find › aéb ");
    assert_eq!(theme.format_fuzzy_select_prompt("", "abc", 1, &env), " › abc");
}
