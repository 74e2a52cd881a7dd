//! A theme for prompts whose lines match the labelled log lines.

use vstd::prelude::*;
use vstd::string::*;
use crate::log::{emphasis, line, pretty_output, OutputLabel};
use crate::style::{Color, Style, Styled};
use crate::terminal::Environment;

verus! {

/// The theme that goes with the labelled log lines: the styles and marks from
/// which the lines of a prompt are made.
#[derive(Clone, Copy, Debug)]
pub struct LabelTheme<'a> {
    /// The style for default values
    pub defaults_style: Style,
    /// The style for prompt
    pub prompt_style: Style,
    /// Prompt prefix value and style
    pub prompt_prefix: Styled<'a>,
    /// Prompt suffix value and style
    pub prompt_suffix: Styled<'a>,
    /// Prompt on success prefix value and style
    pub success_prefix: Styled<'a>,
    /// Prompt on success suffix value and style
    pub success_suffix: Styled<'a>,
    /// Error prefix value and style
    pub error_prefix: Styled<'a>,
    /// The style for error message
    pub error_style: Style,
    /// The style for hints
    pub hint_style: Style,
    /// The style for values on prompt success
    pub values_style: Style,
    /// The style for active items
    pub active_item_style: Style,
    /// The style for inactive items
    pub inactive_item_style: Style,
    /// Active item in select prefix value and style
    pub active_item_prefix: Styled<'a>,
    /// Inactive item in select prefix value and style
    pub inactive_item_prefix: Styled<'a>,
    /// Checked item in multi select prefix value and style
    pub checked_item_prefix: Styled<'a>,
    /// Unchecked item in multi select prefix value and style
    pub unchecked_item_prefix: Styled<'a>,
    /// Picked item in sort prefix value and style
    pub picked_item_prefix: Styled<'a>,
    /// Unpicked item in sort prefix value and style
    pub unpicked_item_prefix: Styled<'a>,
    /// Formats the cursor for a fuzzy select prompt
    pub fuzzy_cursor_style: Style,
    /// Show the selections from certain prompts inline
    pub inline_selections: bool,
}

/// A style for standard error with the given text colour, brightness and
/// background, and nothing else set.
pub open spec fn on_stderr(fg: Option<Color>, fg_bright: bool, bg: Option<Color>) -> Style {
    Style { fg, bg, fg_bright, bg_bright: false, bold: false, force: None, for_stderr: true }
}

/// The theme that `LabelTheme::default` makes.
pub open spec fn default_theme() -> LabelTheme<'static> {
    LabelTheme {
        defaults_style: on_stderr(Some(Color::Cyan), false, None),
        prompt_style: Style { bold: true, ..on_stderr(None, false, None) },
        prompt_prefix: Styled { text: "?", style: on_stderr(Some(Color::Yellow), false, None) },
        prompt_suffix: Styled { text: "›", style: on_stderr(Some(Color::Black), true, None) },
        success_prefix: Styled { text: "✔", style: on_stderr(Some(Color::Green), false, None) },
        success_suffix: Styled { text: "·", style: on_stderr(Some(Color::Black), true, None) },
        error_prefix: Styled { text: "✘", style: on_stderr(Some(Color::Red), false, None) },
        error_style: on_stderr(Some(Color::Red), false, None),
        hint_style: on_stderr(Some(Color::Black), true, None),
        values_style: on_stderr(Some(Color::Green), false, None),
        active_item_style: on_stderr(Some(Color::Cyan), false, None),
        inactive_item_style: on_stderr(None, false, None),
        active_item_prefix: Styled { text: "❯", style: on_stderr(Some(Color::Green), false, None) },
        inactive_item_prefix: Styled { text: " ", style: on_stderr(None, false, None) },
        checked_item_prefix: Styled { text: "✔", style: on_stderr(Some(Color::Green), false, None) },
        unchecked_item_prefix: Styled {
            text: "✔",
            style: on_stderr(Some(Color::Black), false, None),
        },
        picked_item_prefix: Styled { text: "❯", style: on_stderr(Some(Color::Green), false, None) },
        unpicked_item_prefix: Styled { text: " ", style: on_stderr(None, false, None) },
        fuzzy_cursor_style: on_stderr(Some(Color::Black), false, Some(Color::White)),
        inline_selections: true,
    }
}

impl<'a> Default for LabelTheme<'a> {
    fn default() -> (theme: Self)
        ensures
            theme == default_theme(),
    {
        let plain = Style::new().for_stderr();
        LabelTheme {
            defaults_style: plain.fg(Color::Cyan),
            prompt_style: plain.bold(),
            prompt_prefix: plain.fg(Color::Yellow).apply_to("?"),
            prompt_suffix: plain.fg(Color::Black).bright().apply_to("›"),
            success_prefix: plain.fg(Color::Green).apply_to("✔"),
            success_suffix: plain.fg(Color::Black).bright().apply_to("·"),
            error_prefix: plain.fg(Color::Red).apply_to("✘"),
            error_style: plain.fg(Color::Red),
            hint_style: plain.fg(Color::Black).bright(),
            values_style: plain.fg(Color::Green),
            active_item_style: plain.fg(Color::Cyan),
            inactive_item_style: plain,
            active_item_prefix: plain.fg(Color::Green).apply_to("❯"),
            inactive_item_prefix: plain.apply_to(" "),
            checked_item_prefix: plain.fg(Color::Green).apply_to("✔"),
            unchecked_item_prefix: plain.fg(Color::Black).apply_to("✔"),
            picked_item_prefix: plain.fg(Color::Green).apply_to("❯"),
            unpicked_item_prefix: plain.apply_to(" "),
            fuzzy_cursor_style: plain.fg(Color::Black).bg(Color::White),
            inline_selections: true,
        }
    }
}

/// The word that a confirmation is shown as.
pub open spec fn answer(yes: bool) -> Seq<char> {
    if yes {
        "yes"@
    } else {
        "no"@
    }
}

/// The first `count` of `items`, each written in `style`, with a comma and a
/// blank between one and the next.
pub open spec fn listed(style: Style, items: Seq<&str>, count: nat, env: Environment) -> Seq<
    char,
>
    decreases count,
{
    if count == 0 {
        Seq::empty()
    } else if count == 1 {
        style.rendered(items[0]@, env)
    } else {
        listed(style, items, (count - 1) as nat, env) + ", "@ + style.rendered(
            items[count - 1]@,
            env,
        )
    }
}

fn spaced(left: String, right: &str) -> (out: String)
    ensures
        out@ == left@ + " "@ + right@,
{
    let mut out = left;
    out.append(" ");
    out.append(right);
    out
}

fn answer_word(yes: bool) -> (word: &'static str)
    ensures
        word@ == answer(yes),
{
    if yes {
        "yes"
    } else {
        "no"
    }
}

impl<'a> LabelTheme<'a> {
    /// The line of `message` behind `mark` as a label of the caller's choice.
    pub open spec fn custom_line(mark: Styled, message: Seq<char>, env: Environment) -> Seq<char> {
        line(Some(mark.rendered(env)), message, env)
    }

    /// The line of `message` behind `mark`, written in its own style and then
    /// shown as a success label.
    pub open spec fn success_line(mark: Styled, message: Seq<char>, env: Environment) -> Seq<
        char,
    > {
        line(Some(emphasis(Color::Green).rendered(mark.rendered(env), env)), message, env)
    }

    /// The line that repeats an answered prompt; nothing for an empty prompt.
    pub open spec fn answered(self, prompt: Seq<char>, env: Environment) -> Seq<char> {
        if prompt.len() == 0 {
            Seq::empty()
        } else {
            Self::success_line(self.success_prefix, self.prompt_style.rendered(prompt, env), env)
        }
    }

    /// A prompt: the prompt's mark as label, the prompt in its style.
    pub open spec fn prompt(self, prompt: Seq<char>, env: Environment) -> Seq<char> {
        Self::custom_line(self.prompt_prefix, self.prompt_style.rendered(prompt, env), env)
    }

    /// An error: the error's mark as label, the message in its style.
    pub open spec fn error(self, err: Seq<char>, env: Environment) -> Seq<char> {
        Self::custom_line(self.error_prefix, self.error_style.rendered(err, env), env)
    }

    /// What follows the prompt where input is asked for: the default in
    /// brackets as a hint, if there is one, and the prompt's closing mark.
    pub open spec fn input_suffix(self, default: Option<Seq<char>>, env: Environment) -> Seq<
        char,
    > {
        match default {
            Some(value) => self.hint_style.rendered("("@ + value + ")"@, env) + " "@
                + self.prompt_suffix.rendered(env) + " "@,
            None => self.prompt_suffix.rendered(env) + " "@,
        }
    }

    /// A prompt for input.
    pub open spec fn input_prompt(
        self,
        prompt: Seq<char>,
        default: Option<Seq<char>>,
        env: Environment,
    ) -> Seq<char> {
        Self::custom_line(
            self.prompt_prefix,
            self.prompt_style.rendered(prompt, env) + " "@ + self.input_suffix(default, env),
            env,
        )
    }

    /// What follows the prompt where a confirmation is asked for: the two
    /// keys as a hint, the prompt's closing mark, and the default answer if
    /// there is one.
    pub open spec fn confirm_hint(self, default: Option<bool>, env: Environment) -> Seq<char> {
        let hint = self.hint_style.rendered("(y/n)"@, env) + " "@ + self.prompt_suffix.rendered(
            env,
        );
        match default {
            Some(yes) => hint + " "@ + self.defaults_style.rendered(answer(yes), env),
            None => hint,
        }
    }

    /// A prompt for a confirmation.
    pub open spec fn confirm_prompt(
        self,
        prompt: Seq<char>,
        default: Option<bool>,
        env: Environment,
    ) -> Seq<char> {
        Self::custom_line(
            self.prompt_prefix,
            self.prompt_style.rendered(prompt, env) + " "@ + self.confirm_hint(default, env),
            env,
        )
    }

    /// An answered confirmation: the prompt's line, the success mark, and the
    /// answer if one was given.
    pub open spec fn confirm_selection(
        self,
        prompt: Seq<char>,
        selection: Option<bool>,
        env: Environment,
    ) -> Seq<char> {
        let head = self.answered(prompt, env) + " "@ + self.success_suffix.rendered(env);
        match selection {
            Some(yes) => head + " "@ + self.values_style.rendered(answer(yes), env),
            None => head,
        }
    }

    /// An answered input: the prompt's line and, unless the answer is empty,
    /// the success mark and the answer.
    pub open spec fn input_selection(
        self,
        prompt: Seq<char>,
        sel: Seq<char>,
        env: Environment,
    ) -> Seq<char> {
        if sel.len() == 0 {
            self.answered(prompt, env)
        } else {
            self.answered(prompt, env) + " "@ + self.success_suffix.rendered(env) + " "@
                + self.values_style.rendered(sel, env)
        }
    }

    /// An answered choice of several: the prompt's line, the success mark and,
    /// where selections are shown inline, the list of what was chosen.
    pub open spec fn multi_select_selection(
        self,
        prompt: Seq<char>,
        selections: Seq<&str>,
        env: Environment,
    ) -> Seq<char> {
        let head = self.answered(prompt, env) + self.success_suffix.rendered(env) + " "@;
        if self.inline_selections {
            head + listed(self.values_style, selections, selections.len(), env)
        } else {
            head
        }
    }

    /// An item to choose from: the mark and the style of the active item for
    /// the one under the cursor, those of the inactive item for the others.
    pub open spec fn select_item(self, text: Seq<char>, active: bool, env: Environment) -> Seq<
        char,
    > {
        if active {
            Self::success_line(
                self.active_item_prefix,
                self.active_item_style.rendered(text, env),
                env,
            )
        } else {
            Self::success_line(
                self.inactive_item_prefix,
                self.inactive_item_style.rendered(text, env),
                env,
            )
        }
    }

    /// The style of an item's text: one for the item under the cursor, one
    /// for the others.
    pub open spec fn item_style(self, active: bool) -> Style {
        if active {
            self.active_item_style
        } else {
            self.inactive_item_style
        }
    }

    /// An item of a choice of several: marked as checked or not, in the style
    /// of the active item or not.
    pub open spec fn multi_select_item(
        self,
        text: Seq<char>,
        checked: bool,
        active: bool,
        env: Environment,
    ) -> Seq<char> {
        Self::success_line(
            if checked {
                self.checked_item_prefix
            } else {
                self.unchecked_item_prefix
            },
            self.item_style(active).rendered(text, env),
            env,
        )
    }

    /// An item to be sorted: marked as picked only where it is picked and
    /// under the cursor, in the style of the active item or not.
    pub open spec fn sort_item(
        self,
        text: Seq<char>,
        picked: bool,
        active: bool,
        env: Environment,
    ) -> Seq<char> {
        Self::success_line(
            if picked && active {
                self.picked_item_prefix
            } else {
                self.unpicked_item_prefix
            },
            self.item_style(active).rendered(text, env),
            env,
        )
    }

    /// A prompt with a search term: the prompt's line, the prompt's closing
    /// mark, and the term with the character at `cursor_pos` in the cursor's
    /// style, or with a blank in that style behind it where the cursor stands
    /// past its end.
    pub open spec fn fuzzy_select_prompt(
        self,
        prompt: Seq<char>,
        search_term: Seq<char>,
        cursor_pos: usize,
        env: Environment,
    ) -> Seq<char> {
        let head = self.answered(prompt, env) + " "@ + self.prompt_suffix.rendered(env) + " "@;
        if cursor_pos < search_term.len() {
            head + search_term.subrange(0, cursor_pos as int) + self.fuzzy_cursor_style.rendered(
                search_term.subrange(cursor_pos as int, cursor_pos + 1),
                env,
            ) + search_term.subrange(cursor_pos + 1, search_term.len() as int)
        } else {
            head + search_term + self.fuzzy_cursor_style.rendered(" "@, env)
        }
    }

    fn write_custom(mark: &Styled, message: &str, env: &Environment) -> (out: String)
        ensures
            out@ == Self::custom_line(*mark, message@, *env),
    {
        pretty_output(OutputLabel::Custom(*mark), message, env)
    }

    fn write_success(mark: &Styled, message: &str, env: &Environment) -> (out: String)
        ensures
            out@ == Self::success_line(*mark, message@, *env),
    {
        let label = mark.render(env);
        pretty_output(OutputLabel::Success(label.as_str()), message, env)
    }

    fn write_answered(&self, prompt: &str, env: &Environment) -> (out: String)
        ensures
            out@ == self.answered(prompt@, *env),
    {
        if prompt.is_empty() {
            String::new()
        } else {
            let message = self.prompt_style.render(prompt, env);
            Self::write_success(&self.success_prefix, message.as_str(), env)
        }
    }

    /// Formats a prompt.
    pub fn format_prompt(&self, prompt: &str, env: &Environment) -> (out: String)
        ensures
            out@ == self.prompt(prompt@, *env),
    {
        let message = self.prompt_style.render(prompt, env);
        Self::write_custom(&self.prompt_prefix, message.as_str(), env)
    }

    /// Formats an error.
    pub fn format_error(&self, err: &str, env: &Environment) -> (out: String)
        ensures
            out@ == self.error(err@, *env),
    {
        let message = self.error_style.render(err, env);
        Self::write_custom(&self.error_prefix, message.as_str(), env)
    }

    /// Formats an input prompt.
    pub fn format_input_prompt(&self, prompt: &str, default: Option<&str>, env: &Environment) -> (out:
        String)
        ensures
            out@ == self.input_prompt(
                prompt@,
                match default {
                    Some(value) => Some(value@),
                    None => None,
                },
                *env,
            ),
    {
        let closing = self.prompt_suffix.render(env);
        let suffix = match default {
            Some(value) => {
                let mut bracketed = String::from_str("(");
                bracketed.append(value);
                bracketed.append(")");
                let hint = self.hint_style.render(bracketed.as_str(), env);
                let mut suffix = spaced(hint, closing.as_str());
                suffix.append(" ");
                suffix
            },
            None => {
                let mut suffix = closing;
                suffix.append(" ");
                suffix
            },
        };
        let message = spaced(self.prompt_style.render(prompt, env), suffix.as_str());
        Self::write_custom(&self.prompt_prefix, message.as_str(), env)
    }

    /// Formats a confirm prompt.
    pub fn format_confirm_prompt(&self, prompt: &str, default: Option<bool>, env: &Environment) -> (out:
        String)
        ensures
            out@ == self.confirm_prompt(prompt@, default, *env),
    {
        let closing = self.prompt_suffix.render(env);
        let hint = spaced(self.hint_style.render("(y/n)", env), closing.as_str());
        let hint = match default {
            Some(yes) => {
                let word = self.defaults_style.render(answer_word(yes), env);
                spaced(hint, word.as_str())
            },
            None => hint,
        };
        let message = spaced(self.prompt_style.render(prompt, env), hint.as_str());
        Self::write_custom(&self.prompt_prefix, message.as_str(), env)
    }

    /// Formats a confirm prompt after selection.
    pub fn format_confirm_prompt_selection(
        &self,
        prompt: &str,
        selection: Option<bool>,
        env: &Environment,
    ) -> (out: String)
        ensures
            out@ == self.confirm_selection(prompt@, selection, *env),
    {
        let mark = self.success_suffix.render(env);
        let head = spaced(self.write_answered(prompt, env), mark.as_str());
        match selection {
            Some(yes) => {
                let word = self.values_style.render(answer_word(yes), env);
                spaced(head, word.as_str())
            },
            None => head,
        }
    }

    /// Formats an input prompt after selection.
    pub fn format_input_prompt_selection(&self, prompt: &str, sel: &str, env: &Environment) -> (out:
        String)
        ensures
            out@ == self.input_selection(prompt@, sel@, *env),
    {
        let head = self.write_answered(prompt, env);
        if sel.is_empty() {
            head
        } else {
            let mark = self.success_suffix.render(env);
            let value = self.values_style.render(sel, env);
            spaced(spaced(head, mark.as_str()), value.as_str())
        }
    }

    /// Formats a password prompt after selection.
    pub fn format_password_prompt_selection(&self, prompt: &str, env: &Environment) -> (out: String)
        ensures
            out@ == self.input_selection(prompt@, "********"@, *env),
    {
        proof {
            reveal_strlit("********");
        }
        self.format_input_prompt_selection(prompt, "********", env)
    }

    /// Formats a multi select prompt after selection.
    pub fn format_multi_select_prompt_selection(
        &self,
        prompt: &str,
        selections: &[&str],
        env: &Environment,
    ) -> (out: String)
        ensures
            out@ == self.multi_select_selection(prompt@, selections@, *env),
    {
        let mut out = self.write_answered(prompt, env);
        let mark = self.success_suffix.render(env);
        out.append(mark.as_str());
        out.append(" ");
        if self.inline_selections {
            let ghost head = out@;
            let mut idx: usize = 0;
            while idx < selections.len()
                invariant
                    idx <= selections@.len(),
                    out@ == head + listed(self.values_style, selections@, idx as nat, *env),
                decreases selections@.len() - idx,
            {
                let value = self.values_style.render(selections[idx], env);
                if idx != 0 {
                    out.append(", ");
                }
                out.append(value.as_str());
                idx = idx + 1;
                assert(out@ =~= head + listed(self.values_style, selections@, idx as nat, *env));
            }
        }
        out
    }

    /// Formats a select prompt item.
    pub fn format_select_prompt_item(&self, text: &str, active: bool, env: &Environment) -> (out:
        String)
        ensures
            out@ == self.select_item(text@, active, *env),
    {
        if active {
            let item = self.active_item_style.render(text, env);
            Self::write_success(&self.active_item_prefix, item.as_str(), env)
        } else {
            let item = self.inactive_item_style.render(text, env);
            Self::write_success(&self.inactive_item_prefix, item.as_str(), env)
        }
    }

    /// Formats a multi select prompt item.
    pub fn format_multi_select_prompt_item(
        &self,
        text: &str,
        checked: bool,
        active: bool,
        env: &Environment,
    ) -> (out: String)
        ensures
            out@ == self.multi_select_item(text@, checked, active, *env),
    {
        let item = if active {
            self.active_item_style.render(text, env)
        } else {
            self.inactive_item_style.render(text, env)
        };
        if checked {
            Self::write_success(&self.checked_item_prefix, item.as_str(), env)
        } else {
            Self::write_success(&self.unchecked_item_prefix, item.as_str(), env)
        }
    }

    /// Formats a sort prompt item.
    pub fn format_sort_prompt_item(
        &self,
        text: &str,
        picked: bool,
        active: bool,
        env: &Environment,
    ) -> (out: String)
        ensures
            out@ == self.sort_item(text@, picked, active, *env),
    {
        if active {
            let item = self.active_item_style.render(text, env);
            if picked {
                Self::write_success(&self.picked_item_prefix, item.as_str(), env)
            } else {
                Self::write_success(&self.unpicked_item_prefix, item.as_str(), env)
            }
        } else {
            let item = self.inactive_item_style.render(text, env);
            Self::write_success(&self.unpicked_item_prefix, item.as_str(), env)
        }
    }

    /// Formats a fuzzy select prompt.
    pub fn format_fuzzy_select_prompt(
        &self,
        prompt: &str,
        search_term: &str,
        cursor_pos: usize,
        env: &Environment,
    ) -> (out: String)
        ensures
            out@ == self.fuzzy_select_prompt(prompt@, search_term@, cursor_pos, *env),
    {
        let closing = self.prompt_suffix.render(env);
        let mut out = spaced(self.write_answered(prompt, env), closing.as_str());
        out.append(" ");
        let len = search_term.unicode_len();
        if cursor_pos < len {
            let cursor = self.fuzzy_cursor_style.render(
                search_term.substring_char(cursor_pos, cursor_pos + 1),
                env,
            );
            out.append(search_term.substring_char(0, cursor_pos));
            out.append(cursor.as_str());
            out.append(search_term.substring_char(cursor_pos + 1, len));
        } else {
            let cursor = self.fuzzy_cursor_style.render(" ", env);
            out.append(search_term);
            out.append(cursor.as_str());
        }
        out
    }
}

} // verus!
