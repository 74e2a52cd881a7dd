//! Labelled log lines.

use vstd::prelude::*;
use vstd::string::*;
use crate::shorten::{
    lemma_shortened_fills_budget, lemma_shortened_fits, one_column_each, shorten, shortened,
};
use crate::style::{Color, Style, Styled};
use crate::terminal::{Environment, OutputMode};
use crate::width::{blanks, display_width, pad_right, right_aligned};

verus! {

/// The width of the field that holds a line's label, in columns.
pub const LABEL_WIDTH: usize = 12;

/// The label in front of a message.
#[derive(Clone, Copy, Debug)]
pub enum OutputLabel<'a> {
    /// A label in bold red; its line goes to standard error.
    Error(&'a str),
    /// A label in bold yellow.
    Warning(&'a str),
    /// A label in bold cyan.
    Info(&'a str),
    /// A label in bold green.
    Success(&'a str),
    /// A label in a style of the caller's choice.
    Custom(Styled<'a>),
    /// No label: the field stays blank.
    Blank,
}

/// The stream that a line is written to.
#[derive(Clone, Copy, Debug, PartialEq, Eq)]
pub enum Stream {
    Stdout,
    Stderr,
}

/// The style of the four labels that have one of their own: bold, in `color`.
pub open spec fn emphasis(color: Color) -> Style {
    Style {
        fg: Some(color),
        bg: None,
        fg_bright: false,
        bg_bright: false,
        bold: true,
        force: None,
        for_stderr: false,
    }
}

/// The columns left for the message on a terminal of `width` columns: what
/// the label's field and one blank leave, and none on a narrower terminal.
pub open spec fn message_budget(width: u32) -> nat {
    if width > LABEL_WIDTH + 1 {
        (width - LABEL_WIDTH - 1) as nat
    } else {
        0
    }
}

/// What stands in the label's field: the label's text, or nothing.
pub open spec fn field_text(label: Option<Seq<char>>) -> Seq<char> {
    match label {
        Some(text) => text,
        None => Seq::empty(),
    }
}

/// The line for a label's text and a message in `env`. On a terminal: the
/// label at the right edge of its field, a blank, and the message cut to the
/// columns that are left. Piped: label, a blank and the message as they are,
/// or a tab and the message where there is no label.
pub open spec fn line(label: Option<Seq<char>>, message: Seq<char>, env: Environment) -> Seq<
    char,
> {
    match env.mode {
        OutputMode::Interactive { width } => right_aligned(field_text(label), LABEL_WIDTH as nat)
            + seq![' '] + shortened(message, message_budget(width)),
        OutputMode::Piped => match label {
            Some(text) => text + seq![' '] + message,
            None => seq!['\t'] + message,
        },
    }
}

impl<'a> OutputLabel<'a> {
    /// The label's text as it is written in `env`, styling included; the
    /// blank label has none.
    pub open spec fn text(self, env: Environment) -> Option<Seq<char>> {
        match self {
            OutputLabel::Error(label) => Some(emphasis(Color::Red).rendered(label@, env)),
            OutputLabel::Warning(label) => Some(emphasis(Color::Yellow).rendered(label@, env)),
            OutputLabel::Info(label) => Some(emphasis(Color::Cyan).rendered(label@, env)),
            OutputLabel::Success(label) => Some(emphasis(Color::Green).rendered(label@, env)),
            OutputLabel::Custom(label) => Some(label.rendered(env)),
            OutputLabel::Blank => None,
        }
    }

    /// Writes the label in its style, as `env` allows; nothing for the
    /// blank label.
    pub fn render(&self, env: &Environment) -> (out: String)
        ensures
            out@ == field_text(self.text(*env)),
    {
        match self {
            OutputLabel::Error(label) => bold(Color::Red).render(label, env),
            OutputLabel::Warning(label) => bold(Color::Yellow).render(label, env),
            OutputLabel::Info(label) => bold(Color::Cyan).render(label, env),
            OutputLabel::Success(label) => bold(Color::Green).render(label, env),
            OutputLabel::Custom(label) => label.render(env),
            OutputLabel::Blank => String::new(),
        }
    }

    /// The stream for a line with this label: standard error for an error,
    /// standard output for every other.
    pub fn stream(&self) -> (stream: Stream)
        ensures
            stream is Stderr <==> self is Error,
    {
        match self {
            OutputLabel::Error(_) => Stream::Stderr,
            _ => Stream::Stdout,
        }
    }
}

fn bold(color: Color) -> (style: Style)
    ensures
        style == emphasis(color),
{
    Style {
        fg: Some(color),
        bg: None,
        fg_bright: false,
        bg_bright: false,
        bold: true,
        force: None,
        for_stderr: false,
    }
}

/// The line for `label` and `message` in `env`.
pub open spec fn pretty_line(label: OutputLabel, message: Seq<char>, env: Environment) -> Seq<
    char,
> {
    line(label.text(env), message, env)
}

/// Piped output is neither padded nor cut: a line without a label is a tab
/// and the message, every other line is the label's text, exactly one blank
/// and the message unchanged.
pub proof fn lemma_piped_line(label: OutputLabel, message: Seq<char>, env: Environment)
    requires
        env.mode is Piped,
    ensures
        label is Blank ==> pretty_line(label, message, env) == seq!['\t'] + message,
        !(label is Blank) ==> pretty_line(label, message, env) == label.text(env)->0 + seq![' ']
            + message,
{
}

/// On a terminal with room for the label's field, a blank and one column
/// more, a label that fits its field stands at the field's right edge: the
/// line is the blanks that the label leaves of the field, the label, one
/// blank, and the message shortened to the rest of the terminal's width,
/// which it never exceeds.
pub proof fn lemma_interactive_line_layout(
    label: OutputLabel,
    message: Seq<char>,
    env: Environment,
    width: u32,
)
    requires
        env.mode == (OutputMode::Interactive { width }),
        width >= LABEL_WIDTH + 2,
        display_width(field_text(label.text(env))) <= LABEL_WIDTH,
    ensures
        pretty_line(label, message, env) == blanks(
            (LABEL_WIDTH - display_width(field_text(label.text(env)))) as nat,
        ) + field_text(label.text(env)) + seq![' '] + shortened(
            message,
            (width - LABEL_WIDTH - 1) as nat,
        ),
        display_width(shortened(message, (width - LABEL_WIDTH - 1) as nat)) <= width
            - LABEL_WIDTH - 1,
{
    lemma_shortened_fits(message, (width - LABEL_WIDTH - 1) as nat);
    let text = field_text(label.text(env));
    if display_width(text) == LABEL_WIDTH {
        assert(blanks(0) + text =~= text);
    }
}

/// On a terminal with room for the label's field, a blank and one column
/// more, the line of a message that fills its budget is exactly as wide as
/// the terminal. This holds where the terminal's measure counts the line as
/// the layout does: the label's field takes its `LABEL_WIDTH` columns, the
/// message is measured by counting, and the columns of field, blank and
/// message add up. It fails for a label wider than its field, and for a
/// message of double-width characters, which may be cut one column short.
pub proof fn lemma_interactive_line_fills_terminal(
    label: OutputLabel,
    message: Seq<char>,
    env: Environment,
    width: u32,
)
    requires
        env.mode == (OutputMode::Interactive { width }),
        width >= LABEL_WIDTH + 2,
        display_width(message) >= width - LABEL_WIDTH - 1,
        display_width(right_aligned(field_text(label.text(env)), LABEL_WIDTH as nat))
            == LABEL_WIDTH,
        one_column_each(message),
        display_width(pretty_line(label, message, env)) == display_width(
            right_aligned(field_text(label.text(env)), LABEL_WIDTH as nat),
        ) + 1 + display_width(shortened(message, message_budget(width))),
    ensures
        display_width(pretty_line(label, message, env)) == width,
{
    lemma_shortened_fills_budget(message, message_budget(width));
}

/// Formats `message` behind `out_label` for the output that `env` describes.
pub fn pretty_output(out_label: OutputLabel, message: &str, env: &Environment) -> (line: String)
    ensures
        line@ == pretty_line(out_label, message@, *env),
{
    let label = out_label.render(env);
    proof {
        reveal_strlit(" ");
        reveal_strlit("\t");
    }
    match env.mode {
        OutputMode::Interactive { width } => {
            let budget: u32 = if width > 13 {
                width - 13
            } else {
                0
            };
            let short = shorten(message, budget);
            let mut line = pad_right(label.as_str(), LABEL_WIDTH);
            line.append(" ");
            line.append(short.as_str());
            assert(line@ =~= pretty_line(out_label, message@, *env));
            line
        },
        OutputMode::Piped => {
            let mut line = match out_label {
                OutputLabel::Blank => String::from_str("\t"),
                _ => {
                    let mut line = label;
                    line.append(" ");
                    line
                },
            };
            line.append(message);
            assert(line@ =~= pretty_line(out_label, message@, *env));
            line
        },
    }
}

} // verus!
