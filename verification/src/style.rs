//! Colours and emphasis for terminal text.

use vstd::prelude::*;
use vstd::string::*;
use crate::terminal::Environment;

verus! {

/// One of the eight basic terminal colours.
#[derive(Clone, Copy, Debug, PartialEq, Eq)]
pub enum Color {
    Black,
    Red,
    Green,
    Yellow,
    Blue,
    Magenta,
    Cyan,
    White,
}

/// How a text is to be shown: its colours and its weight.
#[derive(Clone, Copy, Debug, PartialEq, Eq)]
pub struct Style {
    /// The colour of the text.
    pub fg: Option<Color>,
    /// The colour behind the text.
    pub bg: Option<Color>,
    /// Whether the text takes the bright variant of its colour.
    pub fg_bright: bool,
    /// Whether the background takes the bright variant of its colour.
    pub bg_bright: bool,
    /// Whether the text is bold.
    pub bold: bool,
    /// Styling switched on or off whatever the environment says.
    pub force: Option<bool>,
    /// Whether the text is meant for standard error.
    pub for_stderr: bool,
}

/// A text together with the style to show it in.
#[derive(Clone, Copy, Debug)]
pub struct Styled<'a> {
    /// The bare text.
    pub text: &'a str,
    /// Its style.
    pub style: Style,
}

/// The text that `console` writes for `text` in the style that the dotted
/// description `terms` stands for, with styling switched on.
pub uninterp spec fn styled_text(terms: Seq<char>, text: Seq<char>) -> Seq<char>;

/// Calls `console::Style::from_dotted_str`, switches styling on and formats
/// `text` in that style. Trusted: the result is determined by the description
/// and the text alone.
#[verifier::external_body]
fn paint(terms: &str, text: &str) -> (painted: String)
    ensures
        painted@ == styled_text(terms@, text@),
{
    console::Style::from_dotted_str(terms).force_styling(true).apply_to(text).to_string()
}

/// The word for a text colour in a dotted description.
pub open spec fn color_term(color: Color) -> Seq<char> {
    match color {
        Color::Black => "black"@,
        Color::Red => "red"@,
        Color::Green => "green"@,
        Color::Yellow => "yellow"@,
        Color::Blue => "blue"@,
        Color::Magenta => "magenta"@,
        Color::Cyan => "cyan"@,
        Color::White => "white"@,
    }
}

/// The word for a background colour in a dotted description.
pub open spec fn on_color_term(color: Color) -> Seq<char> {
    match color {
        Color::Black => "on_black"@,
        Color::Red => "on_red"@,
        Color::Green => "on_green"@,
        Color::Yellow => "on_yellow"@,
        Color::Blue => "on_blue"@,
        Color::Magenta => "on_magenta"@,
        Color::Cyan => "on_cyan"@,
        Color::White => "on_white"@,
    }
}

/// A dotted description with one more word at its end.
pub open spec fn with_term(terms: Seq<char>, term: Seq<char>) -> Seq<char> {
    if terms.len() == 0 {
        term
    } else {
        terms + seq!['.'] + term
    }
}

fn color_word(color: Color) -> (word: &'static str)
    ensures
        word@ == color_term(color),
{
    match color {
        Color::Black => "black",
        Color::Red => "red",
        Color::Green => "green",
        Color::Yellow => "yellow",
        Color::Blue => "blue",
        Color::Magenta => "magenta",
        Color::Cyan => "cyan",
        Color::White => "white",
    }
}

fn on_color_word(color: Color) -> (word: &'static str)
    ensures
        word@ == on_color_term(color),
{
    match color {
        Color::Black => "on_black",
        Color::Red => "on_red",
        Color::Green => "on_green",
        Color::Yellow => "on_yellow",
        Color::Blue => "on_blue",
        Color::Magenta => "on_magenta",
        Color::Cyan => "on_cyan",
        Color::White => "on_white",
    }
}

fn push_term(terms: &mut String, term: &str)
    ensures
        final(terms)@ == with_term(old(terms)@, term@),
{
    if !terms.as_str().is_empty() {
        terms.append(".");
        proof {
            reveal_strlit(".");
        }
        assert(terms@ =~= old(terms)@ + seq!['.']);
    }
    terms.append(term);
}

impl Style {
    /// The dotted description of this style: the words for what is set, in
    /// the order text colour, brightness, background, its brightness, weight.
    pub open spec fn dotted(self) -> Seq<char> {
        let fg = match self.fg {
            Some(color) => color_term(color),
            None => Seq::empty(),
        };
        let fg_bright = if self.fg_bright {
            with_term(fg, "bright"@)
        } else {
            fg
        };
        let bg = match self.bg {
            Some(color) => with_term(fg_bright, on_color_term(color)),
            None => fg_bright,
        };
        let bg_bright = if self.bg_bright {
            with_term(bg, "on_bright"@)
        } else {
            bg
        };
        if self.bold {
            with_term(bg_bright, "bold"@)
        } else {
            bg_bright
        }
    }

    /// Whether this style changes nothing of how a text is shown.
    pub open spec fn is_plain(self) -> bool {
        self.fg is None && self.bg is None && !self.bold
    }

    /// Whether this style is applied in `env`: as it was forced, or else as
    /// the stream that it is meant for takes colours.
    pub open spec fn enabled(self, env: Environment) -> bool {
        match self.force {
            Some(forced) => forced,
            None => if self.for_stderr {
                env.colors_stderr
            } else {
                env.colors
            },
        }
    }

    /// What `text` becomes when written in this style in `env`: the styled
    /// text where the style is applied and sets anything, else the bare text.
    pub open spec fn rendered(self, text: Seq<char>, env: Environment) -> Seq<char> {
        if self.enabled(env) && !self.is_plain() {
            styled_text(self.dotted(), text)
        } else {
            text
        }
    }

    /// The style that sets nothing.
    pub fn new() -> (style: Style)
        ensures
            style == (Style {
                fg: None,
                bg: None,
                fg_bright: false,
                bg_bright: false,
                bold: false,
                force: None,
                for_stderr: false,
            }),
    {
        Style {
            fg: None,
            bg: None,
            fg_bright: false,
            bg_bright: false,
            bold: false,
            force: None,
            for_stderr: false,
        }
    }

    /// This style, meant for standard error.
    pub fn for_stderr(self) -> (style: Style)
        ensures
            style == (Style { for_stderr: true, ..self }),
    {
        Style { for_stderr: true, ..self }
    }

    /// This style, switched on or off whatever the environment says.
    pub fn force_styling(self, value: bool) -> (style: Style)
        ensures
            style == (Style { force: Some(value), ..self }),
    {
        Style { force: Some(value), ..self }
    }

    /// This style with the text in `color`.
    pub fn fg(self, color: Color) -> (style: Style)
        ensures
            style == (Style { fg: Some(color), ..self }),
    {
        Style { fg: Some(color), ..self }
    }

    /// This style with `color` behind the text.
    pub fn bg(self, color: Color) -> (style: Style)
        ensures
            style == (Style { bg: Some(color), ..self }),
    {
        Style { bg: Some(color), ..self }
    }

    /// This style with the text colour's bright variant.
    pub fn bright(self) -> (style: Style)
        ensures
            style == (Style { fg_bright: true, ..self }),
    {
        Style { fg_bright: true, ..self }
    }

    /// This style with the background colour's bright variant.
    pub fn on_bright(self) -> (style: Style)
        ensures
            style == (Style { bg_bright: true, ..self }),
    {
        Style { bg_bright: true, ..self }
    }

    /// This style in bold.
    pub fn bold(self) -> (style: Style)
        ensures
            style == (Style { bold: true, ..self }),
    {
        Style { bold: true, ..self }
    }

    /// `text` in this style.
    pub fn apply_to<'a>(self, text: &'a str) -> (styled: Styled<'a>)
        ensures
            styled == (Styled { text, style: self }),
    {
        Styled { text, style: self }
    }

    /// The dotted description of this style.
    pub fn to_dotted(&self) -> (terms: String)
        ensures
            terms@ == self.dotted(),
    {
        let mut terms = String::new();
        if let Some(color) = self.fg {
            push_term(&mut terms, color_word(color));
        }
        if self.fg_bright {
            push_term(&mut terms, "bright");
        }
        if let Some(color) = self.bg {
            push_term(&mut terms, on_color_word(color));
        }
        if self.bg_bright {
            push_term(&mut terms, "on_bright");
        }
        if self.bold {
            push_term(&mut terms, "bold");
        }
        terms
    }

    /// Whether this style is applied in `env`.
    pub fn is_enabled(&self, env: &Environment) -> (on: bool)
        ensures
            on == self.enabled(*env),
    {
        match self.force {
            Some(forced) => forced,
            None => if self.for_stderr {
                env.colors_stderr
            } else {
                env.colors
            },
        }
    }

    /// Writes `text` in this style, as `env` allows.
    pub fn render(&self, text: &str, env: &Environment) -> (out: String)
        ensures
            out@ == self.rendered(text@, *env),
    {
        let plain = self.fg.is_none() && self.bg.is_none() && !self.bold;
        if self.is_enabled(env) && !plain {
            let terms = self.to_dotted();
            paint(terms.as_str(), text)
        } else {
            String::from_str(text)
        }
    }
}

impl<'a> Styled<'a> {
    /// What this text becomes when written in its style in `env`.
    pub open spec fn rendered(self, env: Environment) -> Seq<char> {
        self.style.rendered(self.text@, env)
    }

    /// Writes the text in its style, as `env` allows.
    pub fn render(&self, env: &Environment) -> (out: String)
        ensures
            out@ == self.rendered(*env),
    {
        self.style.render(self.text, env)
    }
}

} // verus!
