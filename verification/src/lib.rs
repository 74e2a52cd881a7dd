//! Labelled, width-aware log lines for the terminal.
//!
//! A line is a short label, right-aligned in a fixed field, followed by a
//! message that is cut to what is left of the terminal's width. When output
//! is piped the layout is dropped and only label and message remain.

pub mod log;
pub mod shorten;
pub mod style;
pub mod terminal;
pub mod theme;
pub mod width;

pub use crate::log::{pretty_output, OutputLabel, Stream, LABEL_WIDTH};
pub use crate::shorten::shorten;
pub use crate::style::{Color, Style, Styled};
pub use crate::terminal::{Environment, EnvironmentError, OutputMode};
pub use crate::theme::LabelTheme;
pub use crate::width::text_width;
