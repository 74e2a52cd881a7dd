//! What is known of the terminal that a line is written to.

use vstd::prelude::*;

verus! {

/// Where standard output goes.
#[derive(Clone, Copy, Debug, PartialEq, Eq)]
pub enum OutputMode {
    /// Output is piped or redirected: lines are neither padded nor cut.
    Piped,
    /// Output is a terminal that is `width` columns wide.
    Interactive { width: u32 },
}

/// The state of the process's output streams, as probed by the caller.
#[derive(Clone, Copy, Debug, PartialEq, Eq)]
pub struct Environment {
    /// Where standard output goes.
    pub mode: OutputMode,
    /// Whether text for standard output is coloured.
    pub colors: bool,
    /// Whether text for standard error is coloured.
    pub colors_stderr: bool,
}

/// Why no environment could be made of what was probed.
#[derive(Clone, Copy, Debug, PartialEq, Eq)]
pub enum EnvironmentError {
    /// Standard output is a terminal, but its width could not be determined.
    WidthUnavailable,
}

impl Environment {
    /// Makes the environment of the answers of the probes: whether standard
    /// output is a terminal, its width if that could be determined, and
    /// whether either stream takes colours. A terminal without a known width
    /// is refused, since no line can be laid out for it; the width of piped
    /// output is not looked at.
    pub fn resolve(
        interactive: bool,
        width: Option<u32>,
        colors: bool,
        colors_stderr: bool,
    ) -> (env: Result<Environment, EnvironmentError>)
        ensures
            !interactive ==> env == Ok::<Environment, EnvironmentError>(
                (Environment { mode: OutputMode::Piped, colors, colors_stderr }),
            ),
            interactive && width is Some ==> env == Ok::<Environment, EnvironmentError>(
                (Environment {
                    mode: OutputMode::Interactive { width: width->0 },
                    colors,
                    colors_stderr,
                }),
            ),
            interactive && width is None ==> env == Err::<Environment, EnvironmentError>(
                EnvironmentError::WidthUnavailable,
            ),
    {
        if !interactive {
            return Ok(Environment { mode: OutputMode::Piped, colors, colors_stderr });
        }
        match width {
            Some(width) => Ok(
                Environment { mode: OutputMode::Interactive { width }, colors, colors_stderr },
            ),
            None => Err(EnvironmentError::WidthUnavailable),
        }
    }

    /// Whether standard output is a terminal.
    pub fn is_interactive(&self) -> (interactive: bool)
        ensures
            interactive == (self.mode is Interactive),
    {
        match self.mode {
            OutputMode::Interactive { .. } => true,
            OutputMode::Piped => false,
        }
    }

    /// The terminal's width in columns, if standard output is a terminal.
    pub fn current_width(&self) -> (width: Option<u32>)
        ensures
            width == match self.mode {
                OutputMode::Interactive { width } => Some(width),
                OutputMode::Piped => None::<u32>,
            },
    {
        match self.mode {
            OutputMode::Interactive { width } => Some(width),
            OutputMode::Piped => None,
        }
    }
}

} // verus!
