//! How many terminal columns a text occupies, and padding to a column count.

use vstd::prelude::*;

verus! {

/// The number of columns that `console::measure_text_width` reports for a
/// text: escape sequences count nothing, wide characters count double.
pub uninterp spec fn measured_width(text: Seq<char>) -> nat;

/// The display width of a text: no columns for the empty text, otherwise
/// what the terminal measure reports.
pub open spec fn display_width(text: Seq<char>) -> nat {
    if text.len() == 0 {
        0
    } else {
        measured_width(text)
    }
}

/// A run of `count` blanks.
pub open spec fn blanks(count: nat) -> Seq<char> {
    Seq::new(count, |i: int| ' ')
}

/// A text moved to the right edge of a field of `width` columns. A text that
/// already fills the field, or overflows it, is left as it is.
pub open spec fn right_aligned(text: Seq<char>, width: nat) -> Seq<char> {
    if display_width(text) >= width {
        text
    } else {
        blanks((width - display_width(text)) as nat) + text
    }
}

/// Calls `console::measure_text_width`. Trusted: the result is the measure's
/// value for this text, and the empty text measures zero columns.
#[verifier::external_body]
pub(crate) fn measure(text: &str) -> (columns: usize)
    ensures
        columns == measured_width(text@),
        text@.len() == 0 ==> columns == 0,
{
    console::measure_text_width(text)
}

/// Calls `console::pad_str` with right alignment and no truncation. Trusted:
/// a text narrower than `width` columns, by the same measure, gets the missing
/// columns as blanks in front; any other text comes back unchanged.
#[verifier::external_body]
pub(crate) fn pad_right(text: &str, width: usize) -> (padded: String)
    ensures
        padded@ == right_aligned(text@, width as nat),
{
    console::pad_str(text, width, console::Alignment::Right, None).into_owned()
}

/// The display width of `text`.
pub fn text_width(text: &str) -> (columns: usize)
    ensures
        columns == display_width(text@),
{
    measure(text)
}

} // verus!
