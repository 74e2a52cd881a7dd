//! Cutting a message to a column budget.

use vstd::prelude::*;
use vstd::string::*;
use crate::width::{display_width, measure};

verus! {

/// The character that ends a message that was cut.
pub const MARKER: char = '…';

/// The first `kept` characters of `text`, followed by the marker.
pub open spec fn marked_prefix(text: Seq<char>, kept: nat) -> Seq<char> {
    text.take(kept as int).push(MARKER)
}

/// Whether the first `kept` characters of `text`, with the marker behind
/// them, fit into `max_width` columns.
pub open spec fn prefix_fits(text: Seq<char>, kept: nat, max_width: nat) -> bool {
    display_width(marked_prefix(text, kept)) <= max_width
}

/// The longest marked prefix of `text` that keeps at most `limit` characters
/// and fits into `max_width` columns; the empty text where not even the bare
/// marker fits.
pub open spec fn cut(text: Seq<char>, max_width: nat, limit: nat) -> Seq<char>
    decreases limit,
{
    if prefix_fits(text, limit, max_width) {
        marked_prefix(text, limit)
    } else if limit == 0 {
        Seq::empty()
    } else {
        cut(text, max_width, (limit - 1) as nat)
    }
}

/// What `shorten` returns: the text itself where it fits into `max_width`
/// columns, otherwise its longest proper prefix that, with the marker behind
/// it, still fits.
pub open spec fn shortened(text: Seq<char>, max_width: nat) -> Seq<char> {
    if display_width(text) <= max_width {
        text
    } else {
        cut(text, max_width, (text.len() - 1) as nat)
    }
}

/// A cut is the empty text or a marked prefix that fits, and no longer marked
/// prefix within the limit fits.
pub proof fn lemma_cut_is_longest_fit(text: Seq<char>, max_width: nat, limit: nat)
    ensures
        (forall|kept: nat| kept <= limit ==> !prefix_fits(text, kept, max_width)) ==> cut(
            text,
            max_width,
            limit,
        ) == Seq::<char>::empty(),
        (exists|kept: nat| kept <= limit && prefix_fits(text, kept, max_width)) ==> exists|
            kept: nat,
        |
            {
                &&& kept <= limit
                &&& prefix_fits(text, kept, max_width)
                &&& cut(text, max_width, limit) == marked_prefix(text, kept)
                &&& forall|longer: nat|
                    kept < longer <= limit ==> !prefix_fits(text, longer, max_width)
            },
    decreases limit,
{
    if prefix_fits(text, limit, max_width) {
        assert(cut(text, max_width, limit) == marked_prefix(text, limit));
    } else if limit == 0 {
    } else {
        let below = (limit - 1) as nat;
        lemma_cut_is_longest_fit(text, max_width, below);
        if exists|kept: nat| kept <= limit && prefix_fits(text, kept, max_width) {
            let witness = choose|kept: nat| kept <= limit && prefix_fits(text, kept, max_width);
            assert(witness <= below && prefix_fits(text, witness, max_width));
            let best = choose|kept: nat|
                {
                    &&& kept <= below
                    &&& prefix_fits(text, kept, max_width)
                    &&& cut(text, max_width, below) == marked_prefix(text, kept)
                    &&& forall|longer: nat|
                        kept < longer <= below ==> !prefix_fits(text, longer, max_width)
                };
            assert(best <= limit && prefix_fits(text, best, max_width) && cut(
                text,
                max_width,
                limit,
            ) == marked_prefix(text, best) && forall|longer: nat|
                best < longer <= limit ==> !prefix_fits(text, longer, max_width));
        }
    }
}

/// A cut never occupies more than `max_width` columns.
pub proof fn lemma_cut_fits(text: Seq<char>, max_width: nat, limit: nat)
    ensures
        display_width(cut(text, max_width, limit)) <= max_width,
    decreases limit,
{
    if !prefix_fits(text, limit, max_width) && limit > 0 {
        lemma_cut_fits(text, max_width, (limit - 1) as nat);
    }
}

/// A shortened text never occupies more than `max_width` columns.
pub proof fn lemma_shortened_fits(text: Seq<char>, max_width: nat)
    ensures
        display_width(shortened(text, max_width)) <= max_width,
{
    if display_width(text) > max_width {
        lemma_cut_fits(text, max_width, (text.len() - 1) as nat);
    }
}

/// A text that fits into `max_width` columns is not changed by shortening.
pub proof fn lemma_shortened_keeps_fitting_text(text: Seq<char>, max_width: nat)
    requires
        display_width(text) <= max_width,
    ensures
        shortened(text, max_width) == text,
{
}

/// Shortening twice to the same width gives what shortening once gives.
pub proof fn lemma_shortened_idempotent(text: Seq<char>, max_width: nat)
    ensures
        shortened(shortened(text, max_width), max_width) == shortened(text, max_width),
{
    lemma_shortened_fits(text, max_width);
}

/// The empty text is not changed by shortening, whatever the width.
pub proof fn lemma_shortened_empty(max_width: nat)
    ensures
        shortened(Seq::<char>::empty(), max_width) == Seq::<char>::empty(),
{
}

/// Whether `text` is measured by counting: it takes as many columns as it
/// has characters, and so does each of its prefixes with the marker behind it.
pub open spec fn one_column_each(text: Seq<char>) -> bool {
    &&& display_width(text) == text.len()
    &&& forall|kept: nat|
        kept <= text.len() ==> display_width(#[trigger] marked_prefix(text, kept)) == kept + 1
}

/// A message that is measured by counting and does not fit into `budget`
/// columns is shortened to exactly `budget` columns, where there is at least
/// one.
pub proof fn lemma_shortened_fills_budget(message: Seq<char>, budget: nat)
    requires
        one_column_each(message),
        display_width(message) >= budget,
        budget >= 1,
    ensures
        display_width(shortened(message, budget)) == budget,
{
    if display_width(message) > budget {
        let limit = (message.len() - 1) as nat;
        let target = (budget - 1) as nat;
        lemma_cut_is_longest_fit(message, budget, limit);
        assert(target <= limit && prefix_fits(message, target, budget));
        let kept = choose|kept: nat|
            {
                &&& kept <= limit
                &&& prefix_fits(message, kept, budget)
                &&& shortened(message, budget) == marked_prefix(message, kept)
                &&& forall|longer: nat|
                    kept < longer <= limit ==> !prefix_fits(message, longer, budget)
            };
        if kept < target {
            assert(!prefix_fits(message, target, budget));
        }
    }
}

/// Cuts `text` to at most `max_width` display columns. A text that fits is
/// returned unchanged. A longer one loses characters from its end, whole
/// characters only, until the rest and a marker behind it fit; where no
/// budget is left even for the marker, nothing is returned.
pub fn shorten(text: &str, max_width: u32) -> (short: String)
    ensures
        short@ == shortened(text@, max_width as nat),
        display_width(short@) <= max_width,
{
    proof {
        lemma_shortened_fits(text@, max_width as nat);
    }
    let budget: usize = max_width as usize;
    if measure(text) <= budget {
        return String::from_str(text);
    }
    let len: usize = text.unicode_len();
    let mut kept: usize = len - 1;
    loop
        invariant
            kept < len,
            len == text@.len(),
            budget == max_width,
            display_width(text@) > max_width,
            cut(text@, max_width as nat, (len - 1) as nat) == cut(text@, max_width as nat, kept as nat),
        decreases kept,
    {
        let mut candidate = String::from_str(text.substring_char(0, kept));
        proof {
            reveal_strlit("…");
        }
        candidate.append("…");
        assert(candidate@ =~= marked_prefix(text@, kept as nat));
        if measure(candidate.as_str()) <= budget {
            return candidate;
        }
        if kept == 0 {
            return String::new();
        }
        kept = kept - 1;
    }
}

} // verus!
