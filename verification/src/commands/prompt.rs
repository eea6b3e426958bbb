//! Reading the answer to a yes-or-no question that defaults to yes.

use crate::text::{same_text, trim, trimmed};
use vstd::prelude::*;

verus! {

/// An answer from which the surrounding whitespace is gone says yes when it is empty or
/// the letter `y` in either case.
pub open spec fn yes(answer: Seq<char>) -> bool {
    answer.len() == 0 || answer == "y"@ || answer == "Y"@
}

/// An answer says yes when, whitespace aside, it is empty or the letter `y` in either case.
pub open spec fn accepted(answer: Seq<char>) -> bool {
    yes(trimmed(answer))
}

/// Whether `answer`, taken as it is, says yes.
pub fn says_yes(answer: &str) -> (b: bool)
    ensures
        b == yes(answer@),
{
    answer.unicode_len() == 0 || same_text(answer, "y") || same_text(answer, "Y")
}

/// Whether the line `answer` says yes.
pub fn accepts(answer: &str) -> (b: bool)
    ensures
        b == accepted(answer@),
{
    let t = trim(answer);
    says_yes(t.as_str())
}

} // verus!
