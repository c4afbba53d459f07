//! The confirmation gate: which answers to a yes/no prompt count as consent.

use crate::text::{lowercase, to_lowercase, trim, trimmed};
use vstd::prelude::*;

verus! {

/// An answer consents when, with the surrounding white space removed and put
/// in lower case, it is the single character `y`.
pub open spec fn affirmative(answer: Seq<char>) -> bool {
    lowercase(trimmed(answer)) == seq!['y']
}

/// Whether a trimmed, lower-cased answer is exactly `y`.
pub fn is_yes(lowered: &str) -> (yes: bool)
    ensures
        yes == (lowered@ == seq!['y']),
{
    if lowered.unicode_len() == 1 {
        let c = lowered.get_char(0);
        assert(c == 'y' ==> lowered@ =~= seq!['y']);
        c == 'y'
    } else {
        false
    }
}

/// Whether the line that the user typed consents.
///
/// Nothing but `y` counts once the line is trimmed and lower-cased: not a
/// longer word that starts with it, and not an empty line.
pub fn user_confirmed(answer: &str) -> (confirmed: bool)
    ensures
        confirmed == affirmative(answer@),
{
    let lowered = to_lowercase(trim(answer));
    is_yes(lowered.as_str())
}

} // verus!
