use vstd::prelude::*;
use crate::text::text_eq;

verus! {

/// What `str::trim` leaves of a text.
pub uninterp spec fn trimmed(s: Seq<char>) -> Seq<char>;

/// Relies on `str::trim`: the text without its leading and trailing
/// whitespace, which depends on the characters alone.
#[verifier::external_body]
fn trim_text(s: &str) -> (r: &str)
    ensures
        r@ == trimmed(s@),
{
    s.trim()
}

/// An answer, already trimmed, that agrees to go on.
pub open spec fn confirms(answer: Seq<char>) -> bool {
    answer == "y"@ || answer == "yes"@
}

/// Whether a trimmed answer agrees to go on: exactly `y` or `yes`.
pub fn is_confirmation(answer: &str) -> (r: bool)
    ensures
        r == confirms(answer@),
{
    text_eq(answer, "y") || text_eq(answer, "yes")
}

/// Whether a line typed by the user agrees to go on: once trimmed, it is
/// exactly `y` or `yes`.
pub fn is_yes(line: &str) -> (r: bool)
    ensures
        r == confirms(trimmed(line@)),
{
    is_confirmation(trim_text(line))
}

} // verus!
