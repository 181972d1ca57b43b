//! Trimming of surrounding whitespace, taken on trust from std.

use vstd::prelude::*;
use vstd::string::*;

verus! {

/// The characters of a string with leading and trailing whitespace
/// removed; the result depends on the input characters alone.
pub uninterp spec fn trimmed(s: Seq<char>) -> Seq<char>;

/// Relies on str::trim: it removes leading and trailing whitespace, so it
/// is a pure function of the input and maps an empty string to an empty
/// string.
#[verifier::external_body]
pub fn trim_str(s: &str) -> (r: String)
    ensures
        r@ == trimmed(s@),
        s@.len() == 0 ==> r@.len() == 0,
{
    s.trim().to_owned()
}

} // verus!
