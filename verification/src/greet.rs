//! The one trivial request the dispatch boundary answers by itself.

use vstd::prelude::*;
use vstd::string::*;

verus! {

/// Builds the greeting returned for a name.
pub fn greet(name: &str) -> (r: String)
    ensures
        r@ == "Hello, "@ + name@ + "! You've been greeted from Rust!"@,
{
    "Hello, ".to_owned().concat(name).concat("! You've been greeted from Rust!")
}

} // verus!
