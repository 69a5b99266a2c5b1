//! The greeting that the shell shows.

use vstd::prelude::*;
use vstd::string::*;

verus! {

/// The greeting for a name.
pub open spec fn greeting(name: Seq<char>) -> Seq<char> {
    "Hello, "@ + name + "! You've been greeted from Rust!"@
}

/// Greets `name`.
pub fn greet(name: &str) -> (text: String)
    ensures
        text@ == greeting(name@),
{
    String::from_str("Hello, ").concat(name).concat("! You've been greeted from Rust!")
}

} // verus!
