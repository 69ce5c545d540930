//! The greeting command: formats a fixed template around a caller-given name.

use vstd::prelude::*;
use vstd::string::*;

verus! {

/// The greeting is the fixed template with `name` substituted, for any name,
/// including the empty string and strings holding format-special characters.
pub fn greet(name: &str) -> (r: String)
    ensures
        r@ == "Hello, "@ + name@ + "! You've been greeted from Rust!"@,
{
    let mut s = String::from_str("Hello, ");
    s.append(name);
    s.append("! You've been greeted from Rust!");
    s
}

} // verus!
