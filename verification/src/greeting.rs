use vstd::prelude::*;
use vstd::string::*;

verus! {

/// The greeting for `name`, as a sequence of characters.
pub open spec fn greeting(name: Seq<char>) -> Seq<char> {
    "Hello, "@ + name + "! You've been greeted from Rust!"@
}

/// Greets `name`.
pub fn greet(name: &str) -> (line: String)
    ensures
        line@ == greeting(name@),
{
    let mut line = String::from_str("Hello, ");
    line.append(name);
    line.append("! You've been greeted from Rust!");
    line
}

} // verus!
