use vstd::prelude::*;

verus! {

/// The greeting for `name`.
pub open spec fn greeting_for(name: Seq<char>) -> Seq<char> {
    "Hello, "@ + name + "! You've been greeted from Rust!"@
}

/// Greets `name`; used by the front end to check that the backend answers.
pub fn greet(name: &str) -> (r: String)
    ensures
        r@ == greeting_for(name@),
{
    let mut s = String::from_str("Hello, ");
    s.append(name);
    s.append("! You've been greeted from Rust!");
    s
}

} // verus!
