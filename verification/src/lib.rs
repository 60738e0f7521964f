//! Builds greeting lines. The text written for a name is fixed here, down to
//! the character, so that whatever prints it prints exactly the line stated.

use vstd::prelude::*;
use vstd::string::StringExecFns;

verus! {

/// The greeting line for `name`: `"Hello, "`, then the name, then `"!"` and a
/// line terminator.
pub open spec fn greeting_spec(name: Seq<char>) -> Seq<char> {
    "Hello, "@ + name + "!\n"@
}

/// Builds the greeting line for `name`. Every name is accepted, the empty one
/// included, and the result is exactly `greeting_spec` of it.
pub fn greeting(name: &str) -> (r: String)
    ensures
        r@ == greeting_spec(name@),
{
    let mut line = String::from_str("Hello, ");
    line.append(name);
    line.append("!\n");
    line
}

/// The greeting is a function of the name alone: two greeting lines built for
/// the same name are identical.
pub proof fn lemma_greeting_deterministic(name: Seq<char>, r1: Seq<char>, r2: Seq<char>)
    requires
        r1 == greeting_spec(name),
        r2 == greeting_spec(name),
    ensures
        r1 == r2,
{
}

/// Sum of two integers; the caller keeps the sum within `i32`.
pub fn add(a: i32, b: i32) -> (r: i32)
    requires
        i32::MIN <= a + b <= i32::MAX,
    ensures
        r == a + b,
{
    a + b
}

} // verus!
