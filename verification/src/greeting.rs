//! The greeter: the one domain operation of the shell.
//!
//! `greet` is total over all strings, pure, and produces the fixed template
//! `"Hello, {name}! You've been greeted from Rust!"` with the caller's name
//! substituted exactly once.

use vstd::prelude::*;
use vstd::string::StringExecFns;

verus! {

/// The greeting that `greet` owes for a given name: the fixed template with
/// `name` substituted in the name position and nothing else changed.
pub open spec fn spec_greet(name: Seq<char>) -> Seq<char> {
    "Hello, "@ + name + "! You've been greeted from Rust!"@
}

/// Format the greeting for `name`. Total: every string, the empty one
/// included, is accepted, and the call never fails.
pub fn greet(name: &str) -> (r: String)
    ensures
        r@ == spec_greet(name@),
{
    let mut r = String::from_str("Hello, ");
    r.append(name);
    r.append("! You've been greeted from Rust!");
    proof {
        assert(r@ =~= spec_greet(name@));
    }
    r
}

/// The greeting is the fixed template with the name substituted exactly once:
/// it opens with the template's head, carries `name` verbatim right after it,
/// closes with the template's tail, and holds not one character more.
pub proof fn lemma_greet_shape(name: Seq<char>)
    ensures
        spec_greet(name).len() == "Hello, "@.len() + name.len() + "! You've been greeted from Rust!"@.len(),
        spec_greet(name).subrange(0, "Hello, "@.len() as int) == "Hello, "@,
        spec_greet(name).subrange(
            "Hello, "@.len() as int,
            ("Hello, "@.len() + name.len()) as int,
        ) == name,
        spec_greet(name).subrange(
            ("Hello, "@.len() + name.len()) as int,
            spec_greet(name).len() as int,
        ) == "! You've been greeted from Rust!"@,
{
    assert(spec_greet(name).subrange(0, "Hello, "@.len() as int) =~= "Hello, "@);
    assert(spec_greet(name).subrange("Hello, "@.len() as int, ("Hello, "@.len() + name.len()) as int)
        =~= name);
    assert(spec_greet(name).subrange(
        ("Hello, "@.len() + name.len()) as int,
        spec_greet(name).len() as int,
    ) =~= "! You've been greeted from Rust!"@);
}

/// Repeated calls with the same input always produce the same output: the
/// greeting is a function of the name alone, so any two results for equal
/// names are equal.
pub proof fn lemma_greet_deterministic(a: Seq<char>, b: Seq<char>)
    requires
        a == b,
    ensures
        spec_greet(a) == spec_greet(b),
{
}

} // verus!
