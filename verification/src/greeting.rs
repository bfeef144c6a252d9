use vstd::prelude::*;
use vstd::string::*;

verus! {

/// The reply to a greeting request: a fixed prefix, the caller's name spliced
/// in verbatim, and a fixed suffix.
pub open spec fn greeting_of(name: Seq<char>) -> Seq<char> {
    "Hello, "@ + name + "! You've been greeted from Rust!"@
}

/// Formats the greeting for `name`: exactly the fixed template with `name`
/// substituted verbatim, the empty name included. Pure; no error condition.
pub fn greet(name: &str) -> (r: String)
    ensures
        r@ == greeting_of(name@),
{
    let mut r = "Hello, ".to_owned();
    r.append(name);
    r.append("! You've been greeted from Rust!");
    proof {
        assert(r@ =~= greeting_of(name@));
    }
    r
}

} // verus!
