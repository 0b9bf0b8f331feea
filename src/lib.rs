//! The greeting command that the desktop shell exposes to its front end.
use vstd::prelude::*;

verus! {

/// The greeting for `name`: the name, unchanged, between a fixed opening and a fixed closing.
pub open spec fn greeting(name: Seq<char>) -> Seq<char> {
    "Hello, "@ + name + "! You've been greeted from Rust!"@
}

/// Greets `name`. Every text is accepted, the empty one included, and is neither
/// escaped nor trimmed.
pub fn greet(name: &str) -> (r: String)
    ensures
        r@ == greeting(name@),
{
    let mut r = String::from_str("Hello, ");
    r.append(name);
    r.append("! You've been greeted from Rust!");
    r
}

/// Greeting the same name twice gives the same text: the result depends on the name
/// alone, and nothing is read or changed on the way.
pub proof fn greeting_is_repeatable(name: &str, first: String, second: String)
    requires
        first@ == greeting(name@),
        second@ == greeting(name@),
    ensures
        first@ == second@,
{
}

/// The name stands in the greeting character for character, right after the opening,
/// whatever it holds: markup and control characters are not escaped.
pub proof fn greeting_holds_name_verbatim(name: Seq<char>)
    ensures
        greeting(name).len() == name.len() + 39,
        greeting(name).subrange(0, 7) == "Hello, "@,
        greeting(name).subrange(7, 7 + name.len() as int) == name,
        greeting(name).subrange(7 + name.len() as int, greeting(name).len() as int)
            == "! You've been greeted from Rust!"@,
{
    reveal_strlit("Hello, ");
    reveal_strlit("! You've been greeted from Rust!");
    assert(greeting(name).subrange(0, 7) =~= "Hello, "@);
    assert(greeting(name).subrange(7, 7 + name.len() as int) =~= name);
    assert(greeting(name).subrange(7 + name.len() as int, greeting(name).len() as int)
        =~= "! You've been greeted from Rust!"@);
}

} // verus!
