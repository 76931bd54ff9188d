//! The greeting command: pure string formatting, total over all inputs.

use vstd::prelude::*;

verus! {

/// The fixed text that precedes the caller's name in every greeting.
pub open spec fn greeting_prefix() -> Seq<char> {
    "Hello, "@
}

/// The fixed text that follows the caller's name in every greeting.
pub open spec fn greeting_suffix() -> Seq<char> {
    "! This message comes from Rust!"@
}

/// The greeting owed for `name`: the prefix, then the name verbatim, then the
/// suffix, with no truncation and no escaping.
pub open spec fn greeting_of(name: Seq<char>) -> Seq<char> {
    greeting_prefix() + name + greeting_suffix()
}

/// Builds the greeting for `name`. Accepts any string, including the empty
/// one, and always succeeds.
pub fn greet(name: &str) -> (r: String)
    ensures
        r@ == greeting_of(name@),
{
    let mut r = String::from_str("Hello, ");
    r.append(name);
    r.append("! This message comes from Rust!");
    r
}

/// Every greeting embeds the name verbatim, with no truncation and no
/// escaping: the output is exactly 38 characters longer than the name, and the
/// name stands unchanged right after the 7-character prefix.
pub proof fn lemma_greeting_embeds_name(name: Seq<char>)
    ensures
        greeting_of(name).len() == name.len() + 38,
        greeting_of(name).subrange(7, 7 + name.len() as int) == name,
{
    reveal_strlit("Hello, ");
    reveal_strlit("! This message comes from Rust!");
    assert(greeting_of(name).subrange(7, 7 + name.len() as int) =~= name);
}

/// The greeting is a function of the name alone: any two results built for
/// the same name are identical, so repeated calls with the same input always
/// return the same output.
pub proof fn lemma_greet_deterministic(name: Seq<char>, r1: Seq<char>, r2: Seq<char>)
    requires
        r1 == greeting_of(name),
        r2 == greeting_of(name),
    ensures
        r1 == r2,
{
}

} // verus!
