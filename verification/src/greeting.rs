//! The core operation: a pure, deterministic greeting.

use vstd::prelude::*;

verus! {

/// The characters of the greeting for a given subject: the fixed template
/// `"Hello from Rust, {subject}!"` with the subject's characters spliced in
/// exactly, unchanged otherwise.
pub open spec fn spec_greet(subject: Seq<char>) -> Seq<char> {
    "Hello from Rust, "@ + subject + "!"@
}

/// Builds the greeting for `subject`. Total over every text input, the empty
/// string included; no trimming, casing or escaping of the subject.
pub fn greet(subject: &str) -> (r: String)
    ensures
        r@ == spec_greet(subject@),
{
    let mut r = String::from_str("Hello from Rust, ");
    r.append(subject);
    r.append("!");
    r
}

/// Repeated calls with the same subject always produce the same output: any
/// two greetings built for equal subjects are equal, so the operation keeps
/// no hidden state.
pub proof fn lemma_greet_deterministic(s1: Seq<char>, s2: Seq<char>, r1: Seq<char>, r2: Seq<char>)
    requires
        s1 == s2,
        r1 == spec_greet(s1),
        r2 == spec_greet(s2),
    ensures
        r1 == r2,
{
}

} // verus!
