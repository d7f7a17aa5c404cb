//! The greeting request: a fixed sentence around the caller's name.

use vstd::prelude::*;
use vstd::string::StringExecFns;
use crate::text::{contains, lemma_middle_occurs, occurs_at};

verus! {

/// What the greeting says before the name.
pub open spec fn greeting_opening() -> Seq<char> {
    "你好, "@
}

/// What the greeting says after the name.
pub open spec fn greeting_closing() -> Seq<char> {
    "! 来自 Rust 核心的问候~"@
}

/// The greeting for `name`: the opening, the name as it was given, the closing.
pub open spec fn greeting_text(name: Seq<char>) -> Seq<char> {
    greeting_opening() + name + greeting_closing()
}

/// Greets `name`. The name is taken as it comes: nothing is trimmed, escaped
/// or refused, and there is no input on which the greeting fails.
pub fn greet(name: &str) -> (greeting: String)
    ensures
        greeting@ == greeting_text(name@),
        occurs_at(greeting@, name@, greeting_opening().len() as int),
        contains(greeting@, name@),
{
    let mut greeting = String::from_str("你好, ");
    greeting.append(name);
    greeting.append("! 来自 Rust 核心的问候~");
    proof {
        lemma_middle_occurs(greeting_opening(), name@, greeting_closing());
    }
    greeting
}

} // verus!
