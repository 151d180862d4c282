use vstd::prelude::*;

use crate::error::GreetError;
use crate::greeter::{default_phrase, greet_outcome, greeting_text};

verus! {

/// Greeting is free of hidden state: two greetings of the same name by the same
/// greeter end alike, both with the same error or both with the same line.
pub proof fn lemma_greet_idempotent(
    phrase: Seq<char>,
    name: Seq<char>,
    first: Result<String, GreetError>,
    second: Result<String, GreetError>,
)
    requires
        greet_outcome(phrase, name, first),
        greet_outcome(phrase, name, second),
    ensures
        first is Ok <==> second is Ok,
        first is Ok ==> first->Ok_0@ == second->Ok_0@,
        first is Err ==> first == second,
{
}

/// The default greeter says hello: for every non-empty name its line is
/// `"Hello, <name>!"`.
pub proof fn lemma_default_says_hello(name: Seq<char>)
    requires
        name.len() > 0,
    ensures
        greeting_text(default_phrase(), name) == "Hello, "@ + name + "!"@,
{
    reveal_strlit("Hello");
    reveal_strlit("Hello, ");
    reveal_strlit(", ");
    assert(greeting_text(default_phrase(), name) =~= "Hello, "@ + name + "!"@);
}

} // verus!
