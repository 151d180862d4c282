use vstd::prelude::*;
use vstd::string::*;

use crate::error::GreetError;

verus! {

/// The line a greeter with `phrase` produces for `name`: `"<phrase>, <name>!"`.
pub open spec fn greeting_text(phrase: Seq<char>, name: Seq<char>) -> Seq<char> {
    phrase + ", "@ + name + "!"@
}

/// What `greet` may return for `phrase` and `name`: `EmptyName` exactly when the
/// name is empty, otherwise the greeting line.
pub open spec fn greet_outcome(phrase: Seq<char>, name: Seq<char>, r: Result<String, GreetError>) -> bool {
    if name.len() == 0 {
        r matches Err(GreetError::EmptyName)
    } else {
        r matches Ok(s) && s@ == greeting_text(phrase, name)
    }
}

/// The phrase that `Greeter::default` uses.
pub open spec fn default_phrase() -> Seq<char> {
    "Hello"@
}

/// Holds a greeting phrase, which is never empty, and greets names with it.
#[derive(Debug)]
pub struct Greeter {
    greeting: String,
}

impl View for Greeter {
    type V = Seq<char>;

    /// The greeting phrase.
    closed spec fn view(&self) -> Seq<char> {
        self.greeting@
    }
}

impl Greeter {
    #[verifier::type_invariant]
    spec fn inv(&self) -> bool {
        self.greeting@.len() > 0
    }

    /// Makes a greeter for `greeting`; an empty phrase is refused.
    pub fn new(greeting: &str) -> (r: Result<Greeter, GreetError>)
        ensures
            greeting@.len() == 0 <==> r matches Err(GreetError::EmptyGreeting),
            greeting@.len() > 0 <==> (r matches Ok(g) && g@ == greeting@),
    {
        if greeting.is_empty() {
            return Err(GreetError::EmptyGreeting);
        }
        Ok(Greeter { greeting: String::from_str(greeting) })
    }

    /// The greeting line for `name`; an empty name is refused.
    pub fn greet(&self, name: &str) -> (r: Result<String, GreetError>)
        ensures
            greet_outcome(self@, name@, r),
    {
        if name.is_empty() {
            return Err(GreetError::EmptyName);
        }
        let mut s = self.greeting.clone();
        s.append(", ");
        s.append(name);
        s.append("!");
        Ok(s)
    }

    /// Writes the greeting line for `name`, followed by a line break, to `writer`.
    /// An empty name is refused before anything is written.
    pub fn greet_to_writer<W: std::io::Write>(
        &self,
        writer: &mut W,
        name: &str,
    ) -> (r: Result<(), GreetError>)
        ensures
            name@.len() == 0 <==> r matches Err(GreetError::EmptyName),
            name@.len() == 0 ==> *final(writer) == *old(writer),
            name@.len() > 0 ==> (r is Ok || r matches Err(GreetError::IoError(_))),
    {
        let message = match self.greet(name) {
            Ok(message) => message,
            Err(e) => return Err(e),
        };
        match write_line(writer, message.as_str()) {
            Ok(()) => Ok(()),
            Err(e) => Err(GreetError::from(e)),
        }
    }
}

impl Clone for Greeter {
    fn clone(&self) -> (r: Greeter)
        ensures
            r@ == self@,
    {
        proof {
            use_type_invariant(self);
        }
        Greeter { greeting: self.greeting.clone() }
    }
}

impl Default for Greeter {
    /// A greeter with the phrase `"Hello"`.
    fn default() -> (r: Greeter)
        ensures
            r@ == default_phrase(),
    {
        proof {
            reveal_strlit("Hello");
        }
        Greeter { greeting: String::from_str("Hello") }
    }
}

/// Relies on `std::io::Write` through `writeln!`: writes `line` and a line break to
/// `writer`, or returns the writer's error. Nothing is promised of what the writer does.
#[verifier::external_body]
fn write_line<W: std::io::Write>(writer: &mut W, line: &str) -> (r: Result<(), std::io::Error>) {
    writeln!(writer, "{}", line)
}

} // verus!
