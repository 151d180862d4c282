use vstd::prelude::*;
use vstd::string::*;

verus! {

/// Makes `std::io::Error` usable in signatures; its contents stay opaque.
#[verifier::external_type_specification]
#[verifier::external_body]
pub struct ExIoError(std::io::Error);

/// Why a greeting could not be produced or delivered.
#[derive(Debug)]
pub enum GreetError {
    /// The name to greet was empty.
    EmptyName,
    /// A greeter was requested with an empty phrase.
    EmptyGreeting,
    /// Writing the greeting to its sink failed.
    IoError(std::io::Error),
}

impl GreetError {
    /// The human-readable description of the error.
    pub fn message(&self) -> (r: String)
        ensures
            self is EmptyName ==> r@ == "Name cannot be empty"@,
            self is EmptyGreeting ==> r@ == "Greeting cannot be empty"@,
            self is IoError ==> "IO error: "@.is_prefix_of(r@),
    {
        match self {
            GreetError::EmptyName => String::from_str("Name cannot be empty"),
            GreetError::EmptyGreeting => String::from_str("Greeting cannot be empty"),
            GreetError::IoError(e) => {
                let mut r = String::from_str("IO error: ");
                let detail = e.to_string();
                r.append(detail.as_str());
                r
            },
        }
    }
}

impl From<std::io::Error> for GreetError {
    fn from(error: std::io::Error) -> (r: GreetError)
        ensures
            r == GreetError::IoError(error),
    {
        GreetError::IoError(error)
    }
}

impl vstd::std_specs::convert::FromSpecImpl<std::io::Error> for GreetError {
    open spec fn obeys_from_spec() -> bool {
        true
    }

    open spec fn from_spec(error: std::io::Error) -> GreetError {
        GreetError::IoError(error)
    }
}

} // verus!
