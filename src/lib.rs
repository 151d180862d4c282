//! A greeter that validates its inputs and formats greeting lines.

pub mod error;
pub mod greeter;
pub mod laws;

pub use error::GreetError;
pub use greeter::Greeter;
