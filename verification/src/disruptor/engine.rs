//! The event bus, which is not implemented: every publication is refused.

use vstd::prelude::*;
use vstd::string::*;

verus! {

/// An event bus by name.
pub struct DisruptorEngine {
    pub name: String,
}

/// The message with which a publication is refused.
pub open spec fn not_implemented_message() -> Seq<char> {
    "DisruptorEngine is not implemented"@
}

impl DisruptorEngine {
    pub fn new(name: &str) -> (engine: Self)
        ensures
            engine.name@ == name@,
    {
        DisruptorEngine { name: String::from_str(name) }
    }

    /// Refuses the publication of `value`.
    pub fn publish<ValueType>(&self, value: ValueType) -> (published: Result<(), String>)
        ensures
            published matches Err(message) && message@ == not_implemented_message(),
    {
        Err(String::from_str("DisruptorEngine is not implemented"))
    }
}

} // verus!
