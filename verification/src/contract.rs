//! The contract state and its two entry points.

use vstd::prelude::*;
use vstd::string::StringExecFns;

verus! {

/// The text that the query entry point returns, as a sequence of characters.
pub open spec fn spec_greeting() -> Seq<char> {
    "Hello, NEAR!"@
}

/// The persisted contract state. It carries no fields: the interesting
/// behaviour is its lifecycle (created exactly once, then read-only), which
/// `crate::lifecycle` states and proves.
#[derive(Clone, Copy, Debug, PartialEq, Eq, Structural)]
pub struct Contract {}

impl Contract {
    /// Constructs the fresh state that the host persists on initialization.
    /// The once-only guard lives in `crate::lifecycle::initialize`.
    pub fn new() -> (c: Contract)
        ensures
            c == (Contract {}),
    {
        Contract {}
    }

    /// The read-only query: always the fixed greeting, never a state change.
    pub fn hello_world(&self) -> (r: String)
        ensures
            r@ == spec_greeting(),
    {
        String::from_str("Hello, NEAR!")
    }
}

} // verus!
