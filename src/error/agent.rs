//! The answer of an agent that declines a request.

use vstd::prelude::*;

verus! {

/// Returned by an agent's handler when it will not answer a request.
#[derive(Debug, Clone, Copy, PartialEq, Eq, Structural)]
pub struct Canceled();

impl Canceled {
    pub open spec fn spec_message() -> Seq<char> {
        "Canceled"@
    }

    /// The text that accompanies the failure reply.
    pub fn message(&self) -> (r: &'static str)
        ensures
            r@ == Self::spec_message(),
    {
        "Canceled"
    }
}

} // verus!
