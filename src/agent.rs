//! The credential agent: the reasons the daemon gives for cancelling a
//! request, and how an agent's answer becomes a reply on the bus.

use crate::error::agent::Canceled;
use crate::text::str_equal;
use vstd::prelude::*;

verus! {

/// Why the daemon cancelled a request it had made of the agent.
#[derive(Debug, Clone, Copy, PartialEq, Eq, Structural)]
pub enum CancellationReason {
    OutOfRange,
    UserCanceled,
    Timeout,
    Shutdown,
}

impl CancellationReason {
    pub open spec fn spec_from_wire(s: Seq<char>) -> Option<CancellationReason> {
        if s == "out-of-range"@ {
            Some(CancellationReason::OutOfRange)
        } else if s == "user-canceled"@ {
            Some(CancellationReason::UserCanceled)
        } else if s == "timed-out"@ {
            Some(CancellationReason::Timeout)
        } else if s == "shutdown"@ {
            Some(CancellationReason::Shutdown)
        } else {
            None
        }
    }

    pub open spec fn spec_wire(self) -> Seq<char> {
        match self {
            CancellationReason::OutOfRange => "out-of-range"@,
            CancellationReason::UserCanceled => "user-canceled"@,
            CancellationReason::Timeout => "timed-out"@,
            CancellationReason::Shutdown => "shutdown"@,
        }
    }

    /// The reason that a wire string names, if any.
    pub fn from_wire(s: &str) -> (r: Option<CancellationReason>)
        ensures
            r == Self::spec_from_wire(s@),
            r matches Some(reason) ==> reason.spec_wire() == s@,
    {
        if str_equal(s, "out-of-range") {
            Some(CancellationReason::OutOfRange)
        } else if str_equal(s, "user-canceled") {
            Some(CancellationReason::UserCanceled)
        } else if str_equal(s, "timed-out") {
            Some(CancellationReason::Timeout)
        } else if str_equal(s, "shutdown") {
            Some(CancellationReason::Shutdown)
        } else {
            None
        }
    }

    /// The wire string of the reason.
    pub fn wire(&self) -> (r: &'static str)
        ensures
            r@ == self.spec_wire(),
            Self::spec_from_wire(r@) == Some(*self),
    {
        proof {
            lemma_cancellation_reason_round_trip(*self);
        }
        match self {
            CancellationReason::OutOfRange => "out-of-range",
            CancellationReason::UserCanceled => "user-canceled",
            CancellationReason::Timeout => "timed-out",
            CancellationReason::Shutdown => "shutdown",
        }
    }
}

/// Reasons and their wire strings correspond one to one: each reason's
/// string reads back as that reason, and each string that reads as a reason
/// is that reason's string.
pub proof fn lemma_cancellation_reason_round_trip(reason: CancellationReason)
    ensures
        CancellationReason::spec_from_wire(reason.spec_wire()) == Some(reason),
        forall|s: Seq<char>| #[trigger] CancellationReason::spec_from_wire(s) == Some(reason) ==> s == reason.spec_wire(),
{
    reveal_strlit("out-of-range");
    reveal_strlit("user-canceled");
    reveal_strlit("timed-out");
    reveal_strlit("shutdown");
    assert("out-of-range"@.len() == 12);
    assert("user-canceled"@.len() == 13);
    assert("timed-out"@.len() == 9);
    assert("shutdown"@.len() == 8);
}

/// A fault reply sent back to the daemon when a call cannot be served.
#[derive(Debug, PartialEq, Eq)]
pub enum Fault {
    /// A generic failure, with its message.
    Failed(String),
    /// No agent is served at the called path.
    UnknownObject,
    /// The agent at the called path has no such method.
    UnknownMethod,
    /// An argument of the call is not understood.
    InvalidArgs,
}

/// How an agent's answer becomes the reply: an answer is sent as it is, and
/// a refusal becomes a generic failure whose message is "Canceled".
pub fn reply_of<T>(answer: core::result::Result<T, Canceled>) -> (r: core::result::Result<T, Fault>)
    ensures
        answer matches Ok(x) ==> r == Ok::<T, Fault>(x),
        answer is Err ==> (r matches Err(Fault::Failed(m)) && m@ == Canceled::spec_message()),
{
    match answer {
        Ok(x) => Ok(x),
        Err(c) => Err(Fault::Failed(c.message().to_string())),
    }
}

} // verus!
