//! Attempts that are repeated until they succeed.
use vstd::prelude::*;

verus! {

/// What to do after one attempt to connect or to subscribe.
#[derive(Debug, Clone, Copy, PartialEq, Eq, Structural)]
pub enum RetryStep {
    /// The attempt succeeded: go on.
    Proceed,
    /// The attempt failed: wait this many seconds and try again.
    RetryAfter(u64),
}

/// The step after an attempt, where `retry_secs` is the configured wait
/// between two attempts. Only a successful attempt ends the retrying.
pub fn after_attempt(succeeded: bool, retry_secs: u64) -> (step: RetryStep)
    ensures
        step == (if succeeded { RetryStep::Proceed } else { RetryStep::RetryAfter(retry_secs) }),
{
    if succeeded {
        RetryStep::Proceed
    } else {
        RetryStep::RetryAfter(retry_secs)
    }
}

} // verus!
