//! The periodic timeout check of the application.
use vstd::prelude::*;
use vstd::string::to_string_from_display_ensures;

verus! {

/// What came of one timeout check.
#[derive(Debug, Clone, PartialEq, Eq)]
pub enum TickOutcome {
    /// Every location of the application was checked against the time.
    Completed,
    /// The check failed; the update said why.
    Failed(String),
}

/// The outcome of a timeout check, given what the state update returned.
pub fn tick_outcome(update: Result<(), anyhow::Error>) -> (outcome: TickOutcome)
    ensures
        outcome is Completed <==> update is Ok,
        outcome matches TickOutcome::Failed(text) ==> update matches Err(error)
            && to_string_from_display_ensures::<anyhow::Error>(&error, text),
{
    match update {
        Ok(()) => TickOutcome::Completed,
        Err(error) => TickOutcome::Failed(error.to_string()),
    }
}

} // verus!
