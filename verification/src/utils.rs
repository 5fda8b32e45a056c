use crate::bridge::Wait;
use vstd::prelude::*;

verus! {

/// How many seconds a wait for the signaling service, or for a channel, to
/// open may take. Each such wait has a deadline of its own.
pub const CONNECT_TIMEOUT_SECONDS: u64 = 10;

/// The outcome of a timed wait whose deadline won the race.
#[derive(Clone, Copy, Debug, PartialEq, Eq)]
pub struct Elapsed;

impl Elapsed {
    /// The text shown for an elapsed deadline.
    pub open spec fn message_spec() -> Seq<char> {
        "timeout has elapsed"@
    }

    /// The text shown for an elapsed deadline.
    pub fn message(&self) -> (text: String)
        ensures
            text@ == Self::message_spec(),
    {
        "timeout has elapsed".to_string()
    }
}

/// What a wait that races `operation` against a deadline resolves to.
pub open spec fn timeout_spec<T>(operation: Wait<T>, deadline_passed: bool) -> Wait<
    Result<T, Elapsed>,
> {
    match operation {
        Wait::Ready(value) => Wait::Ready(Ok(value)),
        Wait::Pending => if deadline_passed {
            Wait::Ready(Err(Elapsed))
        } else {
            Wait::Pending
        },
    }
}

/// Races an operation against a deadline. An operation that has resolved
/// wins, whether or not the deadline has passed as well; an operation that is
/// still pending loses to a deadline that has passed, and what it might
/// resolve to later is never seen. While neither has happened the timed wait
/// is pending too.
pub fn timeout<T>(operation: Wait<T>, deadline_passed: bool) -> (outcome: Wait<Result<T, Elapsed>>)
    ensures
        outcome == timeout_spec(operation, deadline_passed),
{
    match operation {
        Wait::Ready(value) => Wait::Ready(Ok(value)),
        Wait::Pending => if deadline_passed {
            Wait::Ready(Err(Elapsed))
        } else {
            Wait::Pending
        },
    }
}

/// Whether two string slices hold the same text (`==` on `str`, which
/// compares their bytes; the same bytes are the same characters).
#[verifier::external_body]
pub(crate) fn str_eq(a: &str, b: &str) -> (same: bool)
    ensures
        same == (a@ == b@),
{
    a == b
}

/// A number to tell one record from another: a version 4 identifier, drawn
/// at random (`Uuid::new_v4`, read as a number with `Uuid::as_u128`).
/// Nothing is claimed of the number.
#[verifier::external_body]
pub(crate) fn random_id() -> (id: u128) {
    uuid::Uuid::new_v4().as_u128()
}

} // verus!
