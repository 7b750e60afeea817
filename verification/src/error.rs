use vstd::prelude::*;

verus! {

/// Typed failures of the game's transitions. Every error aborts the enclosing
/// update before any write; the caller sees the record unchanged.
#[derive(Clone, Copy, Debug, PartialEq, Eq, Structural)]
pub enum ContractError {
    /// The caller is not the owner, or not the recorded bettor, where required.
    Unauthorized,
    /// An operation requiring an idle, unclaimed round ran while one is active
    /// or claimed.
    IsPlaying,
    /// An operation requiring an open, unresolved round with a bettor ran while
    /// that precondition fails.
    NotReady,
    /// Attached funds plus the amount already paid do not exactly equal the
    /// required pool amount.
    Pay,
}

} // verus!
