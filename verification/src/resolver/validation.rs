//! Checks on submitted results.
use vstd::prelude::*;

verus! {

/// The winner and the loser are different accounts.
pub fn validate_winner_loser(winner: &String, loser: &String) -> (r: bool)
    ensures
        r == (winner@ != loser@),
{
    !(*winner == *loser)
}

/// A reason is valid when it is not empty and at most 100 bytes long.
pub fn validate_reason(reason: &str) -> (r: bool)
    ensures
        r == (reason@.len() > 0 && reason.len() <= 100),
{
    !reason.is_empty() && reason.len() <= 100
}

} // verus!
