//! Events of the escrow contract.
use vstd::prelude::*;

verus! {

pub enum EscrowEvent {
    MatchCreated { match_id: String, player1: String, player2: String, amount: u128 },
    StakeDeposited { player: String, amount: u128 },
    StakeRefunded { player: String, amount: u128, reason: String },
}

} // verus!
