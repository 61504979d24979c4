//! Events of the payout contract.
use vstd::prelude::*;

verus! {

pub enum PayoutEvent {
    PayoutSettled { match_id: String, winner: String, amount: u128 },
    FeesAccrued { asset: String, amount: u128 },
    WinningsWithdrawn { player: String, amount: u128 },
}

} // verus!
