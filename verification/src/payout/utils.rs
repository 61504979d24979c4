//! Payout arithmetic.
use vstd::prelude::*;
use crate::escrow::fees::fee_of;

verus! {

/// Winner take all: (winner's amount, fee) of `total_pot` at `fee_bps`.
pub fn calculate_winner_take_all(total_pot: u128, fee_bps: u32) -> (r: (u128, u128))
    requires
        total_pot * fee_bps <= u128::MAX,
        fee_of(total_pot as int, fee_bps as int) <= total_pot,
    ensures
        r.1 == fee_of(total_pot as int, fee_bps as int),
        r.0 == total_pot - r.1,
        r.0 + r.1 == total_pot,
{
    let fee = (total_pot * fee_bps as u128) / 10000;
    let winner_amount = total_pot - fee;
    (winner_amount, fee)
}

/// Split: (winner's amount, loser's amount, fee) of `total_pot` at `fee_bps`,
/// the winner taking `winner_split_bps` basis points of the pot net of the fee.
pub fn calculate_split_payout(total_pot: u128, fee_bps: u32, winner_split_bps: u32) -> (r: (u128, u128, u128))
    requires
        total_pot * fee_bps <= u128::MAX,
        fee_of(total_pot as int, fee_bps as int) <= total_pot,
        (total_pot - fee_of(total_pot as int, fee_bps as int)) * winner_split_bps <= u128::MAX,
        fee_of(total_pot - fee_of(total_pot as int, fee_bps as int), winner_split_bps as int) <= total_pot
            - fee_of(total_pot as int, fee_bps as int),
    ensures
        r.2 == fee_of(total_pot as int, fee_bps as int),
        r.0 == fee_of(total_pot - r.2, winner_split_bps as int),
        r.1 == total_pot - r.2 - r.0,
        r.0 + r.1 + r.2 == total_pot,
{
    let fee = (total_pot * fee_bps as u128) / 10000;
    let net_pot = total_pot - fee;
    let winner_amount = (net_pot * winner_split_bps as u128) / 10000;
    let loser_amount = net_pot - winner_amount;
    (winner_amount, loser_amount, fee)
}

} // verus!
