//! Checks on payout parameters.
use vstd::prelude::*;
use crate::payout::{BPS_DENOMINATOR, MAX_FEE_BPS};

verus! {

/// A split is valid when it is at most 10000 basis points.
pub fn validate_split_bps(split_bps: u32) -> (r: bool)
    ensures
        r == (split_bps <= BPS_DENOMINATOR),
{
    split_bps <= BPS_DENOMINATOR
}

/// A fee rate is valid when it is at most 1000 basis points.
pub fn validate_fee_bps(fee_bps: u32) -> (r: bool)
    ensures
        r == (fee_bps <= MAX_FEE_BPS),
{
    fee_bps <= MAX_FEE_BPS
}

/// Payout amounts are valid when the winner gets something (the loser's
/// amount, being unsigned, is always acceptable).
pub fn validate_payout_amounts(winner_amount: u128, loser_amount: u128) -> (r: bool)
    ensures
        r == (winner_amount > 0),
{
    winner_amount > 0 && loser_amount >= 0
}

} // verus!
