//! Fee arithmetic in basis points.
use vstd::prelude::*;
use crate::escrow::MAX_FEE_BPS;

verus! {

/// The fee on `amount` at `fee_bps` basis points, rounded down.
pub open spec fn fee_of(amount: int, fee_bps: int) -> int {
    (amount * fee_bps) / 10000
}

/// A fee at a rate of at most 100% is at most the amount it is taken from.
pub proof fn lemma_fee_bounded(amount: int, fee_bps: int)
    requires
        0 <= amount,
        0 <= fee_bps <= 10000,
    ensures
        0 <= fee_of(amount, fee_bps) <= amount,
{
    assert(0 <= amount * fee_bps <= amount * 10000) by (nonlinear_arith)
        requires
            0 <= amount,
            0 <= fee_bps <= 10000,
    ;
    assert((amount * 10000) / 10000 == amount) by (nonlinear_arith);
    assert((amount * fee_bps) / 10000 <= (amount * 10000) / 10000) by (nonlinear_arith)
        requires
            amount * fee_bps <= amount * 10000,
    ;
}

/// The fee on `amount` at `fee_bps` basis points: `amount * fee_bps / 10000`.
pub fn calculate_fee(amount: u128, fee_bps: u32) -> (r: u128)
    requires
        amount * fee_bps <= u128::MAX,
    ensures
        r == fee_of(amount as int, fee_bps as int),
        fee_bps <= 10000 ==> r <= amount,
{
    proof {
        if fee_bps <= 10000 {
            lemma_fee_bounded(amount as int, fee_bps as int);
        }
    }
    (amount * fee_bps as u128) / 10000
}

/// Whether a fee rate is allowed: at most 1000 basis points (10%).
pub fn validate_fee_bps(fee_bps: u32) -> (r: bool)
    ensures
        r == (fee_bps <= MAX_FEE_BPS),
{
    fee_bps <= MAX_FEE_BPS
}

} // verus!
