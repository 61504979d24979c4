//! Properties of the payout contract that span several calls.
use vstd::prelude::*;
use crate::payout::{PayoutModel, Error, MAX_FEE_BPS};
use crate::escrow::fees::{fee_of, lemma_fee_bounded};

verus! {

/// A fee at a valid rate (at most 1000 basis points) is at most a tenth of
/// the amount it is taken from.
pub proof fn law_fee_at_most_a_tenth(amount: int, fee_bps: int)
    requires
        0 <= amount,
        0 <= fee_bps <= MAX_FEE_BPS,
    ensures
        0 <= fee_of(amount, fee_bps),
        fee_of(amount, fee_bps) * 10 <= amount,
{
    lemma_fee_bounded(amount, fee_bps);
    assert(amount * fee_bps <= amount * 1000) by (nonlinear_arith)
        requires
            0 <= amount,
            fee_bps <= 1000,
    ;
    assert((amount * fee_bps) / 10000 * 10000 <= amount * fee_bps) by (nonlinear_arith)
        requires
            0 <= amount * fee_bps,
    ;
}

/// Winner take all splits the pot exactly into the winner's amount and the fee.
pub proof fn law_winner_take_all_conserves(s: PayoutModel, total_pot: u128)
    requires
        s.wf(),
    ensures
        s.winner_take_all_amounts(total_pot).0 + s.winner_take_all_amounts(total_pot).1 == total_pot,
{
    lemma_fee_bounded(total_pot as int, s.fee_rate() as int);
}

/// A split settlement divides the pot exactly into the winner's amount, the
/// loser's amount and the fee.
pub proof fn law_split_conserves(s: PayoutModel, total_pot: u128, winner_split_bps: u32)
    requires
        s.wf(),
        winner_split_bps <= 10000,
    ensures
        ({
            let (w, l, f) = s.split_amounts(total_pot, winner_split_bps);
            w + l + f == total_pot
        }),
{
    lemma_fee_bounded(total_pot as int, s.fee_rate() as int);
    let net = total_pot - fee_of(total_pot as int, s.fee_rate() as int);
    lemma_fee_bounded(net, winner_split_bps as int);
}

/// Only the arbiter settles: any other caller is refused with
/// `Unauthorized`, whichever kind of settlement it asks for.
pub proof fn law_only_arbiter_settles(
    s: PayoutModel,
    m: Seq<char>,
    caller: Seq<char>,
    total_pot: u128,
    winner_split_bps: u32,
)
    requires
        s.arbiter is Some,
        caller != s.arbiter->0,
    ensures
        s.winner_take_all_result(m, caller, total_pot) == Err::<(u128, u128), Error>(Error::Unauthorized),
        s.split_result(m, caller, total_pot, winner_split_bps) == Err::<(u128, u128, u128), Error>(
            Error::Unauthorized,
        ),
{
}

/// A match is settled at most once: after a winner-take-all or a split
/// settlement, settling it again either way is refused, and the arbiter is
/// refused with `AlreadySettled`.
pub proof fn law_settle_once(
    s: PayoutModel,
    m: Seq<char>,
    caller: Seq<char>,
    winner: Seq<char>,
    loser: Seq<char>,
    total_pot: u128,
    winner_split_bps: u32,
    asset: Seq<char>,
    caller2: Seq<char>,
    pot2: u128,
    split2: u32,
)
    requires
        s.settle_check(m, caller) is Ok,
    ensures
        s.settled_winner_take_all(m, winner, total_pot, asset).winner_take_all_result(m, caller2, pot2) is Err,
        s.settled_winner_take_all(m, winner, total_pot, asset).split_result(m, caller2, pot2, split2) is Err,
        s.settled_split(m, winner, loser, total_pot, winner_split_bps, asset).winner_take_all_result(m, caller2, pot2)
            is Err,
        s.settled_split(m, winner, loser, total_pot, winner_split_bps, asset).split_result(m, caller2, pot2, split2)
            is Err,
        s.settled_winner_take_all(m, winner, total_pot, asset).winner_take_all_result(m, caller, pot2) == Err::<
            (u128, u128),
            Error,
        >(Error::AlreadySettled),
        s.settled_winner_take_all(m, winner, total_pot, asset).split_result(m, caller, pot2, split2) == Err::<
            (u128, u128, u128),
            Error,
        >(Error::AlreadySettled),
        s.settled_split(m, winner, loser, total_pot, winner_split_bps, asset).winner_take_all_result(m, caller, pot2)
            == Err::<(u128, u128), Error>(Error::AlreadySettled),
        s.settled_split(m, winner, loser, total_pot, winner_split_bps, asset).split_result(m, caller, pot2, split2)
            == Err::<(u128, u128, u128), Error>(Error::AlreadySettled),
{
}

/// After a winner-take-all settlement, the fee balance has grown by the fee,
/// and the winner (not having withdrawn before) withdraws exactly the
/// winner's amount.
pub proof fn law_settle_then_withdraw(
    s: PayoutModel,
    m: Seq<char>,
    caller: Seq<char>,
    winner: Seq<char>,
    total_pot: u128,
    asset: Seq<char>,
)
    requires
        s.settle_check(m, caller) is Ok,
        !s.has_withdrawn(m, winner),
        s.fee_balance(asset) + s.winner_take_all_amounts(total_pot).1 <= u128::MAX,
    ensures
        s.settled_winner_take_all(m, winner, total_pot, asset).fee_balance(asset) == s.fee_balance(asset)
            + s.winner_take_all_amounts(total_pot).1,
        s.settled_winner_take_all(m, winner, total_pot, asset).withdraw_winnings_result(m, winner) == Ok::<
            u128,
            Error,
        >(s.winner_take_all_amounts(total_pot).0),
{
}

/// Winnings are withdrawn at most once.
pub proof fn law_withdraw_once(s: PayoutModel, m: Seq<char>, p: Seq<char>)
    requires
        s.withdraw_winnings_result(m, p) is Ok,
    ensures
        s.withdrew_winnings(m, p).withdraw_winnings_result(m, p) == Err::<u128, Error>(Error::AlreadyWithdrawn),
{
}

/// Withdrawing the fees of an asset hands over its whole balance and leaves
/// it at zero, so a second withdrawal finds no fees.
pub proof fn law_fee_withdrawal_empties(s: PayoutModel, asset: Seq<char>)
    requires
        s.withdraw_fees_result(asset) is Ok,
    ensures
        s.withdraw_fees_result(asset) == Ok::<u128, Error>(s.fee_balance(asset)),
        s.withdrew_fees(asset).fee_balance(asset) == 0,
        s.withdrew_fees(asset).withdraw_fees_result(asset) == Err::<u128, Error>(Error::NoFees),
{
}

/// While paused, every settlement is refused, the arbiter's with `Paused`.
pub proof fn law_paused_refuses_settlement(s: PayoutModel, m: Seq<char>, caller: Seq<char>, total_pot: u128, split: u32)
    requires
        s.arbiter is Some,
        s.paused(),
    ensures
        s.winner_take_all_result(m, caller, total_pot) is Err,
        s.split_result(m, caller, total_pot, split) is Err,
        caller == s.arbiter->0 ==> s.winner_take_all_result(m, caller, total_pot) == Err::<(u128, u128), Error>(
            Error::Paused,
        ),
        caller == s.arbiter->0 ==> s.split_result(m, caller, total_pot, split) == Err::<(u128, u128, u128), Error>(
            Error::Paused,
        ),
{
}

/// The arbiter settles an open match winner take all at any valid fee rate,
/// zero included: the fee is `total_pot * rate / 10000`, the winner is
/// credited the rest of the pot, the fee accrues in `asset` and the match is
/// marked settled.
pub proof fn law_winner_take_all_settles(
    s: PayoutModel,
    m: Seq<char>,
    caller: Seq<char>,
    winner: Seq<char>,
    total_pot: u128,
    asset: Seq<char>,
    rate: u32,
)
    requires
        s.arbiter == Some(caller),
        s.is_paused != Some(true),
        !(s.settled.contains_key(m) && s.settled[m]),
        s.fee_bps == Some(rate),
        rate <= MAX_FEE_BPS,
        s.fee_balance(asset) + (total_pot * rate) / 10000 <= u128::MAX,
    ensures
        ({
            let fee: int = (total_pot * rate) / 10000;
            let after = s.settled_winner_take_all(m, winner, total_pot, asset);
            &&& 0 <= fee <= total_pot
            &&& s.winner_take_all_result(m, caller, total_pot) == Ok::<(u128, u128), Error>(
                ((total_pot - fee) as u128, fee as u128),
            )
            &&& after.winnings.contains_key((m, winner))
            &&& after.winnings[(m, winner)] == total_pot - fee
            &&& after.settled.contains_key(m) && after.settled[m]
            &&& after.fee_balance(asset) == s.fee_balance(asset) + fee
        }),
{
    lemma_fee_bounded(total_pot as int, rate as int);
    assert(s.fee_rate() == rate);
    assert(s.settle_check(m, caller) is Ok);
    let fee: int = (total_pot * rate) / 10000;
    assert(fee_of(total_pot as int, rate as int) == fee);
    assert(s.winner_take_all_amounts(total_pot) == ((total_pot - fee) as u128, fee as u128));
}

/// The arbiter settles an open match with any split of at most 10000 basis
/// points (the only refusal is a split above that): the fee is
/// `total_pot * rate / 10000`, the winner is credited `split` basis points of
/// the pot net of the fee, the loser the rest of that net, and nothing is
/// lost.
pub proof fn law_split_settles(
    s: PayoutModel,
    m: Seq<char>,
    caller: Seq<char>,
    winner: Seq<char>,
    loser: Seq<char>,
    total_pot: u128,
    winner_split_bps: u32,
    asset: Seq<char>,
    rate: u32,
)
    requires
        s.arbiter == Some(caller),
        s.is_paused != Some(true),
        !(s.settled.contains_key(m) && s.settled[m]),
        s.fee_bps == Some(rate),
        rate <= MAX_FEE_BPS,
        s.fee_balance(asset) + (total_pot * rate) / 10000 <= u128::MAX,
    ensures
        (s.split_result(m, caller, total_pot, winner_split_bps) == Err::<(u128, u128, u128), Error>(
            Error::InvalidSplit,
        )) == (winner_split_bps > 10000),
        winner_split_bps <= 10000 ==> ({
            let fee: int = (total_pot * rate) / 10000;
            let net: int = total_pot - fee;
            let w: int = (net * winner_split_bps) / 10000;
            let after = s.settled_split(m, winner, loser, total_pot, winner_split_bps, asset);
            &&& 0 <= w <= net <= total_pot
            &&& s.split_result(m, caller, total_pot, winner_split_bps) == Ok::<(u128, u128, u128), Error>(
                (w as u128, (net - w) as u128, fee as u128),
            )
            &&& winner != loser ==> after.winnings[(m, winner)] == w
            &&& after.winnings[(m, loser)] == net - w
            &&& after.settled.contains_key(m) && after.settled[m]
            &&& after.fee_balance(asset) == s.fee_balance(asset) + fee
        }),
{
    lemma_fee_bounded(total_pot as int, rate as int);
    assert(s.fee_rate() == rate);
    assert(s.settle_check(m, caller) is Ok);
    let fee: int = (total_pot * rate) / 10000;
    assert(fee_of(total_pot as int, rate as int) == fee);
    if winner_split_bps <= 10000 {
        lemma_fee_bounded(total_pot - fee, winner_split_bps as int);
    }
}

} // verus!
