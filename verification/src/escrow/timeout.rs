//! Match timeouts: when a match has outlived its dispute window, and how a
//! refund splits the pot after the protocol fee.
use vstd::prelude::*;
use crate::assoc::AssocList;

verus! {

#[derive(Clone, Copy, Debug, PartialEq, Eq, Structural)]
pub enum TimeoutError {
    /// No creation time is recorded for the match.
    MatchNotFound,
}

/// What timeouts work on: each match's creation time, and which matches were refunded.
pub struct TimeoutStore {
    pub match_created: AssocList<String, u64>,
    pub match_refunded: AssocList<String, bool>,
}

impl TimeoutStore {
    /// The creation time of a match, 0 while unset.
    pub open spec fn created(&self, match_id: Seq<char>) -> u64 {
        if self.match_created.map().contains_key(match_id) {
            self.match_created.map()[match_id]
        } else {
            0
        }
    }
}

/// Whether `match_id` has outlived `dispute_window_secs` at time `now`; a
/// creation time of 0 (or none) means the match is unknown.
pub fn check_and_refund_timeout(store: &TimeoutStore, match_id: &String, dispute_window_secs: u64, now: u64) -> (r:
    Result<bool, TimeoutError>)
    ensures
        store.created(match_id@) == 0 ==> r == Err::<bool, TimeoutError>(TimeoutError::MatchNotFound),
        store.created(match_id@) != 0 ==> r == Ok::<bool, TimeoutError>(
            (if now >= store.created(match_id@) {
                now - store.created(match_id@)
            } else {
                0
            }) > dispute_window_secs,
        ),
{
    let created_time: u64 = match store.match_created.get(match_id) {
        Some(t) => *t,
        None => 0,
    };
    if created_time == 0 {
        return Err(TimeoutError::MatchNotFound);
    }
    let elapsed = now.saturating_sub(created_time);
    if elapsed > dispute_window_secs {
        return Ok(true);
    }
    Ok(false)
}

/// The protocol fee on `total_staked` at `fee_bps`, truncated to 64 bits.
pub open spec fn refund_fee(total_staked: u64, fee_bps: u32) -> u64 {
    ((total_staked * fee_bps) / 10000) as u64
}

/// The per-player refund of a two-player pot after the protocol fee, and that fee.
pub fn calculate_refund_amount(total_staked: u64, fee_bps: u32) -> (r: (u64, u64))
    requires
        refund_fee(total_staked, fee_bps) <= total_staked,
    ensures
        r.1 == refund_fee(total_staked, fee_bps),
        r.0 == (total_staked - r.1) / 2,
        2 * r.0 + r.1 <= total_staked,
{
    let a = total_staked as u128;
    let b = fee_bps as u128;
    assert(a * b <= u64::MAX * u32::MAX) by (nonlinear_arith)
        requires
            a <= u64::MAX,
            b <= u32::MAX,
    ;
    let fee_amount = #[verifier::truncate] ((a * b / 10000) as u64);
    let refund_per_player = (total_staked - fee_amount) / 2;
    (refund_per_player, fee_amount)
}

/// Mark `match_id` as refunded; the host then publishes the refund event.
pub fn execute_timeout_refund(
    store: &mut TimeoutStore,
    match_id: &String,
    player1: &String,
    player2: &String,
    refund_amount: u64,
) -> (r: Result<(), TimeoutError>)
    ensures
        r is Ok,
        final(store).match_refunded.map() == old(store).match_refunded.map().insert(match_id@, true),
        final(store).match_created.map() == old(store).match_created.map(),
{
    store.match_refunded.insert(match_id.clone(), true);
    Ok(())
}

} // verus!
