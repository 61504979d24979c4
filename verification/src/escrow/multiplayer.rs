//! Matches of two to eight players: invited players, their stakes, and the
//! payouts of equal and ranked splits.
use vstd::prelude::*;
use crate::assoc::AssocList;
use crate::escrow::{MIN_PLAYERS, MAX_PLAYERS};
use crate::escrow::fee_manager::saturating_add_u64;
use crate::text::list_contains;

verus! {

#[derive(Clone, Copy, Debug, PartialEq, Eq, Structural)]
pub enum MatchError {
    /// Fewer than two players.
    Min2Players,
    /// More than eight players.
    Max8Players,
    /// The player is not one of the match's players.
    PlayerNotInvited,
    /// No winners to pay.
    NoWinners,
}

/// Percent of the pot paid at a rank: 100 at rank 1 (and 0), ten points less
/// per further rank, never below 0.
pub open spec fn rank_percentage(rank: u32) -> int {
    let index: int = if rank == 0 { 0 } else { rank - 1 };
    if 100 - index * 10 > 0 {
        100 - index * 10
    } else {
        0
    }
}

pub struct MultiplayerMatch {
    pub match_id: String,
    pub players: Vec<String>,
    pub stakes: AssocList<String, u64>,
    pub total_stake: u64,
    pub created_at: u64,
    pub game_type: String,
    pub game_id: String,
}

impl MultiplayerMatch {
    /// A match of two to eight players, with no stakes yet.
    pub fn new(match_id: String, players: Vec<String>, game_type: String, game_id: String) -> (r: Result<
        Self,
        MatchError,
    >)
        ensures
            players.len() < MIN_PLAYERS ==> r == Err::<Self, MatchError>(MatchError::Min2Players),
            MIN_PLAYERS <= players.len() <= MAX_PLAYERS ==> r is Ok,
            players.len() > MAX_PLAYERS ==> r == Err::<Self, MatchError>(MatchError::Max8Players),
            r is Ok ==> {
                let m = r->Ok_0;
                &&& m.match_id == match_id
                &&& m.players == players
                &&& m.stakes.map() == Map::<Seq<char>, u64>::empty()
                &&& m.total_stake == 0
                &&& m.created_at == 0
                &&& m.game_type == game_type
                &&& m.game_id == game_id
            },
    {
        if players.len() < MIN_PLAYERS as usize {
            return Err(MatchError::Min2Players);
        }
        if players.len() > MAX_PLAYERS as usize {
            return Err(MatchError::Max8Players);
        }
        Ok(MultiplayerMatch {
            match_id,
            players,
            stakes: AssocList::new(),
            total_stake: 0,
            created_at: 0,
            game_type,
            game_id,
        })
    }

    /// Record the stake of an invited player (replacing an earlier one) and add
    /// it to the total, saturating at `u64::MAX`.
    pub fn add_stake(&mut self, player: String, amount: u64) -> (r: Result<(), MatchError>)
        ensures
            !old(self).players.deep_view().contains(player@) ==> r == Err::<(), MatchError>(
                MatchError::PlayerNotInvited,
            ) && final(self).stakes.map() == old(self).stakes.map() && final(self).total_stake == old(self).total_stake,
            old(self).players.deep_view().contains(player@) ==> r is Ok && final(self).stakes.map()
                == old(self).stakes.map().insert(player@, amount) && final(self).total_stake
                == saturating_add_u64(old(self).total_stake, amount),
            final(self).players == old(self).players,
            final(self).match_id == old(self).match_id,
            final(self).created_at == old(self).created_at,
            final(self).game_type == old(self).game_type,
            final(self).game_id == old(self).game_id,
    {
        if !list_contains(&self.players, &player) {
            return Err(MatchError::PlayerNotInvited);
        }
        self.stakes.insert(player, amount);
        self.total_stake = self.total_stake.saturating_add(amount);
        Ok(())
    }

    /// The number of players.
    pub fn get_player_count(&self) -> (r: usize)
        ensures
            r == self.players.len(),
    {
        self.players.len()
    }

    /// Whether every player has a recorded stake.
    pub fn validate_all_stakes_locked(&self) -> (r: Result<bool, MatchError>)
        ensures
            r == Ok::<bool, MatchError>(
                forall|i: int| 0 <= i < self.players.len() ==> #[trigger] self.stakes.map().contains_key(
                    self.players@[i]@,
                ),
            ),
    {
        let mut i: usize = 0;
        while i < self.players.len()
            invariant
                0 <= i <= self.players.len(),
                forall|j: int| 0 <= j < i ==> #[trigger] self.stakes.map().contains_key(self.players@[j]@),
            decreases self.players.len() - i,
        {
            if !self.stakes.contains(&self.players[i]) {
                return Ok(false);
            }
            i += 1;
        }
        Ok(true)
    }

    /// The pot shared equally by `winner_count` winners (0 for no winners).
    pub fn calculate_equal_payout(&self, winner_count: u32) -> (r: u64)
        ensures
            winner_count == 0 ==> r == 0,
            winner_count > 0 ==> r == self.total_stake / (winner_count as u64),
    {
        if winner_count == 0 {
            return 0;
        }
        self.total_stake / (winner_count as u64)
    }

    /// The payout at `rank`: `rank_percentage(rank)` percent of the pot. Ranks
    /// are not checked against the number of players, so a ranked payout is
    /// given for every rank.
    pub fn calculate_ranked_payout(&self, rank: u32) -> (r: Result<u64, MatchError>)
        requires
            self.total_stake * rank_percentage(rank) <= u64::MAX,
        ensures
            r == Ok::<u64, MatchError>(((self.total_stake * rank_percentage(rank)) / 100) as u64),
    {
        let rank_index = rank.saturating_sub(1) as u64;
        let percentage: u64 = 100u64.saturating_sub(rank_index * 10);
        Ok((self.total_stake * percentage) / 100)
    }
}

/// A ranked payout never grows as the rank gets worse.
pub proof fn law_ranked_payout_non_increasing(total: u64, rank1: u32, rank2: u32)
    requires
        rank1 <= rank2,
    ensures
        (total * rank_percentage(rank1)) / 100 >= (total * rank_percentage(rank2)) / 100,
        rank_percentage(rank1) >= rank_percentage(rank2),
{
    let p1 = rank_percentage(rank1);
    let p2 = rank_percentage(rank2);
    assert(p1 >= p2);
    assert(total * p1 >= total * p2) by (nonlinear_arith)
        requires
            p1 >= p2,
            total >= 0,
    ;
    assert((total * p1) / 100 >= (total * p2) / 100) by (nonlinear_arith)
        requires
            total * p1 >= total * p2,
    ;
}

/// Check that there are winners to pay; the host then publishes one payout
/// event per winner.
pub fn distribute_to_winners(match_id: &String, winners: &Vec<String>, amount_per_winner: u64) -> (r:
    Result<(), MatchError>)
    ensures
        winners.len() == 0 ==> r == Err::<(), MatchError>(MatchError::NoWinners),
        winners.len() > 0 ==> r is Ok,
{
    if winners.len() == 0 {
        return Err(MatchError::NoWinners);
    }
    Ok(())
}

} // verus!
