//! Two-party (up to eight-party) staking pool: stake, query, timeout refund,
//! administration and pausing.
//!
//! `EscrowContract` holds the contract's stored state as plain values. Each
//! method decides one contract call: it checks the call against the state,
//! changes the state and reports what the host still has to do (authorise an
//! address, move tokens, publish an event). A method that returns an error
//! leaves the state unchanged.
pub mod events;
pub mod fee_manager;
pub mod fees;
pub mod laws;
pub mod multiplayer;
pub mod pause_control;
pub mod storage;
pub mod timeout;
pub mod validation;

use vstd::prelude::*;
use crate::assoc::{AssocList, sum_values, lemma_sum_push, lemma_sum_remove, lemma_sum_nonneg};
use crate::text::{clone_list, position_of, list_contains};

verus! {

/// Seconds after a stake from which it may be refunded.
pub const LEDGER_TIMEOUT_SECS: u64 = 86400;

/// Fewest players of a match.
pub const MIN_PLAYERS: u32 = 2;

/// Most players of a match.
pub const MAX_PLAYERS: u32 = 8;

/// Largest fee rate, in basis points.
pub const MAX_FEE_BPS: u32 = 1000;

#[derive(Clone, Copy, Debug, PartialEq, Eq, Structural, PartialOrd, Ord)]
pub enum Error {
    AlreadyInitialized,
    NotInitialized,
    InvalidFee,
    Paused,
    ZeroAmount,
    AlreadyStaked,
    TooManyPlayers,
    NotEnoughPlayers,
    NotTimedOut,
    NoStake,
    Unauthorized,
}

/// Keys of the contract's instance storage.
#[derive(Clone, Copy, Debug, PartialEq, Eq, Structural, PartialOrd, Ord)]
pub enum DataKey {
    Admin,
    FeeCollector,
    FeeBps,
    IsPaused,
    TotalEscrow,
}

#[verifier::ext_equal]
/// What the escrow contract has stored: each instance entry may be absent, and
/// the persistent entries are keyed by match id and (match id, player).
pub struct EscrowModel {
    pub admin: Option<Seq<char>>,
    pub fee_collector: Option<Seq<char>>,
    pub fee_bps: Option<u32>,
    pub is_paused: Option<bool>,
    pub total_escrow: Option<u128>,
    pub players: Map<Seq<char>, Seq<Seq<char>>>,
    pub stakes: Map<(Seq<char>, Seq<char>), u128>,
    pub stake_times: Map<(Seq<char>, Seq<char>), u64>,
}

impl EscrowModel {
    /// The pause flag, false while unset.
    pub open spec fn paused(self) -> bool {
        self.is_paused == Some(true)
    }

    /// The escrow total, 0 while unset.
    pub open spec fn total(self) -> u128 {
        match self.total_escrow {
            Some(t) => t,
            None => 0,
        }
    }

    /// The players of a match, empty while unset.
    pub open spec fn players_of(self, m: Seq<char>) -> Seq<Seq<char>> {
        if self.players.contains_key(m) {
            self.players[m]
        } else {
            Seq::empty()
        }
    }

    /// The stake of a player in a match, 0 while unset.
    pub open spec fn stake_of(self, m: Seq<char>, p: Seq<char>) -> u128 {
        if self.stakes.contains_key((m, p)) {
            self.stakes[(m, p)]
        } else {
            0
        }
    }

    /// No match lists a player twice or more than `MAX_PLAYERS` players, a
    /// player is listed in a match exactly when a stake and a stake time are
    /// recorded for that player in that match, and every recorded stake is
    /// positive.
    pub open spec fn players_consistent(self) -> bool {
        &&& forall|m: Seq<char>| #[trigger]
            self.players.contains_key(m) ==> self.players[m].no_duplicates() && self.players[m].len()
                <= MAX_PLAYERS
        &&& forall|m: Seq<char>, p: Seq<char>| #[trigger]
            self.stakes.contains_key((m, p)) <==> self.players_of(m).contains(p)
        &&& forall|m: Seq<char>, p: Seq<char>| #[trigger]
            self.stake_times.contains_key((m, p)) <==> self.stakes.contains_key((m, p))
        &&& forall|m: Seq<char>, p: Seq<char>| #[trigger]
            self.stakes.contains_key((m, p)) ==> self.stakes[(m, p)] > 0
    }

    pub open spec fn initialize_result(self, fee_bps: u32) -> Result<(), Error> {
        if self.admin is Some {
            Err(Error::AlreadyInitialized)
        } else if fee_bps > MAX_FEE_BPS {
            Err(Error::InvalidFee)
        } else {
            Ok(())
        }
    }

    pub open spec fn initialized(self, admin: Seq<char>, fee_collector: Seq<char>, fee_bps: u32) -> Self {
        EscrowModel {
            admin: Some(admin),
            fee_collector: Some(fee_collector),
            fee_bps: Some(fee_bps),
            is_paused: Some(false),
            total_escrow: Some(0),
            ..self
        }
    }

    pub open spec fn stake_result(self, m: Seq<char>, p: Seq<char>, amount: u128) -> Result<(), Error> {
        if self.paused() {
            Err(Error::Paused)
        } else if amount == 0 {
            Err(Error::ZeroAmount)
        } else if self.players_of(m).contains(p) {
            Err(Error::AlreadyStaked)
        } else if self.players_of(m).len() >= MAX_PLAYERS {
            Err(Error::TooManyPlayers)
        } else {
            Ok(())
        }
    }

    pub open spec fn staked(self, m: Seq<char>, p: Seq<char>, amount: u128, now: u64) -> Self {
        EscrowModel {
            players: self.players.insert(m, self.players_of(m).push(p)),
            stakes: self.stakes.insert((m, p), amount),
            stake_times: self.stake_times.insert((m, p), now),
            total_escrow: Some((self.total() + amount) as u128),
            ..self
        }
    }

    /// The refund reaches its deadline check, where it adds the timeout to the stake time.
    pub open spec fn refund_reaches_deadline(self, m: Seq<char>, p: Seq<char>, caller: Seq<char>) -> bool {
        &&& self.admin is Some
        &&& (caller == p || caller == self.admin->0)
        &&& self.stakes.contains_key((m, p))
        &&& self.stake_times.contains_key((m, p))
    }

    pub open spec fn refund_result(self, m: Seq<char>, p: Seq<char>, caller: Seq<char>, now: u64) -> Result<
        u128,
        Error,
    > {
        match self.admin {
            None => Err(Error::NotInitialized),
            Some(admin) => if caller != p && caller != admin {
                Err(Error::Unauthorized)
            } else if !self.stakes.contains_key((m, p)) {
                Err(Error::NoStake)
            } else if !self.stake_times.contains_key((m, p)) {
                Err(Error::NoStake)
            } else if now < self.stake_times[(m, p)] + LEDGER_TIMEOUT_SECS {
                Err(Error::NotTimedOut)
            } else {
                Ok(self.stakes[(m, p)])
            },
        }
    }

    pub open spec fn refunded(self, m: Seq<char>, p: Seq<char>) -> Self {
        let amount = self.stakes[(m, p)];
        let list = self.players_of(m);
        EscrowModel {
            stakes: self.stakes.remove((m, p)),
            stake_times: self.stake_times.remove((m, p)),
            players: if list.contains(p) {
                self.players.insert(m, list.remove_value(p))
            } else {
                self.players
            },
            total_escrow: Some(
                if self.total() >= amount {
                    (self.total() - amount) as u128
                } else {
                    0
                },
            ),
            ..self
        }
    }

    /// The admin, who must authorise an admin call.
    pub open spec fn admin_result(self) -> Result<Seq<char>, Error> {
        match self.admin {
            Some(a) => Ok(a),
            None => Err(Error::NotInitialized),
        }
    }

    pub open spec fn fee_bps_result(self, new_fee_bps: u32) -> Result<(), Error> {
        if self.admin is None {
            Err(Error::NotInitialized)
        } else if new_fee_bps > MAX_FEE_BPS {
            Err(Error::InvalidFee)
        } else {
            Ok(())
        }
    }
}

/// The escrow contract's stored state.
pub struct EscrowContract {
    pub admin: Option<String>,
    pub fee_collector: Option<String>,
    pub fee_bps: Option<u32>,
    pub is_paused: Option<bool>,
    pub total_escrow: Option<u128>,
    pub players: AssocList<String, Vec<String>>,
    pub stakes: AssocList<(String, String), u128>,
    pub stake_times: AssocList<(String, String), u64>,
}

impl View for EscrowContract {
    type V = EscrowModel;

    open spec fn view(&self) -> EscrowModel {
        EscrowModel {
            admin: self.admin.deep_view(),
            fee_collector: self.fee_collector.deep_view(),
            fee_bps: self.fee_bps,
            is_paused: self.is_paused,
            total_escrow: self.total_escrow,
            players: self.players.map(),
            stakes: self.stakes.map(),
            stake_times: self.stake_times.map(),
        }
    }
}

impl EscrowContract {
    /// The sum of all recorded stakes.
    pub open spec fn staked_sum(&self) -> int {
        sum_values(self.stakes.pairs())
    }

    /// The recorded escrow total is the sum of all recorded stakes.
    pub open spec fn total_tracks_stakes(&self) -> bool {
        self@.total() == self.staked_sum()
    }

    /// A contract with nothing stored.
    pub fn new() -> (r: Self)
        ensures
            r@.admin is None,
            r@.fee_collector is None,
            r@.fee_bps is None,
            r@.is_paused is None,
            r@.total_escrow is None,
            r@.players == Map::<Seq<char>, Seq<Seq<char>>>::empty(),
            r@.stakes == Map::<(Seq<char>, Seq<char>), u128>::empty(),
            r@.stake_times == Map::<(Seq<char>, Seq<char>), u64>::empty(),
            r@.players_consistent(),
            r.staked_sum() == 0,
            r.total_tracks_stakes(),
    {
        let r = EscrowContract {
            admin: None,
            fee_collector: None,
            fee_bps: None,
            is_paused: None,
            total_escrow: None,
            players: AssocList::new(),
            stakes: AssocList::new(),
            stake_times: AssocList::new(),
        };
        r
    }

    /// Initialise with admin, fee collector and fee rate (basis points, at
    /// most 1000). Only once. The admin must authorise the call.
    pub fn initialize(&mut self, admin: String, fee_collector: String, fee_bps: u32) -> (r: Result<
        (),
        Error,
    >)
        ensures
            r == old(self)@.initialize_result(fee_bps),
            r is Ok ==> final(self)@ == old(self)@.initialized(admin@, fee_collector@, fee_bps),
            r is Err ==> final(self)@ == old(self)@,
            final(self).staked_sum() == old(self).staked_sum(),
            old(self)@.players_consistent() ==> final(self)@.players_consistent(),
            old(self).staked_sum() == 0 && old(self).total_tracks_stakes()
                ==> final(self).total_tracks_stakes(),
    {
        if self.admin.is_some() {
            return Err(Error::AlreadyInitialized);
        }
        if fee_bps > MAX_FEE_BPS {
            return Err(Error::InvalidFee);
        }
        self.admin = Some(admin);
        self.fee_collector = Some(fee_collector);
        self.fee_bps = Some(fee_bps);
        self.is_paused = Some(false);
        self.total_escrow = Some(0);
        Ok(())
    }

    /// Record the stake of `player` in `match_id`, taken at time `now`. The
    /// player must authorise the call, and on success `amount` of the asset
    /// moves from the player to the contract.
    pub fn stake(&mut self, match_id: String, player: String, amount: u128, now: u64) -> (r: Result<
        (),
        Error,
    >)
        requires
            old(self)@.stake_result(match_id@, player@, amount) is Ok ==> old(self)@.total() + amount
                <= u128::MAX,
        ensures
            r == old(self)@.stake_result(match_id@, player@, amount),
            r is Ok ==> final(self)@ == old(self)@.staked(match_id@, player@, amount, now),
            r is Err ==> final(self)@ == old(self)@,
            old(self)@.players_consistent() ==> final(self)@.players_consistent(),
            old(self)@.players_consistent() && r is Ok ==> final(self).staked_sum() == old(self).staked_sum() + amount,
            old(self)@.players_consistent() && old(self).total_tracks_stakes()
                ==> final(self).total_tracks_stakes(),
    {
        self.require_not_paused()?;
        if amount == 0 {
            return Err(Error::ZeroAmount);
        }
        let mut list: Vec<String> = match self.players.get(&match_id) {
            Some(l) => clone_list(l),
            None => Vec::new(),
        };
        assert(list.deep_view() =~= self@.players_of(match_id@));
        if list_contains(&list, &player) {
            return Err(Error::AlreadyStaked);
        }
        if list.len() >= MAX_PLAYERS as usize {
            return Err(Error::TooManyPlayers);
        }
        let ghost old_self = *self;
        let ghost old_pairs = self.stakes.pairs();
        list.push(player.clone());
        assert(list.deep_view() =~= old_self@.players_of(match_id@).push(player@));
        self.players.insert(match_id.clone(), list);
        self.stakes.insert((match_id.clone(), player.clone()), amount);
        self.stake_times.insert((match_id, player), now);
        let total: u128 = match self.total_escrow {
            Some(t) => t,
            None => 0,
        };
        self.total_escrow = Some(total + amount);
        proof {
            let m = match_id@;
            let p = player@;
            let o = old_self@;
            assert(self@ =~= o.staked(m, p, amount, now));
            if o.players_consistent() {
                assert(!o.stakes.contains_key((m, p)));
                lemma_sum_push(old_pairs, ((m, p), amount));
                let n = self@;
                assert forall|mm: Seq<char>| #[trigger] n.players.contains_key(mm) implies n.players[mm].no_duplicates()
                    && n.players[mm].len() <= MAX_PLAYERS by {
                    if mm == m {
                        let l = o.players_of(m);
                        assert(n.players[mm] == l.push(p));
                        assert forall|i: int, j: int|
                            0 <= i < l.push(p).len() && 0 <= j < l.push(p).len() && i != j implies l.push(p)[i]
                            != l.push(p)[j] by {
                            if i < l.len() && j < l.len() {
                            } else if i < l.len() {
                                assert(l.contains(l[i]));
                            } else {
                                assert(l.contains(l[j]));
                            }
                        }
                    }
                }
                assert forall|mm: Seq<char>, pp: Seq<char>| #[trigger]
                    n.stakes.contains_key((mm, pp)) <==> n.players_of(mm).contains(pp) by {
                    if mm == m {
                        let l = o.players_of(m);
                        if l.push(p).contains(pp) && pp != p {
                            let i = choose|i: int| 0 <= i < l.push(p).len() && l.push(p)[i] == pp;
                            assert(l[i] == pp);
                            assert(l.contains(pp));
                        }
                        if l.contains(pp) {
                            let i = choose|i: int| 0 <= i < l.len() && l[i] == pp;
                            assert(l.push(p)[i] == pp);
                        }
                        if pp == p {
                            assert(l.push(p)[l.len() as int] == p);
                        }
                    }
                }
            }
        }
        Ok(())
    }

    /// Whether a stake with these arguments would pass its checks and then
    /// overflow the escrow total, where the contract's arithmetic fails.
    pub fn stake_would_overflow(&self, match_id: &String, player: &String, amount: u128) -> (r: bool)
        ensures
            r == (self@.stake_result(match_id@, player@, amount) is Ok && self@.total() + amount > u128::MAX),
    {
        if self.require_not_paused().is_err() || amount == 0 {
            return false;
        }
        match self.players.get(match_id) {
            Some(l) => {
                if list_contains(l, player) || l.len() >= MAX_PLAYERS as usize {
                    return false;
                }
            },
            None => {},
        }
        let total: u128 = match self.total_escrow {
            Some(t) => t,
            None => 0,
        };
        total.checked_add(amount).is_none()
    }

    /// Whether a refund with these arguments would reach its deadline check
    /// and overflow there, where the contract's arithmetic fails.
    pub fn refund_would_overflow(&self, match_id: &String, player: &String, caller: &String) -> (r: bool)
        ensures
            r == (self@.refund_reaches_deadline(match_id@, player@, caller@) && self@.stake_times[(
                match_id@,
                player@,
            )] + LEDGER_TIMEOUT_SECS > u64::MAX),
    {
        let admin = match &self.admin {
            Some(a) => a,
            None => {
                return false;
            },
        };
        if !(*caller == *player) && !(*caller == *admin) {
            return false;
        }
        let key = (match_id.clone(), player.clone());
        if !self.stakes.contains(&key) {
            return false;
        }
        match self.stake_times.get(&key) {
            Some(t) => t.checked_add(LEDGER_TIMEOUT_SECS).is_none(),
            None => false,
        }
    }

    /// The stake of `player` in `match_id` (0 when none is recorded).
    pub fn query_stake_balance(&self, match_id: &String, player: &String) -> (r: Result<u128, Error>)
        ensures
            r == Ok::<u128, Error>(self@.stake_of(match_id@, player@)),
    {
        match self.stakes.get(&(match_id.clone(), player.clone())) {
            Some(a) => Ok(*a),
            None => Ok(0),
        }
    }

    /// The players who have staked into `match_id` so far, in staking order.
    pub fn get_match_players(&self, match_id: &String) -> (r: Result<Vec<String>, Error>)
        ensures
            r is Ok,
            r->Ok_0.deep_view() == self@.players_of(match_id@),
    {
        match self.players.get(match_id) {
            Some(l) => Ok(clone_list(l)),
            None => {
                let v: Vec<String> = Vec::new();
                assert(v.deep_view() =~= Seq::<Seq<char>>::empty());
                Ok(v)
            },
        }
    }

    /// Refund the stake of `player` in `match_id` once `LEDGER_TIMEOUT_SECS`
    /// have passed since it was taken. `caller` must be the player or the
    /// admin and must authorise the call. On success the stake, which is
    /// handed back, moves from the contract to the player.
    pub fn timeout_refund(&mut self, match_id: &String, player: &String, caller: &String, now: u64) -> (r:
        Result<u128, Error>)
        requires
            old(self)@.refund_reaches_deadline(match_id@, player@, caller@) ==> old(self)@.stake_times[(
                match_id@,
                player@,
            )] + LEDGER_TIMEOUT_SECS <= u64::MAX,
        ensures
            r == old(self)@.refund_result(match_id@, player@, caller@, now),
            r is Ok ==> final(self)@ == old(self)@.refunded(match_id@, player@),
            r is Err ==> final(self)@ == old(self)@,
            old(self)@.players_consistent() ==> final(self)@.players_consistent(),
            r is Ok ==> final(self).staked_sum() == old(self).staked_sum() - r->Ok_0,
            old(self).total_tracks_stakes() ==> final(self).total_tracks_stakes(),
            old(self).total_tracks_stakes() && r is Ok ==> final(self)@.total() == old(self)@.total() - r->Ok_0,
    {
        let admin = match &self.admin {
            Some(a) => a,
            None => {
                return Err(Error::NotInitialized);
            },
        };
        if !(*caller == *player) && !(*caller == *admin) {
            return Err(Error::Unauthorized);
        }
        let key = (match_id.clone(), player.clone());
        let amount: u128 = match self.stakes.get(&key) {
            Some(a) => *a,
            None => {
                return Err(Error::NoStake);
            },
        };
        let staked_at: u64 = match self.stake_times.get(&key) {
            Some(t) => *t,
            None => {
                return Err(Error::NoStake);
            },
        };
        if now < staked_at + LEDGER_TIMEOUT_SECS {
            return Err(Error::NotTimedOut);
        }
        let ghost old_self = *self;
        let ghost old_pairs = self.stakes.pairs();
        self.stakes.remove(&key);
        self.stake_times.remove(&key);
        let found: Option<(usize, Vec<String>)> = match self.players.get(match_id) {
            Some(l) => match position_of(l, player) {
                Some(i) => Some((i, clone_list(l))),
                None => None,
            },
            None => None,
        };
        proof {
            let o = old_self@;
            if !o.players.contains_key(match_id@) {
                assert(!o.players_of(match_id@).contains(player@));
            }
        }
        match found {
            Some((i, list)) => {
                let mut list = list;
                list.remove(i);
                proof {
                    let l = old_self@.players_of(match_id@);
                    l.index_of_first_ensures(player@);
                    assert(list.deep_view() =~= l.remove_value(player@));
                }
                self.players.insert(match_id.clone(), list);
            },
            None => {},
        }
        let total: u128 = match self.total_escrow {
            Some(t) => t,
            None => 0,
        };
        self.total_escrow = Some(total.saturating_sub(amount));
        proof {
            let m = match_id@;
            let p = player@;
            let o = old_self@;
            assert(self@ =~= o.refunded(m, p));
            let i = choose|i: int|
                0 <= i < old_pairs.len() && #[trigger] old_pairs[i].0 == (m, p) && old_pairs[i].1
                    == o.stakes[(m, p)] && self.stakes.pairs() == old_pairs.remove(i);
            lemma_sum_remove(old_pairs, i);
            lemma_sum_nonneg(self.stakes.pairs());
            if o.players_consistent() {
                let n = self@;
                let l = o.players_of(m);
                assert(l.contains(p));
                l.index_of_first_ensures(p);
                let k = l.index_of_first(p).unwrap();
                assert forall|mm: Seq<char>| #[trigger] n.players.contains_key(mm) implies n.players[mm].no_duplicates()
                    && n.players[mm].len() <= MAX_PLAYERS by {
                    if mm == m {
                        assert(n.players[mm] == l.remove(k));
                        assert forall|a: int, b: int|
                            0 <= a < l.remove(k).len() && 0 <= b < l.remove(k).len() && a != b implies l.remove(
                                k,
                            )[a] != l.remove(k)[b] by {
                            let a2 = if a < k { a } else { a + 1 };
                            let b2 = if b < k { b } else { b + 1 };
                            assert(l.remove(k)[a] == l[a2]);
                            assert(l.remove(k)[b] == l[b2]);
                        }
                    }
                }
                assert forall|mm: Seq<char>, pp: Seq<char>| #[trigger]
                    n.stakes.contains_key((mm, pp)) <==> n.players_of(mm).contains(pp) by {
                    if mm == m {
                        let r = l.remove(k);
                        if r.contains(pp) {
                            let a = choose|a: int| 0 <= a < r.len() && r[a] == pp;
                            let a2 = if a < k { a } else { a + 1 };
                            assert(r[a] == l[a2]);
                            assert(l.contains(pp));
                            assert(pp != p);
                        }
                        if l.contains(pp) && pp != p {
                            let a = choose|a: int| 0 <= a < l.len() && l[a] == pp;
                            assert(a != k);
                            let a2 = if a < k { a } else { a - 1 };
                            assert(r[a2] == pp);
                        }
                    }
                }
            }
        }
        Ok(amount)
    }

    /// Fail while the contract is paused.
    fn require_not_paused(&self) -> (r: Result<(), Error>)
        ensures
            r == (if self@.paused() { Err::<(), Error>(Error::Paused) } else { Ok(()) }),
    {
        let is_paused: bool = match self.is_paused {
            Some(b) => b,
            None => false,
        };
        if is_paused {
            return Err(Error::Paused);
        }
        Ok(())
    }

    /// The admin, who must authorise each admin call.
    pub fn require_admin(&self) -> (r: Result<String, Error>)
        ensures
            match r {
                Ok(a) => self@.admin == Some(a@),
                Err(e) => self@.admin is None && e == Error::NotInitialized,
            },
    {
        match &self.admin {
            Some(a) => Ok(a.clone()),
            None => Err(Error::NotInitialized),
        }
    }

    /// Replace the admin (admin only).
    pub fn set_admin(&mut self, new_admin: String) -> (r: Result<(), Error>)
        ensures
            r == (if old(self)@.admin is Some { Ok(()) } else { Err(Error::NotInitialized) }),
            r is Ok ==> final(self)@ == (EscrowModel { admin: Some(new_admin@), ..old(self)@ }),
            r is Err ==> final(self)@ == old(self)@,
            final(self).staked_sum() == old(self).staked_sum(),
    {
        if self.admin.is_none() {
            return Err(Error::NotInitialized);
        }
        self.admin = Some(new_admin);
        Ok(())
    }

    /// Replace the fee collector (admin only).
    pub fn set_fee_collector(&mut self, new_collector: String) -> (r: Result<(), Error>)
        ensures
            r == (if old(self)@.admin is Some { Ok(()) } else { Err(Error::NotInitialized) }),
            r is Ok ==> final(self)@ == (EscrowModel { fee_collector: Some(new_collector@), ..old(self)@ }),
            r is Err ==> final(self)@ == old(self)@,
            final(self).staked_sum() == old(self).staked_sum(),
    {
        if self.admin.is_none() {
            return Err(Error::NotInitialized);
        }
        self.fee_collector = Some(new_collector);
        Ok(())
    }

    /// Set the fee rate in basis points (admin only, at most 1000).
    pub fn set_fee_bps(&mut self, new_fee_bps: u32) -> (r: Result<(), Error>)
        ensures
            r == old(self)@.fee_bps_result(new_fee_bps),
            r is Ok ==> final(self)@ == (EscrowModel { fee_bps: Some(new_fee_bps), ..old(self)@ }),
            r is Err ==> final(self)@ == old(self)@,
            final(self).staked_sum() == old(self).staked_sum(),
    {
        if self.admin.is_none() {
            return Err(Error::NotInitialized);
        }
        if new_fee_bps > MAX_FEE_BPS {
            return Err(Error::InvalidFee);
        }
        self.fee_bps = Some(new_fee_bps);
        Ok(())
    }

    /// Total amount currently held in escrow across all matches.
    pub fn get_total_escrow(&self) -> (r: u128)
        ensures
            r == self@.total(),
    {
        match self.total_escrow {
            Some(t) => t,
            None => 0,
        }
    }

    /// Pause the contract (admin only): stakes are refused until it is unpaused.
    pub fn pause(&mut self) -> (r: Result<(), Error>)
        ensures
            r == (if old(self)@.admin is Some { Ok(()) } else { Err(Error::NotInitialized) }),
            r is Ok ==> final(self)@ == (EscrowModel { is_paused: Some(true), ..old(self)@ }),
            r is Err ==> final(self)@ == old(self)@,
            final(self).staked_sum() == old(self).staked_sum(),
    {
        if self.admin.is_none() {
            return Err(Error::NotInitialized);
        }
        self.is_paused = Some(true);
        Ok(())
    }

    /// Unpause the contract (admin only).
    pub fn unpause(&mut self) -> (r: Result<(), Error>)
        ensures
            r == (if old(self)@.admin is Some { Ok(()) } else { Err(Error::NotInitialized) }),
            r is Ok ==> final(self)@ == (EscrowModel { is_paused: Some(false), ..old(self)@ }),
            r is Err ==> final(self)@ == old(self)@,
            final(self).staked_sum() == old(self).staked_sum(),
    {
        if self.admin.is_none() {
            return Err(Error::NotInitialized);
        }
        self.is_paused = Some(false);
        Ok(())
    }

    /// Whether the contract is paused.
    pub fn is_paused(&self) -> (r: bool)
        ensures
            r == self@.paused(),
    {
        match self.is_paused {
            Some(b) => b,
            None => false,
        }
    }

    /// Check an upgrade of the contract's code (admin only); the host then
    /// installs the new code.
    pub fn upgrade(&self) -> (r: Result<(), Error>)
        ensures
            r == (if self@.admin is Some { Ok(()) } else { Err(Error::NotInitialized) }),
    {
        if self.admin.is_none() {
            return Err(Error::NotInitialized);
        }
        Ok(())
    }

}

} // verus!
