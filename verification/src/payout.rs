//! Settlement and fee management: an arbiter settles each match once, winner
//! take all or split, keeping a fee; players withdraw their winnings once, and
//! the fee collector withdraws the accrued fees.
//!
//! `PayoutContract` holds the contract's stored state as plain values. Each
//! method decides one contract call; the host authorises the addresses the
//! method names, moves tokens and publishes events. A method that returns an
//! error leaves the state unchanged.
pub mod access_control;
pub mod event_system;
pub mod events;
pub mod laws;
pub mod upgradability;
pub mod utils;
pub mod validation;

use vstd::prelude::*;
use crate::assoc::AssocList;
use crate::escrow::fees::{fee_of, lemma_fee_bounded};

verus! {

/// Largest fee rate, in basis points.
pub const MAX_FEE_BPS: u32 = 1000;

/// Basis points of a whole.
pub const BPS_DENOMINATOR: u32 = 10000;

#[derive(Clone, Copy, Debug, PartialEq, Eq, Structural, PartialOrd, Ord)]
pub enum Error {
    AlreadyInitialized,
    NotInitialized,
    InvalidFee,
    Paused,
    AlreadySettled,
    InvalidSplit,
    NoWinnings,
    AlreadyWithdrawn,
    NoFees,
    Unauthorized,
}

/// Keys of the contract's instance storage.
#[derive(Clone, Copy, Debug, PartialEq, Eq, Structural, PartialOrd, Ord)]
pub enum DataKey {
    Admin,
    FeeCollector,
    Arbiter,
    FeeBps,
    IsPaused,
}

/// What the payout contract has stored.
#[verifier::ext_equal]
pub struct PayoutModel {
    pub admin: Option<Seq<char>>,
    pub fee_collector: Option<Seq<char>>,
    pub arbiter: Option<Seq<char>>,
    pub fee_bps: Option<u32>,
    pub is_paused: Option<bool>,
    /// Accrued fees per asset.
    pub fee_balances: Map<Seq<char>, u128>,
    /// Settled flags per match.
    pub settled: Map<Seq<char>, bool>,
    /// Winnings per (match, player).
    pub winnings: Map<(Seq<char>, Seq<char>), u128>,
    /// Withdrawn flags per (match, player).
    pub withdrawn: Map<(Seq<char>, Seq<char>), bool>,
}

impl PayoutModel {
    pub open spec fn paused(self) -> bool {
        self.is_paused == Some(true)
    }

    /// The fee rate, 0 while unset.
    pub open spec fn fee_rate(self) -> u32 {
        match self.fee_bps {
            Some(b) => b,
            None => 0,
        }
    }

    /// The stored fee rate is never above `MAX_FEE_BPS`.
    pub open spec fn wf(self) -> bool {
        self.fee_rate() <= MAX_FEE_BPS
    }

    /// The accrued fees in `asset`, 0 while unset.
    pub open spec fn fee_balance(self, asset: Seq<char>) -> u128 {
        if self.fee_balances.contains_key(asset) {
            self.fee_balances[asset]
        } else {
            0
        }
    }

    pub open spec fn is_settled(self, m: Seq<char>) -> bool {
        self.settled.contains_key(m) && self.settled[m]
    }

    pub open spec fn has_withdrawn(self, m: Seq<char>, p: Seq<char>) -> bool {
        self.withdrawn.contains_key((m, p)) && self.withdrawn[(m, p)]
    }

    pub open spec fn initialize_result(self, fee_bps: u32) -> Result<(), Error> {
        if self.admin is Some {
            Err(Error::AlreadyInitialized)
        } else if fee_bps > MAX_FEE_BPS {
            Err(Error::InvalidFee)
        } else {
            Ok(())
        }
    }

    /// Initialisation makes the admin the arbiter too.
    pub open spec fn initialized(self, admin: Seq<char>, fee_collector: Seq<char>, fee_bps: u32) -> Self {
        PayoutModel {
            admin: Some(admin),
            arbiter: Some(admin),
            fee_collector: Some(fee_collector),
            fee_bps: Some(fee_bps),
            is_paused: Some(false),
            ..self
        }
    }

    /// The checks every settlement makes before its own: only the arbiter,
    /// authorising as `caller`, may settle.
    pub open spec fn settle_check(self, m: Seq<char>, caller: Seq<char>) -> Result<(), Error> {
        if self.arbiter is None {
            Err(Error::NotInitialized)
        } else if caller != self.arbiter->0 {
            Err(Error::Unauthorized)
        } else if self.paused() {
            Err(Error::Paused)
        } else if self.is_settled(m) {
            Err(Error::AlreadySettled)
        } else {
            Ok(())
        }
    }

    /// Winner take all: (winner's amount, fee).
    pub open spec fn winner_take_all_amounts(self, total_pot: u128) -> (u128, u128) {
        let fee = fee_of(total_pot as int, self.fee_rate() as int);
        ((total_pot - fee) as u128, fee as u128)
    }

    pub open spec fn winner_take_all_result(self, m: Seq<char>, caller: Seq<char>, total_pot: u128) -> Result<
        (u128, u128),
        Error,
    > {
        match self.settle_check(m, caller) {
            Err(e) => Err(e),
            Ok(_) => Ok(self.winner_take_all_amounts(total_pot)),
        }
    }

    pub open spec fn settled_winner_take_all(self, m: Seq<char>, winner: Seq<char>, total_pot: u128, asset: Seq<char>) -> Self {
        let (winner_amount, fee) = self.winner_take_all_amounts(total_pot);
        PayoutModel {
            fee_balances: self.fee_balances.insert(asset, (self.fee_balance(asset) + fee) as u128),
            winnings: self.winnings.insert((m, winner), winner_amount),
            settled: self.settled.insert(m, true),
            ..self
        }
    }

    /// Split: (winner's amount, loser's amount, fee).
    pub open spec fn split_amounts(self, total_pot: u128, winner_split_bps: u32) -> (u128, u128, u128) {
        let fee = fee_of(total_pot as int, self.fee_rate() as int);
        let net = total_pot - fee;
        let winner_amount = fee_of(net, winner_split_bps as int);
        (winner_amount as u128, (net - winner_amount) as u128, fee as u128)
    }

    pub open spec fn split_result(self, m: Seq<char>, caller: Seq<char>, total_pot: u128, winner_split_bps: u32) -> Result<
        (u128, u128, u128),
        Error,
    > {
        match self.settle_check(m, caller) {
            Err(e) => Err(e),
            Ok(_) => if winner_split_bps > BPS_DENOMINATOR {
                Err(Error::InvalidSplit)
            } else {
                Ok(self.split_amounts(total_pot, winner_split_bps))
            },
        }
    }

    pub open spec fn settled_split(
        self,
        m: Seq<char>,
        winner: Seq<char>,
        loser: Seq<char>,
        total_pot: u128,
        winner_split_bps: u32,
        asset: Seq<char>,
    ) -> Self {
        let (winner_amount, loser_amount, fee) = self.split_amounts(total_pot, winner_split_bps);
        PayoutModel {
            fee_balances: self.fee_balances.insert(asset, (self.fee_balance(asset) + fee) as u128),
            winnings: self.winnings.insert((m, winner), winner_amount).insert((m, loser), loser_amount),
            settled: self.settled.insert(m, true),
            ..self
        }
    }

    /// A winner-take-all settlement that passes its checks overflows: the fee
    /// product or the new fee balance does not fit in 128 bits.
    pub open spec fn winner_take_all_overflows(self, m: Seq<char>, caller: Seq<char>, total_pot: u128, asset: Seq<char>) -> bool {
        &&& self.settle_check(m, caller) is Ok
        &&& {
            ||| total_pot * self.fee_rate() > u128::MAX
            ||| self.fee_balance(asset) + fee_of(total_pot as int, self.fee_rate() as int) > u128::MAX
        }
    }

    /// A split settlement that passes its checks overflows: the fee product,
    /// the split product or the new fee balance does not fit in 128 bits.
    pub open spec fn split_overflows(
        self,
        m: Seq<char>,
        caller: Seq<char>,
        total_pot: u128,
        winner_split_bps: u32,
        asset: Seq<char>,
    ) -> bool {
        &&& self.settle_check(m, caller) is Ok
        &&& winner_split_bps <= BPS_DENOMINATOR
        &&& {
            ||| total_pot * self.fee_rate() > u128::MAX
            ||| (total_pot - fee_of(total_pot as int, self.fee_rate() as int)) * winner_split_bps > u128::MAX
            ||| self.fee_balance(asset) + fee_of(total_pot as int, self.fee_rate() as int) > u128::MAX
        }
    }

    pub open spec fn withdraw_winnings_result(self, m: Seq<char>, p: Seq<char>) -> Result<u128, Error> {
        if !self.winnings.contains_key((m, p)) {
            Err(Error::NoWinnings)
        } else if self.has_withdrawn(m, p) {
            Err(Error::AlreadyWithdrawn)
        } else {
            Ok(self.winnings[(m, p)])
        }
    }

    pub open spec fn withdrew_winnings(self, m: Seq<char>, p: Seq<char>) -> Self {
        PayoutModel { withdrawn: self.withdrawn.insert((m, p), true), ..self }
    }

    pub open spec fn withdraw_fees_result(self, asset: Seq<char>) -> Result<u128, Error> {
        if self.fee_collector is None {
            Err(Error::NotInitialized)
        } else if self.fee_balance(asset) == 0 {
            Err(Error::NoFees)
        } else {
            Ok(self.fee_balance(asset))
        }
    }

    pub open spec fn withdrew_fees(self, asset: Seq<char>) -> Self {
        PayoutModel { fee_balances: self.fee_balances.insert(asset, 0), ..self }
    }

    pub open spec fn admin_check(self) -> Result<(), Error> {
        if self.admin is Some {
            Ok(())
        } else {
            Err(Error::NotInitialized)
        }
    }

    pub open spec fn fee_bps_result(self, new_fee_bps: u32) -> Result<(), Error> {
        if self.admin is None {
            Err(Error::NotInitialized)
        } else if new_fee_bps > MAX_FEE_BPS {
            Err(Error::InvalidFee)
        } else {
            Ok(())
        }
    }
}

/// The payout contract's stored state.
pub struct PayoutContract {
    pub admin: Option<String>,
    pub fee_collector: Option<String>,
    pub arbiter: Option<String>,
    pub fee_bps: Option<u32>,
    pub is_paused: Option<bool>,
    pub fee_balances: AssocList<String, u128>,
    pub settled: AssocList<String, bool>,
    pub winnings: AssocList<(String, String), u128>,
    pub withdrawn: AssocList<(String, String), bool>,
}

impl View for PayoutContract {
    type V = PayoutModel;

    open spec fn view(&self) -> PayoutModel {
        PayoutModel {
            admin: self.admin.deep_view(),
            fee_collector: self.fee_collector.deep_view(),
            arbiter: self.arbiter.deep_view(),
            fee_bps: self.fee_bps,
            is_paused: self.is_paused,
            fee_balances: self.fee_balances.map(),
            settled: self.settled.map(),
            winnings: self.winnings.map(),
            withdrawn: self.withdrawn.map(),
        }
    }
}

impl PayoutContract {
    /// A contract with nothing stored.
    pub fn new() -> (r: Self)
        ensures
            r@.admin is None,
            r@.fee_collector is None,
            r@.arbiter is None,
            r@.fee_bps is None,
            r@.is_paused is None,
            r@.fee_balances == Map::<Seq<char>, u128>::empty(),
            r@.settled == Map::<Seq<char>, bool>::empty(),
            r@.winnings == Map::<(Seq<char>, Seq<char>), u128>::empty(),
            r@.withdrawn == Map::<(Seq<char>, Seq<char>), bool>::empty(),
            r@.wf(),
    {
        PayoutContract {
            admin: None,
            fee_collector: None,
            arbiter: None,
            fee_bps: None,
            is_paused: None,
            fee_balances: AssocList::new(),
            settled: AssocList::new(),
            winnings: AssocList::new(),
            withdrawn: AssocList::new(),
        }
    }

    /// Initialise with admin, fee collector and fee rate (at most 1000 basis
    /// points). The admin is also the first arbiter. Only once; the admin
    /// must authorise the call.
    pub fn initialize(&mut self, admin: String, fee_collector: String, fee_bps: u32) -> (r: Result<
        (),
        Error,
    >)
        ensures
            r == old(self)@.initialize_result(fee_bps),
            r is Ok ==> final(self)@ == old(self)@.initialized(admin@, fee_collector@, fee_bps),
            r is Err ==> final(self)@ == old(self)@,
            old(self)@.wf() ==> final(self)@.wf(),
    {
        if self.admin.is_some() {
            return Err(Error::AlreadyInitialized);
        }
        if fee_bps > MAX_FEE_BPS {
            return Err(Error::InvalidFee);
        }
        self.arbiter = Some(admin.clone());
        self.admin = Some(admin);
        self.fee_collector = Some(fee_collector);
        self.fee_bps = Some(fee_bps);
        self.is_paused = Some(false);
        Ok(())
    }

    /// Fail while the contract is paused.
    fn require_not_paused(&self) -> (r: Result<(), Error>)
        ensures
            r == (if self@.paused() { Err::<(), Error>(Error::Paused) } else { Ok(()) }),
    {
        let is_paused: bool = match self.is_paused {
            Some(b) => b,
            None => false,
        };
        if is_paused {
            return Err(Error::Paused);
        }
        Ok(())
    }

    /// The admin, who must authorise each admin call.
    pub fn require_admin(&self) -> (r: Result<String, Error>)
        ensures
            match r {
                Ok(a) => self@.admin == Some(a@),
                Err(e) => self@.admin is None && e == Error::NotInitialized,
            },
    {
        match &self.admin {
            Some(a) => Ok(a.clone()),
            None => Err(Error::NotInitialized),
        }
    }

    /// The arbiter, who must authorise each settlement.
    pub fn require_arbiter(&self) -> (r: Result<String, Error>)
        ensures
            match r {
                Ok(a) => self@.arbiter == Some(a@),
                Err(e) => self@.arbiter is None && e == Error::NotInitialized,
            },
    {
        match &self.arbiter {
            Some(a) => Ok(a.clone()),
            None => Err(Error::NotInitialized),
        }
    }

    /// The fee collector, who must authorise each fee withdrawal.
    pub fn require_fee_collector(&self) -> (r: Result<String, Error>)
        ensures
            match r {
                Ok(a) => self@.fee_collector == Some(a@),
                Err(e) => self@.fee_collector is None && e == Error::NotInitialized,
            },
    {
        match &self.fee_collector {
            Some(a) => Ok(a.clone()),
            None => Err(Error::NotInitialized),
        }
    }

    fn check_settle(&self, match_id: &String, caller: &String) -> (r: Result<(), Error>)
        ensures
            r == self@.settle_check(match_id@, caller@),
    {
        match &self.arbiter {
            None => {
                return Err(Error::NotInitialized);
            },
            Some(a) => if !(*caller == *a) {
                return Err(Error::Unauthorized);
            },
        }
        self.require_not_paused()?;
        match self.settled.get(match_id) {
            Some(s) => if *s {
                return Err(Error::AlreadySettled);
            },
            None => {},
        }
        Ok(())
    }

    fn stored_fee_bps(&self) -> (r: u32)
        requires
            self@.wf(),
        ensures
            r == self@.fee_rate(),
            r <= MAX_FEE_BPS,
    {
        match self.fee_bps {
            Some(b) => b,
            None => 0,
        }
    }

    fn fee_balance_of(&self, asset: &String) -> (r: u128)
        ensures
            r == self@.fee_balance(asset@),
    {
        match self.fee_balances.get(asset) {
            Some(b) => *b,
            None => 0,
        }
    }

    /// Settle `match_id` winner take all: the fee on `total_pot` accrues in
    /// `asset` and the rest becomes the winner's winnings. `caller`, who must
    /// authorise the call, must be the arbiter. Hands back (winner's amount,
    /// fee).
    pub fn resolve_winner_take_all(
        &mut self,
        match_id: &String,
        caller: &String,
        winner: String,
        total_pot: u128,
        asset: &String,
    ) -> (r: Result<(u128, u128), Error>)
        requires
            old(self)@.wf(),
            !old(self)@.winner_take_all_overflows(match_id@, caller@, total_pot, asset@),
        ensures
            r == old(self)@.winner_take_all_result(match_id@, caller@, total_pot),
            r is Ok ==> final(self)@ == old(self)@.settled_winner_take_all(match_id@, winner@, total_pot, asset@),
            r is Err ==> final(self)@ == old(self)@,
            r matches Ok((w, f)) ==> w + f == total_pot,
            final(self)@.wf(),
    {
        self.check_settle(match_id, caller)?;
        let fee_bps = self.stored_fee_bps();
        proof {
            lemma_fee_bounded(total_pot as int, fee_bps as int);
        }
        let fee: u128 = (total_pot * fee_bps as u128) / 10000;
        let winner_amount = total_pot - fee;
        let current_fee_balance = self.fee_balance_of(asset);
        self.fee_balances.insert(asset.clone(), current_fee_balance + fee);
        self.winnings.insert((match_id.clone(), winner), winner_amount);
        self.settled.insert(match_id.clone(), true);
        Ok((winner_amount, fee))
    }

    /// Settle `match_id` with `winner_split_bps` basis points of the pot net
    /// of fees to the winner and the rest to the loser; the fee accrues in
    /// `asset`. `caller`, who must authorise the call, must be the arbiter.
    /// Hands back (winner's amount, loser's amount, fee).
    pub fn resolve_split(
        &mut self,
        match_id: &String,
        caller: &String,
        winner: String,
        loser: String,
        total_pot: u128,
        winner_split_bps: u32,
        asset: &String,
    ) -> (r: Result<(u128, u128, u128), Error>)
        requires
            old(self)@.wf(),
            !old(self)@.split_overflows(match_id@, caller@, total_pot, winner_split_bps, asset@),
        ensures
            r == old(self)@.split_result(match_id@, caller@, total_pot, winner_split_bps),
            r is Ok ==> final(self)@ == old(self)@.settled_split(
                match_id@,
                winner@,
                loser@,
                total_pot,
                winner_split_bps,
                asset@,
            ),
            r is Err ==> final(self)@ == old(self)@,
            r matches Ok((w, l, f)) ==> w + l + f == total_pot,
            final(self)@.wf(),
    {
        self.check_settle(match_id, caller)?;
        if winner_split_bps > BPS_DENOMINATOR {
            return Err(Error::InvalidSplit);
        }
        let fee_bps = self.stored_fee_bps();
        proof {
            lemma_fee_bounded(total_pot as int, fee_bps as int);
        }
        let fee: u128 = (total_pot * fee_bps as u128) / 10000;
        let net_pot = total_pot - fee;
        proof {
            lemma_fee_bounded(net_pot as int, winner_split_bps as int);
        }
        let winner_amount = (net_pot * winner_split_bps as u128) / 10000;
        let loser_amount = net_pot - winner_amount;
        let current_fee_balance = self.fee_balance_of(asset);
        self.fee_balances.insert(asset.clone(), current_fee_balance + fee);
        self.winnings.insert((match_id.clone(), winner), winner_amount);
        self.winnings.insert((match_id.clone(), loser), loser_amount);
        self.settled.insert(match_id.clone(), true);
        Ok((winner_amount, loser_amount, fee))
    }

    /// Whether a winner-take-all settlement with these arguments would pass
    /// its checks and then overflow, where the contract's arithmetic fails.
    pub fn winner_take_all_would_overflow(&self, match_id: &String, caller: &String, total_pot: u128, asset: &String) -> (r:
        bool)
        requires
            self@.wf(),
        ensures
            r == self@.winner_take_all_overflows(match_id@, caller@, total_pot, asset@),
    {
        if self.check_settle(match_id, caller).is_err() {
            return false;
        }
        let fee_bps = self.stored_fee_bps();
        let product = match total_pot.checked_mul(fee_bps as u128) {
            Some(p) => p,
            None => {
                return true;
            },
        };
        let fee = product / 10000;
        self.fee_balance_of(asset).checked_add(fee).is_none()
    }

    /// Whether a split settlement with these arguments would pass its checks
    /// and then overflow, where the contract's arithmetic fails.
    pub fn split_would_overflow(
        &self,
        match_id: &String,
        caller: &String,
        total_pot: u128,
        winner_split_bps: u32,
        asset: &String,
    ) -> (r: bool)
        requires
            self@.wf(),
        ensures
            r == self@.split_overflows(match_id@, caller@, total_pot, winner_split_bps, asset@),
    {
        if self.check_settle(match_id, caller).is_err() || winner_split_bps > BPS_DENOMINATOR {
            return false;
        }
        let fee_bps = self.stored_fee_bps();
        let product = match total_pot.checked_mul(fee_bps as u128) {
            Some(p) => p,
            None => {
                return true;
            },
        };
        let fee = product / 10000;
        proof {
            lemma_fee_bounded(total_pot as int, fee_bps as int);
        }
        let net_pot = total_pot - fee;
        if net_pot.checked_mul(winner_split_bps as u128).is_none() {
            return true;
        }
        self.fee_balance_of(asset).checked_add(fee).is_none()
    }

    /// Withdraw the winnings of `player` in `match_id`, once. The player must
    /// authorise the call, and on success the amount handed back moves from
    /// the contract to the player.
    pub fn withdraw_winnings(&mut self, match_id: &String, player: &String) -> (r: Result<u128, Error>)
        ensures
            r == old(self)@.withdraw_winnings_result(match_id@, player@),
            r is Ok ==> final(self)@ == old(self)@.withdrew_winnings(match_id@, player@),
            r is Err ==> final(self)@ == old(self)@,
            old(self)@.wf() ==> final(self)@.wf(),
    {
        let key = (match_id.clone(), player.clone());
        let amount: u128 = match self.winnings.get(&key) {
            Some(a) => *a,
            None => {
                return Err(Error::NoWinnings);
            },
        };
        match self.withdrawn.get(&key) {
            Some(d) => if *d {
                return Err(Error::AlreadyWithdrawn);
            },
            None => {},
        }
        self.withdrawn.insert(key, true);
        Ok(amount)
    }

    /// Withdraw all fees accrued in `asset`. The fee collector must authorise
    /// the call, and on success the amount handed back moves from the
    /// contract to the collector.
    pub fn withdraw_fees(&mut self, asset: &String) -> (r: Result<u128, Error>)
        ensures
            r == old(self)@.withdraw_fees_result(asset@),
            r is Ok ==> final(self)@ == old(self)@.withdrew_fees(asset@),
            r is Err ==> final(self)@ == old(self)@,
            old(self)@.wf() ==> final(self)@.wf(),
    {
        if self.fee_collector.is_none() {
            return Err(Error::NotInitialized);
        }
        let fee_balance = self.fee_balance_of(asset);
        if fee_balance == 0 {
            return Err(Error::NoFees);
        }
        self.fee_balances.insert(asset.clone(), 0);
        Ok(fee_balance)
    }

    /// The fees accrued in `asset`.
    pub fn get_fee_balance(&self, asset: &String) -> (r: u128)
        ensures
            r == self@.fee_balance(asset@),
    {
        self.fee_balance_of(asset)
    }

    /// Set the fee rate (admin only, at most 1000 basis points).
    pub fn set_fee_bps(&mut self, new_fee_bps: u32) -> (r: Result<(), Error>)
        ensures
            r == old(self)@.fee_bps_result(new_fee_bps),
            r is Ok ==> final(self)@ == (PayoutModel { fee_bps: Some(new_fee_bps), ..old(self)@ }),
            r is Err ==> final(self)@ == old(self)@,
            old(self)@.wf() ==> final(self)@.wf(),
    {
        if self.admin.is_none() {
            return Err(Error::NotInitialized);
        }
        if new_fee_bps > MAX_FEE_BPS {
            return Err(Error::InvalidFee);
        }
        self.fee_bps = Some(new_fee_bps);
        Ok(())
    }

    /// Replace the fee collector (admin only).
    pub fn set_fee_collector(&mut self, new_collector: String) -> (r: Result<(), Error>)
        ensures
            r == old(self)@.admin_check(),
            r is Ok ==> final(self)@ == (PayoutModel { fee_collector: Some(new_collector@), ..old(self)@ }),
            r is Err ==> final(self)@ == old(self)@,
            old(self)@.wf() ==> final(self)@.wf(),
    {
        if self.admin.is_none() {
            return Err(Error::NotInitialized);
        }
        self.fee_collector = Some(new_collector);
        Ok(())
    }

    /// Replace the arbiter, the only party that may settle matches (admin only).
    pub fn set_arbiter(&mut self, new_arbiter: String) -> (r: Result<(), Error>)
        ensures
            r == old(self)@.admin_check(),
            r is Ok ==> final(self)@ == (PayoutModel { arbiter: Some(new_arbiter@), ..old(self)@ }),
            r is Err ==> final(self)@ == old(self)@,
            old(self)@.wf() ==> final(self)@.wf(),
    {
        if self.admin.is_none() {
            return Err(Error::NotInitialized);
        }
        self.arbiter = Some(new_arbiter);
        Ok(())
    }

    /// Replace the admin (admin only).
    pub fn set_admin(&mut self, new_admin: String) -> (r: Result<(), Error>)
        ensures
            r == old(self)@.admin_check(),
            r is Ok ==> final(self)@ == (PayoutModel { admin: Some(new_admin@), ..old(self)@ }),
            r is Err ==> final(self)@ == old(self)@,
            old(self)@.wf() ==> final(self)@.wf(),
    {
        if self.admin.is_none() {
            return Err(Error::NotInitialized);
        }
        self.admin = Some(new_admin);
        Ok(())
    }

    /// Pause the contract (admin only): settlements are refused until it is unpaused.
    pub fn pause(&mut self) -> (r: Result<(), Error>)
        ensures
            r == old(self)@.admin_check(),
            r is Ok ==> final(self)@ == (PayoutModel { is_paused: Some(true), ..old(self)@ }),
            r is Err ==> final(self)@ == old(self)@,
            old(self)@.wf() ==> final(self)@.wf(),
    {
        if self.admin.is_none() {
            return Err(Error::NotInitialized);
        }
        self.is_paused = Some(true);
        Ok(())
    }

    /// Unpause the contract (admin only).
    pub fn unpause(&mut self) -> (r: Result<(), Error>)
        ensures
            r == old(self)@.admin_check(),
            r is Ok ==> final(self)@ == (PayoutModel { is_paused: Some(false), ..old(self)@ }),
            r is Err ==> final(self)@ == old(self)@,
            old(self)@.wf() ==> final(self)@.wf(),
    {
        if self.admin.is_none() {
            return Err(Error::NotInitialized);
        }
        self.is_paused = Some(false);
        Ok(())
    }

    /// Whether the contract is paused.
    pub fn is_paused(&self) -> (r: bool)
        ensures
            r == self@.paused(),
    {
        match self.is_paused {
            Some(b) => b,
            None => false,
        }
    }

    /// Check an upgrade of the contract's code (admin only); the host then
    /// installs the new code.
    pub fn upgrade(&self) -> (r: Result<(), Error>)
        ensures
            r == self@.admin_check(),
    {
        if self.admin.is_none() {
            return Err(Error::NotInitialized);
        }
        Ok(())
    }
}

} // verus!
