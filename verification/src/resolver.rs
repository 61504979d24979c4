//! Result submission and disputes: a submitted result opens a 24-hour
//! window in which the loser may dispute it; after the window anyone may
//! finalise it.
//!
//! `ResolverContract` holds the contract's stored state as plain values. Each
//! method decides one contract call; the host authorises the addresses the
//! method names and publishes events. A method that returns an error leaves
//! the state unchanged.
pub mod dispute_evidence;
pub mod events;
pub mod laws;
pub mod signature_verification;
pub mod storage_optimization;
pub mod utils;
pub mod validation;

use vstd::prelude::*;
use crate::assoc::AssocList;

verus! {

/// Seconds after submission during which a result may be disputed.
pub const DISPUTE_WINDOW_SECS: u64 = 86400;

#[derive(Clone, Copy, Debug, PartialEq, Eq, Structural, PartialOrd, Ord)]
pub enum Error {
    AlreadyInitialized,
    NotInitialized,
    Paused,
    ResultExists,
    NoResult,
    DisputeClosed,
    OnlyLoser,
    DisputeWindowOpen,
    NoEvidence,
    Unauthorized,
}

#[derive(Clone, Copy, Debug, PartialEq, Eq, Structural)]
pub enum ResultStatus {
    /// Submitted, dispute window open.
    Pending,
    /// Challenge filed.
    Disputed,
    /// Dispute window closed, result is final.
    Finalized,
}

/// Keys of the contract's instance storage.
#[derive(Clone, Copy, Debug, PartialEq, Eq, Structural, PartialOrd, Ord)]
pub enum DataKey {
    Admin,
    IsPaused,
}

pub struct GameResult {
    pub winner: String,
    pub loser: String,
    /// How the game ended: "checkmate", "resignation", "timeout", ...
    pub reason: String,
    pub submitter: String,
    /// Off-chain proof reference (such as a signed transcript hash).
    pub proof: Vec<u8>,
    pub submitted_at: u64,
    pub status: ResultStatus,
}

pub struct GameResultView {
    pub winner: Seq<char>,
    pub loser: Seq<char>,
    pub reason: Seq<char>,
    pub submitter: Seq<char>,
    pub proof: Seq<u8>,
    pub submitted_at: u64,
    pub status: ResultStatus,
}

impl DeepView for GameResult {
    type V = GameResultView;

    open spec fn deep_view(&self) -> GameResultView {
        GameResultView {
            winner: self.winner@,
            loser: self.loser@,
            reason: self.reason@,
            submitter: self.submitter@,
            proof: self.proof@,
            submitted_at: self.submitted_at,
            status: self.status,
        }
    }
}

/// A byte vector's deep view is its view.
pub proof fn lemma_bytes_deep_view(v: Vec<u8>)
    ensures
        v.deep_view() == v@,
{
    assert(v.deep_view() =~= v@);
}

fn copy_bytes(v: &Vec<u8>) -> (r: Vec<u8>)
    ensures
        r@ == v@,
{
    let mut out: Vec<u8> = Vec::new();
    let mut i: usize = 0;
    while i < v.len()
        invariant
            0 <= i <= v.len(),
            out@ == v@.subrange(0, i as int),
        decreases v.len() - i,
    {
        out.push(v[i]);
        i += 1;
    }
    assert(out@ =~= v@);
    out
}

impl GameResult {
    /// A copy of the result.
    pub fn duplicate(&self) -> (r: Self)
        ensures
            r.deep_view() == self.deep_view(),
    {
        GameResult {
            winner: self.winner.clone(),
            loser: self.loser.clone(),
            reason: self.reason.clone(),
            submitter: self.submitter.clone(),
            proof: copy_bytes(&self.proof),
            submitted_at: self.submitted_at,
            status: self.status,
        }
    }
}

/// What the resolver contract has stored.
#[verifier::ext_equal]
pub struct ResolverModel {
    pub admin: Option<Seq<char>>,
    pub is_paused: Option<bool>,
    /// Results per match.
    pub results: Map<Seq<char>, GameResultView>,
    /// Number of disputes per match.
    pub dispute_counts: Map<Seq<char>, u32>,
    /// Dispute evidence per (match, dispute index).
    pub evidence: Map<(Seq<char>, u32), Seq<u8>>,
}

impl ResolverModel {
    pub open spec fn paused(self) -> bool {
        self.is_paused == Some(true)
    }

    /// Disputes filed for a match, 0 while unset.
    pub open spec fn dispute_count(self, m: Seq<char>) -> u32 {
        if self.dispute_counts.contains_key(m) {
            self.dispute_counts[m]
        } else {
            0
        }
    }

    pub open spec fn initialize_result(self) -> Result<(), Error> {
        if self.admin is Some {
            Err(Error::AlreadyInitialized)
        } else {
            Ok(())
        }
    }

    pub open spec fn initialized(self, admin: Seq<char>) -> Self {
        ResolverModel { admin: Some(admin), is_paused: Some(false), ..self }
    }

    pub open spec fn submit_result(self, m: Seq<char>) -> Result<(), Error> {
        if self.paused() {
            Err(Error::Paused)
        } else if self.results.contains_key(m) {
            Err(Error::ResultExists)
        } else {
            Ok(())
        }
    }

    pub open spec fn submitted(self, m: Seq<char>, result: GameResultView) -> Self {
        ResolverModel { results: self.results.insert(m, result), ..self }
    }

    /// A dispute reaches its window check, where it adds the window to the
    /// submission time: a result is stored, `caller` is its loser and it is
    /// not final.
    pub open spec fn dispute_reaches_window(self, m: Seq<char>, caller: Seq<char>) -> bool {
        &&& self.results.contains_key(m)
        &&& caller == self.results[m].loser
        &&& self.results[m].status != ResultStatus::Finalized
    }

    /// Only the recorded loser may dispute, and only while the result is not
    /// final and its window is open: at most `DISPUTE_WINDOW_SECS` after
    /// submission.
    pub open spec fn dispute_result(self, m: Seq<char>, caller: Seq<char>, now: u64) -> Result<(), Error> {
        if !self.results.contains_key(m) {
            Err(Error::NoResult)
        } else if caller != self.results[m].loser {
            Err(Error::OnlyLoser)
        } else if self.results[m].status == ResultStatus::Finalized {
            Err(Error::DisputeClosed)
        } else if now > self.results[m].submitted_at + DISPUTE_WINDOW_SECS {
            Err(Error::DisputeClosed)
        } else {
            Ok(())
        }
    }

    /// Finalisation reaches its window check: a result is stored.
    pub open spec fn finalize_reaches_window(self, m: Seq<char>) -> bool {
        self.results.contains_key(m)
    }

    pub open spec fn disputed(self, m: Seq<char>, evidence: Seq<u8>) -> Self {
        let count = self.dispute_count(m);
        ResolverModel {
            evidence: self.evidence.insert((m, count), evidence),
            dispute_counts: self.dispute_counts.insert(m, (count + 1) as u32),
            results: self.results.insert(m, GameResultView { status: ResultStatus::Disputed, ..self.results[m] }),
            ..self
        }
    }

    pub open spec fn finalize_result(self, m: Seq<char>, now: u64) -> Result<Seq<char>, Error> {
        if !self.results.contains_key(m) {
            Err(Error::NoResult)
        } else if now < self.results[m].submitted_at + DISPUTE_WINDOW_SECS {
            Err(Error::DisputeWindowOpen)
        } else {
            Ok(self.results[m].winner)
        }
    }

    pub open spec fn finalized(self, m: Seq<char>) -> Self {
        ResolverModel {
            results: self.results.insert(m, GameResultView { status: ResultStatus::Finalized, ..self.results[m] }),
            ..self
        }
    }

    pub open spec fn admin_check(self) -> Result<(), Error> {
        if self.admin is Some {
            Ok(())
        } else {
            Err(Error::NotInitialized)
        }
    }
}

/// The resolver contract's stored state.
pub struct ResolverContract {
    pub admin: Option<String>,
    pub is_paused: Option<bool>,
    pub results: AssocList<String, GameResult>,
    pub dispute_counts: AssocList<String, u32>,
    pub evidence: AssocList<(String, u32), Vec<u8>>,
}

impl View for ResolverContract {
    type V = ResolverModel;

    open spec fn view(&self) -> ResolverModel {
        ResolverModel {
            admin: self.admin.deep_view(),
            is_paused: self.is_paused,
            results: self.results.map(),
            dispute_counts: self.dispute_counts.map(),
            evidence: self.evidence.map(),
        }
    }
}

impl ResolverContract {
    /// A contract with nothing stored.
    pub fn new() -> (r: Self)
        ensures
            r@.admin is None,
            r@.is_paused is None,
            r@.results == Map::<Seq<char>, GameResultView>::empty(),
            r@.dispute_counts == Map::<Seq<char>, u32>::empty(),
            r@.evidence == Map::<(Seq<char>, u32), Seq<u8>>::empty(),
    {
        ResolverContract {
            admin: None,
            is_paused: None,
            results: AssocList::new(),
            dispute_counts: AssocList::new(),
            evidence: AssocList::new(),
        }
    }

    /// Initialise with the admin, once. The admin must authorise the call.
    pub fn initialize(&mut self, admin: String) -> (r: Result<(), Error>)
        ensures
            r == old(self)@.initialize_result(),
            r is Ok ==> final(self)@ == old(self)@.initialized(admin@),
            r is Err ==> final(self)@ == old(self)@,
    {
        if self.admin.is_some() {
            return Err(Error::AlreadyInitialized);
        }
        self.admin = Some(admin);
        self.is_paused = Some(false);
        Ok(())
    }

    /// Record the result of `match_id`, submitted at time `now`; it is
    /// pending and its dispute window opens. The submitter must authorise the
    /// call.
    pub fn submit_result(
        &mut self,
        match_id: String,
        winner: String,
        loser: String,
        reason: String,
        proof: Vec<u8>,
        submitter: String,
        now: u64,
    ) -> (r: Result<(), Error>)
        ensures
            r == old(self)@.submit_result(match_id@),
            r is Ok ==> final(self)@ == old(self)@.submitted(
                match_id@,
                GameResultView {
                    winner: winner@,
                    loser: loser@,
                    reason: reason@,
                    submitter: submitter@,
                    proof: proof@,
                    submitted_at: now,
                    status: ResultStatus::Pending,
                },
            ),
            r is Err ==> final(self)@ == old(self)@,
    {
        self.require_not_paused()?;
        if self.results.contains(&match_id) {
            return Err(Error::ResultExists);
        }
        let result = GameResult {
            winner,
            loser,
            reason,
            submitter,
            proof,
            submitted_at: now,
            status: ResultStatus::Pending,
        };
        self.results.insert(match_id, result);
        Ok(())
    }

    /// File a dispute of the result of `match_id` at time `now`, with
    /// `evidence`. `caller`, who must authorise the call, must be the
    /// recorded loser. A final result cannot be disputed, and neither can one
    /// whose window has closed.
    pub fn dispute(&mut self, match_id: &String, caller: &String, evidence: Vec<u8>, now: u64) -> (r: Result<
        (),
        Error,
    >)
        requires
            old(self)@.dispute_reaches_window(match_id@, caller@) ==> old(self)@.results[match_id@].submitted_at
                + DISPUTE_WINDOW_SECS <= u64::MAX,
            old(self)@.dispute_result(match_id@, caller@, now) is Ok ==> old(self)@.dispute_count(match_id@)
                < u32::MAX,
        ensures
            r == old(self)@.dispute_result(match_id@, caller@, now),
            r is Ok ==> final(self)@ == old(self)@.disputed(match_id@, evidence@),
            r is Err ==> final(self)@ == old(self)@,
    {
        let ghost old_view = self@;
        let mut result = match self.results.get(match_id) {
            Some(res) => res.duplicate(),
            None => {
                return Err(Error::NoResult);
            },
        };
        if !(*caller == result.loser) {
            return Err(Error::OnlyLoser);
        }
        if result.status == ResultStatus::Finalized {
            return Err(Error::DisputeClosed);
        }
        if now > result.submitted_at + DISPUTE_WINDOW_SECS {
            return Err(Error::DisputeClosed);
        }
        let dispute_count: u32 = match self.dispute_counts.get(match_id) {
            Some(c) => *c,
            None => 0,
        };
        proof {
            lemma_bytes_deep_view(evidence);
        }
        self.evidence.insert((match_id.clone(), dispute_count), evidence);
        self.dispute_counts.insert(match_id.clone(), dispute_count + 1);
        result.status = ResultStatus::Disputed;
        self.results.insert(match_id.clone(), result);
        proof {
            let n = old_view.disputed(match_id@, evidence@);
            assert(self@.evidence =~= n.evidence);
            assert(self@.dispute_counts =~= n.dispute_counts);
            assert(self@.results =~= n.results);
            assert(self@ =~= n);
        }
        Ok(())
    }

    /// Whether a dispute with these arguments would overflow, where the
    /// contract's arithmetic fails: at the window check, or when counting one
    /// more dispute.
    pub fn dispute_would_overflow(&self, match_id: &String, caller: &String, now: u64) -> (r: bool)
        ensures
            r == ((self@.dispute_reaches_window(match_id@, caller@) && self@.results[match_id@].submitted_at
                + DISPUTE_WINDOW_SECS > u64::MAX) || (self@.dispute_result(match_id@, caller@, now) is Ok
                && self@.dispute_count(match_id@) == u32::MAX)),
    {
        let (loser, status, submitted_at) = match self.results.get(match_id) {
            Some(res) => (&res.loser, res.status, res.submitted_at),
            None => {
                return false;
            },
        };
        if !(*caller == *loser) || status == ResultStatus::Finalized {
            return false;
        }
        let end = match submitted_at.checked_add(DISPUTE_WINDOW_SECS) {
            Some(e) => e,
            None => {
                return true;
            },
        };
        if now > end {
            return false;
        }
        self.get_dispute_count(match_id) == u32::MAX
    }

    /// Whether finalising `match_id` would overflow at its window check, where
    /// the contract's arithmetic fails.
    pub fn finalize_would_overflow(&self, match_id: &String) -> (r: bool)
        ensures
            r == (self@.finalize_reaches_window(match_id@) && self@.results[match_id@].submitted_at
                + DISPUTE_WINDOW_SECS > u64::MAX),
    {
        match self.results.get(match_id) {
            Some(res) => res.submitted_at.checked_add(DISPUTE_WINDOW_SECS).is_none(),
            None => false,
        }
    }

    /// Finalise the result of `match_id` once its window has passed at time
    /// `now`; anyone may call. Hands back the winner.
    pub fn finalize(&mut self, match_id: &String, now: u64) -> (r: Result<String, Error>)
        requires
            old(self)@.finalize_reaches_window(match_id@) ==> old(self)@.results[match_id@].submitted_at
                + DISPUTE_WINDOW_SECS <= u64::MAX,
        ensures
            match r {
                Ok(w) => old(self)@.finalize_result(match_id@, now) == Ok::<Seq<char>, Error>(w@),
                Err(e) => old(self)@.finalize_result(match_id@, now) == Err::<Seq<char>, Error>(e),
            },
            r is Ok ==> final(self)@ == old(self)@.finalized(match_id@),
            r is Err ==> final(self)@ == old(self)@,
    {
        let mut result = match self.results.get(match_id) {
            Some(res) => res.duplicate(),
            None => {
                return Err(Error::NoResult);
            },
        };
        if now < result.submitted_at + DISPUTE_WINDOW_SECS {
            return Err(Error::DisputeWindowOpen);
        }
        result.status = ResultStatus::Finalized;
        let winner = result.winner.clone();
        self.results.insert(match_id.clone(), result);
        Ok(winner)
    }

    /// The winner and status of the result of `match_id`.
    pub fn query_result_status(&self, match_id: &String) -> (r: Result<(String, ResultStatus), Error>)
        ensures
            !self@.results.contains_key(match_id@) ==> r == Err::<(String, ResultStatus), Error>(Error::NoResult),
            self@.results.contains_key(match_id@) ==> r is Ok && r->Ok_0.0@ == self@.results[match_id@].winner
                && r->Ok_0.1 == self@.results[match_id@].status,
    {
        match self.results.get(match_id) {
            Some(res) => Ok((res.winner.clone(), res.status)),
            None => Err(Error::NoResult),
        }
    }

    /// The full recorded result of `match_id`, proof included.
    pub fn get_result(&self, match_id: &String) -> (r: Result<GameResult, Error>)
        ensures
            !self@.results.contains_key(match_id@) ==> r is Err && r->Err_0 == Error::NoResult,
            self@.results.contains_key(match_id@) ==> r is Ok && r->Ok_0.deep_view() == self@.results[match_id@],
    {
        match self.results.get(match_id) {
            Some(res) => Ok(res.duplicate()),
            None => Err(Error::NoResult),
        }
    }

    /// The evidence of dispute number `index` of `match_id`.
    pub fn get_dispute_evidence(&self, match_id: &String, index: u32) -> (r: Result<Vec<u8>, Error>)
        ensures
            !self@.evidence.contains_key((match_id@, index)) ==> r == Err::<Vec<u8>, Error>(Error::NoEvidence),
            self@.evidence.contains_key((match_id@, index)) ==> r is Ok && r->Ok_0@ == self@.evidence[(
                match_id@,
                index,
            )],
    {
        match self.evidence.get(&(match_id.clone(), index)) {
            Some(e) => {
                proof {
                    lemma_bytes_deep_view(*e);
                }
                Ok(copy_bytes(e))
            },
            None => Err(Error::NoEvidence),
        }
    }

    /// Number of disputes filed for `match_id`.
    pub fn get_dispute_count(&self, match_id: &String) -> (r: u32)
        ensures
            r == self@.dispute_count(match_id@),
    {
        match self.dispute_counts.get(match_id) {
            Some(c) => *c,
            None => 0,
        }
    }

    /// Fail while the contract is paused.
    fn require_not_paused(&self) -> (r: Result<(), Error>)
        ensures
            r == (if self@.paused() { Err::<(), Error>(Error::Paused) } else { Ok(()) }),
    {
        let is_paused: bool = match self.is_paused {
            Some(b) => b,
            None => false,
        };
        if is_paused {
            return Err(Error::Paused);
        }
        Ok(())
    }

    /// The admin, who must authorise each admin call.
    pub fn require_admin(&self) -> (r: Result<String, Error>)
        ensures
            match r {
                Ok(a) => self@.admin == Some(a@),
                Err(e) => self@.admin is None && e == Error::NotInitialized,
            },
    {
        match &self.admin {
            Some(a) => Ok(a.clone()),
            None => Err(Error::NotInitialized),
        }
    }

    /// Replace the admin (admin only).
    pub fn set_admin(&mut self, new_admin: String) -> (r: Result<(), Error>)
        ensures
            r == old(self)@.admin_check(),
            r is Ok ==> final(self)@ == (ResolverModel { admin: Some(new_admin@), ..old(self)@ }),
            r is Err ==> final(self)@ == old(self)@,
    {
        if self.admin.is_none() {
            return Err(Error::NotInitialized);
        }
        self.admin = Some(new_admin);
        Ok(())
    }

    /// Pause the contract (admin only): submissions are refused until it is unpaused.
    pub fn pause(&mut self) -> (r: Result<(), Error>)
        ensures
            r == old(self)@.admin_check(),
            r is Ok ==> final(self)@ == (ResolverModel { is_paused: Some(true), ..old(self)@ }),
            r is Err ==> final(self)@ == old(self)@,
    {
        if self.admin.is_none() {
            return Err(Error::NotInitialized);
        }
        self.is_paused = Some(true);
        Ok(())
    }

    /// Unpause the contract (admin only).
    pub fn unpause(&mut self) -> (r: Result<(), Error>)
        ensures
            r == old(self)@.admin_check(),
            r is Ok ==> final(self)@ == (ResolverModel { is_paused: Some(false), ..old(self)@ }),
            r is Err ==> final(self)@ == old(self)@,
    {
        if self.admin.is_none() {
            return Err(Error::NotInitialized);
        }
        self.is_paused = Some(false);
        Ok(())
    }

    /// Whether the contract is paused.
    pub fn is_paused(&self) -> (r: bool)
        ensures
            r == self@.paused(),
    {
        match self.is_paused {
            Some(b) => b,
            None => false,
        }
    }

    /// Check an upgrade of the contract's code (admin only); the host then
    /// installs the new code.
    pub fn upgrade(&self) -> (r: Result<(), Error>)
        ensures
            r == self@.admin_check(),
    {
        if self.admin.is_none() {
            return Err(Error::NotInitialized);
        }
        Ok(())
    }
}

} // verus!
