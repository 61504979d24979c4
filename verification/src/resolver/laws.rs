//! Properties of the resolver contract that span several calls.
use vstd::prelude::*;
use crate::resolver::{ResolverModel, GameResultView, ResultStatus, Error, DISPUTE_WINDOW_SECS};

verus! {

/// A submitted result reads back as its winner with status pending, and a
/// second submission for the same match is refused.
pub proof fn law_submit_then_query(s: ResolverModel, m: Seq<char>, result: GameResultView)
    requires
        s.submit_result(m) is Ok,
        result.status == ResultStatus::Pending,
    ensures
        s.submitted(m, result).results[m].winner == result.winner,
        s.submitted(m, result).results[m].status == ResultStatus::Pending,
        s.submitted(m, result).submit_result(m) == Err::<(), Error>(Error::ResultExists),
{
}

/// A dispute within the window marks the result disputed, stores the evidence
/// under the next dispute index and counts one more dispute.
pub proof fn law_dispute_records_evidence(
    s: ResolverModel,
    m: Seq<char>,
    caller: Seq<char>,
    evidence: Seq<u8>,
    now: u64,
)
    requires
        s.dispute_result(m, caller, now) is Ok,
        s.dispute_count(m) < u32::MAX,
    ensures
        s.disputed(m, evidence).results[m].status == ResultStatus::Disputed,
        s.disputed(m, evidence).results[m].winner == s.results[m].winner,
        s.disputed(m, evidence).evidence[(m, s.dispute_count(m))] == evidence,
        s.disputed(m, evidence).dispute_count(m) == s.dispute_count(m) + 1,
{
}

/// A dispute is accepted exactly when the recorded loser files it while the
/// result is not final and the window is open: at most `DISPUTE_WINDOW_SECS`
/// after submission. Anyone else is refused with `OnlyLoser`.
pub proof fn law_dispute_only_in_window(s: ResolverModel, m: Seq<char>, caller: Seq<char>, now: u64)
    requires
        s.results.contains_key(m),
    ensures
        (s.dispute_result(m, caller, now) is Ok) == (caller == s.results[m].loser && s.results[m].status
            != ResultStatus::Finalized && now <= s.results[m].submitted_at + DISPUTE_WINDOW_SECS),
        caller != s.results[m].loser ==> s.dispute_result(m, caller, now) == Err::<(), Error>(Error::OnlyLoser),
{
}

/// Finalisation is refused while the window is open, and afterwards hands
/// back the submitted winner and marks the result final.
pub proof fn law_finalize_after_window(s: ResolverModel, m: Seq<char>, now: u64)
    requires
        s.results.contains_key(m),
    ensures
        now < s.results[m].submitted_at + DISPUTE_WINDOW_SECS ==> s.finalize_result(m, now) == Err::<
            Seq<char>,
            Error,
        >(Error::DisputeWindowOpen),
        now >= s.results[m].submitted_at + DISPUTE_WINDOW_SECS ==> s.finalize_result(m, now) == Ok::<
            Seq<char>,
            Error,
        >(s.results[m].winner) && s.finalized(m).results[m].status == ResultStatus::Finalized,
{
}

/// Results are immutable once finalised: after a finalisation, every dispute,
/// by anyone and at any time, is refused, and the result stays final and
/// unchanged.
pub proof fn law_finalized_not_disputable(s: ResolverModel, m: Seq<char>, now: u64, caller: Seq<char>, later: u64)
    requires
        s.finalize_result(m, now) is Ok,
    ensures
        s.finalized(m).dispute_result(m, caller, later) is Err,
        s.finalized(m).results[m].status == ResultStatus::Finalized,
        s.finalized(m).results[m] == (GameResultView { status: ResultStatus::Finalized, ..s.results[m] }),
{
}

/// While paused, every submission is refused.
pub proof fn law_paused_refuses_submissions(s: ResolverModel, m: Seq<char>)
    requires
        s.paused(),
    ensures
        s.submit_result(m) == Err::<(), Error>(Error::Paused),
{
}

/// A submission stores exactly the submitted result under its match, with its
/// submission time, and leaves every other match's result as it was. The
/// dispute window it opens runs `DISPUTE_WINDOW_SECS` from that time: the
/// loser may dispute at any time up to its end, and finalisation is refused
/// until then.
pub proof fn law_submission_opens_window(s: ResolverModel, m: Seq<char>, result: GameResultView, t: u64)
    requires
        s.submit_result(m) is Ok,
        result.status == ResultStatus::Pending,
        result.submitted_at + DISPUTE_WINDOW_SECS <= u64::MAX,
    ensures
        s.submitted(m, result).results.contains_key(m),
        s.submitted(m, result).results[m] == result,
        forall|m2: Seq<char>| m2 != m ==> #[trigger] s.submitted(m, result).results.contains_key(m2)
            == s.results.contains_key(m2) && (s.results.contains_key(m2) ==> s.submitted(m, result).results[m2]
            == s.results[m2]),
        t <= result.submitted_at + DISPUTE_WINDOW_SECS ==> s.submitted(m, result).dispute_result(m, result.loser, t)
            == Ok::<(), Error>(()),
        t < result.submitted_at + DISPUTE_WINDOW_SECS ==> s.submitted(m, result).finalize_result(m, t) == Err::<
            Seq<char>,
            Error,
        >(Error::DisputeWindowOpen),
{
}

/// A dispute changes nothing of the result but its status, which becomes
/// disputed: winner, loser, reason, submitter, proof and submission time stay,
/// so the window still ends `DISPUTE_WINDOW_SECS` after submission and
/// finalisation is refused until then. Other matches' results are untouched,
/// and earlier evidence stays.
pub proof fn law_dispute_changes_only_status(
    s: ResolverModel,
    m: Seq<char>,
    caller: Seq<char>,
    evidence: Seq<u8>,
    now: u64,
    t: u64,
)
    requires
        s.dispute_result(m, caller, now) is Ok,
    ensures
        ({
            let before = s.results[m];
            let after = s.disputed(m, evidence).results[m];
            &&& s.disputed(m, evidence).results.contains_key(m)
            &&& after.winner == before.winner
            &&& after.loser == before.loser
            &&& after.reason == before.reason
            &&& after.submitter == before.submitter
            &&& after.proof == before.proof
            &&& after.submitted_at == before.submitted_at
            &&& after.status == ResultStatus::Disputed
            &&& t < before.submitted_at + DISPUTE_WINDOW_SECS ==> s.disputed(m, evidence).finalize_result(m, t)
                == Err::<Seq<char>, Error>(Error::DisputeWindowOpen)
        }),
        forall|m2: Seq<char>| m2 != m ==> #[trigger] s.disputed(m, evidence).results.contains_key(m2)
            == s.results.contains_key(m2) && (s.results.contains_key(m2) ==> s.disputed(m, evidence).results[m2]
            == s.results[m2]),
        forall|k: (Seq<char>, u32)| #[trigger] s.evidence.contains_key(k) && k != (m, s.dispute_count(m))
            ==> s.disputed(m, evidence).evidence.contains_key(k) && s.disputed(m, evidence).evidence[k]
            == s.evidence[k],
{
}

} // verus!
