//! Properties of the escrow contract that span several calls.
use vstd::prelude::*;
use crate::escrow::{EscrowContract, EscrowModel, Error, LEDGER_TIMEOUT_SECS};

verus! {

/// After a successful stake, the stake query gives the amount staked, the
/// match lists the player last, and the escrow total has grown by the amount.
pub proof fn law_stake_then_query(s: EscrowModel, m: Seq<char>, p: Seq<char>, amount: u128, now: u64)
    requires
        s.stake_result(m, p, amount) is Ok,
        s.total() + amount <= u128::MAX,
    ensures
        s.staked(m, p, amount, now).stake_of(m, p) == amount,
        s.staked(m, p, amount, now).players_of(m) == s.players_of(m).push(p),
        s.staked(m, p, amount, now).total() == s.total() + amount,
{
}

/// A player cannot stake twice into the same match.
pub proof fn law_no_double_stake(
    s: EscrowModel,
    m: Seq<char>,
    p: Seq<char>,
    amount: u128,
    now: u64,
    amount2: u128,
)
    requires
        s.stake_result(m, p, amount) is Ok,
        amount2 > 0,
    ensures
        s.staked(m, p, amount, now).stake_result(m, p, amount2) == Err::<(), Error>(Error::AlreadyStaked),
{
    assert(s.staked(m, p, amount, now).players_of(m)[s.players_of(m).len() as int] == p);
}

/// While paused, every stake is refused.
pub proof fn law_paused_refuses_stakes(s: EscrowModel, m: Seq<char>, p: Seq<char>, amount: u128)
    requires
        s.paused(),
    ensures
        s.stake_result(m, p, amount) == Err::<(), Error>(Error::Paused),
{
}

/// No refund before the timeout: a refund asked for less than
/// `LEDGER_TIMEOUT_SECS` after the stake is refused.
pub proof fn law_no_early_refund(s: EscrowModel, m: Seq<char>, p: Seq<char>, caller: Seq<char>, now: u64)
    requires
        s.refund_reaches_deadline(m, p, caller),
        now < s.stake_times[(m, p)] + LEDGER_TIMEOUT_SECS,
    ensures
        s.refund_result(m, p, caller, now) == Err::<u128, Error>(Error::NotTimedOut),
{
}

/// Only the player or the admin can have a stake refunded.
pub proof fn law_refund_only_player_or_admin(s: EscrowModel, m: Seq<char>, p: Seq<char>, caller: Seq<char>, now: u64)
    requires
        s.admin matches Some(a) && caller != p && caller != a,
    ensures
        s.refund_result(m, p, caller, now) == Err::<u128, Error>(Error::Unauthorized),
{
}

/// A refund undoes a stake: staking and then refunding (after the timeout,
/// asked by the player) hands the amount back and leaves the match's players,
/// the stakes, the stake times and the total as they were.
pub proof fn law_refund_undoes_stake(s: EscrowModel, m: Seq<char>, p: Seq<char>, amount: u128, now: u64, later: u64)
    requires
        s.players_consistent(),
        s.admin is Some,
        s.stake_result(m, p, amount) is Ok,
        s.total() + amount <= u128::MAX,
        now + LEDGER_TIMEOUT_SECS <= later,
    ensures
        s.staked(m, p, amount, now).refund_result(m, p, p, later) == Ok::<u128, Error>(amount),
        s.staked(m, p, amount, now).refunded(m, p).players_of(m) == s.players_of(m),
        s.staked(m, p, amount, now).refunded(m, p).stakes == s.stakes,
        s.staked(m, p, amount, now).refunded(m, p).stake_times == s.stake_times,
        s.staked(m, p, amount, now).refunded(m, p).total() == s.total(),
{
    let t = s.staked(m, p, amount, now);
    let l = s.players_of(m);
    let lp = l.push(p);
    assert(t.players_of(m) == lp);
    assert(lp[l.len() as int] == p);
    assert(lp.contains(p));
    lp.index_of_first_ensures(p);
    let k = lp.index_of_first(p).unwrap();
    assert(k == l.len()) by {
        if k < l.len() {
            assert(lp[k] == l[k]);
            assert(l.contains(p));
        }
    }
    assert(lp.remove_value(p) =~= l);
    assert(!s.stakes.contains_key((m, p)));
    assert(!s.stake_times.contains_key((m, p)));
    assert(t.refunded(m, p).stakes =~= s.stakes);
    assert(t.refunded(m, p).stake_times =~= s.stake_times);
    if s.players.contains_key(m) {
        assert(t.refunded(m, p).players =~= s.players.insert(m, l));
        assert(s.players.insert(m, l) =~= s.players);
    }
}

/// The escrow total is what the listed players have staked. `new` gives a
/// state where this holds, and `initialize` (on a state with no stakes),
/// `stake` and `timeout_refund` keep it, whether they succeed or fail. In
/// such a state the total is the sum of the recorded stakes, a stake is
/// recorded exactly for each listed player, and a player is listed in a match
/// exactly when their stake there is positive.
pub proof fn law_total_is_listed_stakes(c: EscrowContract, m: Seq<char>, p: Seq<char>)
    requires
        c@.players_consistent(),
        c.total_tracks_stakes(),
    ensures
        c@.total() == c.staked_sum(),
        c@.stakes.contains_key((m, p)) <==> c@.players_of(m).contains(p),
        c@.players_of(m).contains(p) <==> c@.stake_of(m, p) > 0,
{
    assert(c@.stakes.contains_key((m, p)) <==> c@.players_of(m).contains(p));
}

/// A refund is owed once the timeout has passed, whatever the player's place
/// among the match's players: with the admin set, the player or the admin
/// asking, a stake and stake time recorded and `LEDGER_TIMEOUT_SECS` passed,
/// the whole stake is handed back. Afterwards no stake or stake time is
/// recorded for the player, the player is no longer listed, every other
/// player stays listed and keeps their stake, the list is one shorter, and
/// the total drops by the stake.
pub proof fn law_refund_after_timeout(s: EscrowModel, m: Seq<char>, p: Seq<char>, caller: Seq<char>, now: u64)
    requires
        s.players_consistent(),
        s.admin is Some,
        caller == p || caller == s.admin->0,
        s.stakes.contains_key((m, p)),
        s.stake_times.contains_key((m, p)),
        now >= s.stake_times[(m, p)] + LEDGER_TIMEOUT_SECS,
        s.total() >= s.stakes[(m, p)],
    ensures
        s.refund_result(m, p, caller, now) == Ok::<u128, Error>(s.stakes[(m, p)]),
        !s.refunded(m, p).stakes.contains_key((m, p)),
        !s.refunded(m, p).stake_times.contains_key((m, p)),
        s.refunded(m, p).stakes == s.stakes.remove((m, p)),
        !s.refunded(m, p).players_of(m).contains(p),
        forall|q: Seq<char>| q != p ==> (#[trigger] s.refunded(m, p).players_of(m).contains(q) == s.players_of(m).contains(q)),
        s.refunded(m, p).players_of(m).len() + 1 == s.players_of(m).len(),
        s.refunded(m, p).total() == s.total() - s.stakes[(m, p)],
{
    let l = s.players_of(m);
    assert(l.contains(p));
    assert(s.players.contains_key(m));
    assert(l.no_duplicates());
    l.index_of_first_ensures(p);
    let k = l.index_of_first(p).unwrap();
    let r = l.remove(k);
    assert(l.remove_value(p) == r);
    assert(s.refunded(m, p).players_of(m) == r);
    assert forall|q: Seq<char>| q != p implies (#[trigger] r.contains(q) == l.contains(q)) by {
        if r.contains(q) {
            let a = choose|a: int| 0 <= a < r.len() && r[a] == q;
            let a2 = if a < k { a } else { a + 1 };
            assert(r[a] == l[a2]);
        }
        if l.contains(q) {
            let a = choose|a: int| 0 <= a < l.len() && l[a] == q;
            assert(a != k);
            let a2 = if a < k { a } else { a - 1 };
            assert(r[a2] == q);
        }
    }
    if r.contains(p) {
        let a = choose|a: int| 0 <= a < r.len() && r[a] == p;
        let a2 = if a < k { a } else { a + 1 };
        assert(r[a] == l[a2]);
        assert(a2 != k);
    }
}

} // verus!
