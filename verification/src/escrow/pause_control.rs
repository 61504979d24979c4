//! Emergency pause: an admin sets the pause flag and records the pause with
//! its time and reason, and clears the flag to resume.
use vstd::prelude::*;

verus! {

#[derive(Clone, Copy, Debug, PartialEq, Eq, Structural)]
pub enum PauseError {
    /// No admin is stored.
    NoAdmin,
    /// The caller is not the admin.
    Unauthorized,
    /// The pause flag is set.
    Paused,
    /// No pause was recorded.
    NoPauseInfo,
}

pub struct PauseState {
    pub is_paused: bool,
    pub paused_at: u64,
    pub paused_by: String,
    pub reason: String,
}

pub struct PauseStateView {
    pub is_paused: bool,
    pub paused_at: u64,
    pub paused_by: Seq<char>,
    pub reason: Seq<char>,
}

impl DeepView for PauseState {
    type V = PauseStateView;

    open spec fn deep_view(&self) -> PauseStateView {
        PauseStateView {
            is_paused: self.is_paused,
            paused_at: self.paused_at,
            paused_by: self.paused_by@,
            reason: self.reason@,
        }
    }
}

impl PauseState {
    /// A copy of the record.
    pub fn duplicate(&self) -> (r: Self)
        ensures
            r.deep_view() == self.deep_view(),
    {
        PauseState {
            is_paused: self.is_paused,
            paused_at: self.paused_at,
            paused_by: self.paused_by.clone(),
            reason: self.reason.clone(),
        }
    }
}

/// What pausing works on: the stored admin, the last pause record and the
/// pause flag.
pub struct PauseStore {
    pub admin: Option<String>,
    pub pause_state: Option<PauseState>,
    pub is_paused: Option<bool>,
}

impl PauseStore {
    /// The pause flag, false while unset.
    pub open spec fn flag(&self) -> bool {
        self.is_paused == Some(true)
    }

    /// Check that `caller` is the stored admin.
    pub open spec fn admin_check(&self, caller: Seq<char>) -> Result<(), PauseError> {
        match self.admin {
            None => Err(PauseError::NoAdmin),
            Some(a) => if a@ != caller {
                Err(PauseError::Unauthorized)
            } else {
                Ok(())
            },
        }
    }
}

fn check_admin(store: &PauseStore, caller: &String) -> (r: Result<(), PauseError>)
    ensures
        r == store.admin_check(caller@),
{
    match &store.admin {
        None => Err(PauseError::NoAdmin),
        Some(a) => if !(*a == *caller) {
            Err(PauseError::Unauthorized)
        } else {
            Ok(())
        },
    }
}

/// Pause the contract: the admin `caller` sets the pause flag and records the
/// pause with its time `now` and reason.
pub fn pause_contract(store: &mut PauseStore, caller: &String, reason: &str, now: u64) -> (r: Result<
    (),
    PauseError,
>)
    ensures
        r == old(store).admin_check(caller@),
        r is Ok ==> (final(store).pause_state matches Some(s) && s.deep_view() == (PauseStateView {
            is_paused: true,
            paused_at: now,
            paused_by: caller@,
            reason: reason@,
        })),
        r is Ok ==> final(store).is_paused == Some(true),
        r is Err ==> final(store).pause_state == old(store).pause_state,
        r is Err ==> final(store).is_paused == old(store).is_paused,
        final(store).admin == old(store).admin,
{
    check_admin(store, caller)?;
    store.is_paused = Some(true);
    let pause_state = PauseState {
        is_paused: true,
        paused_at: now,
        paused_by: caller.clone(),
        reason: String::from_str(reason),
    };
    store.pause_state = Some(pause_state);
    Ok(())
}

/// Clear the pause flag (admin `caller` only).
pub fn unpause_contract(store: &mut PauseStore, caller: &String) -> (r: Result<(), PauseError>)
    ensures
        r == old(store).admin_check(caller@),
        r is Ok ==> final(store).is_paused == Some(false),
        r is Err ==> final(store).is_paused == old(store).is_paused,
        final(store).admin == old(store).admin,
        final(store).pause_state == old(store).pause_state,
{
    check_admin(store, caller)?;
    store.is_paused = Some(false);
    Ok(())
}

/// Fail while the pause flag is set.
pub fn check_paused(store: &PauseStore) -> (r: Result<(), PauseError>)
    ensures
        r == (if store.flag() { Err::<(), PauseError>(PauseError::Paused) } else { Ok(()) }),
{
    let is_paused: bool = match store.is_paused {
        Some(b) => b,
        None => false,
    };
    if is_paused {
        return Err(PauseError::Paused);
    }
    Ok(())
}

/// The last pause record.
pub fn get_pause_state(store: &PauseStore) -> (r: Result<PauseState, PauseError>)
    ensures
        match store.pause_state {
            Some(s) => r is Ok && r->Ok_0.deep_view() == s.deep_view(),
            None => r == Err::<PauseState, PauseError>(PauseError::NoPauseInfo),
        },
{
    match &store.pause_state {
        Some(s) => Ok(s.duplicate()),
        None => Err(PauseError::NoPauseInfo),
    }
}

/// Seconds since the last recorded pause, at time `now` (0 if that is earlier).
pub fn get_pause_duration(store: &PauseStore, now: u64) -> (r: Result<u64, PauseError>)
    ensures
        match store.pause_state {
            Some(s) => r == Ok::<u64, PauseError>(
                if now >= s.paused_at {
                    (now - s.paused_at) as u64
                } else {
                    0
                },
            ),
            None => r == Err::<u64, PauseError>(PauseError::NoPauseInfo),
        },
{
    let pause_state = get_pause_state(store)?;
    Ok(now.saturating_sub(pause_state.paused_at))
}

/// Whether staking may go ahead: fails while the pause flag is set.
pub fn can_execute_staking(store: &PauseStore) -> (r: Result<bool, PauseError>)
    ensures
        r == (if store.flag() { Err::<bool, PauseError>(PauseError::Paused) } else { Ok(true) }),
{
    check_paused(store)?;
    Ok(true)
}

/// Whether result submission may go ahead: fails while the pause flag is set.
pub fn can_execute_result_submission(store: &PauseStore) -> (r: Result<bool, PauseError>)
    ensures
        r == (if store.flag() { Err::<bool, PauseError>(PauseError::Paused) } else { Ok(true) }),
{
    check_paused(store)?;
    Ok(true)
}

/// Whether a payout may go ahead: fails while the pause flag is set.
pub fn can_execute_payout(store: &PauseStore) -> (r: Result<bool, PauseError>)
    ensures
        r == (if store.flag() { Err::<bool, PauseError>(PauseError::Paused) } else { Ok(true) }),
{
    check_paused(store)?;
    Ok(true)
}

} // verus!
