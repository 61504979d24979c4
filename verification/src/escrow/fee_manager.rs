//! Fee bookkeeping: a fee rate, its collector, the fees accrued so far, and the
//! collector's withdrawals.
use vstd::prelude::*;
use crate::escrow::MAX_FEE_BPS;

verus! {

#[derive(Clone, Copy, Debug, PartialEq, Eq, Structural)]
pub enum FeeError {
    /// The rate is above 1000 basis points.
    InvalidFee,
    /// No fee collector is stored.
    NoCollector,
    /// The withdrawal is larger than the accrued fees.
    InsufficientFees,
}

/// The fee on a `u64` amount: `amount * fee_bps / 10000`, truncated to 64 bits.
pub open spec fn fee_u64(amount: u64, fee_bps: u32) -> u64 {
    ((amount * fee_bps) / 10000) as u64
}

/// `a + b`, or `u64::MAX` where that overflows.
pub open spec fn saturating_add_u64(a: u64, b: u64) -> u64 {
    if a + b > u64::MAX {
        u64::MAX
    } else {
        (a + b) as u64
    }
}

pub struct FeeManager {
    pub fee_collector: String,
    pub fee_bps: u32,
    pub total_accumulated: u64,
}

impl FeeManager {
    /// A manager with nothing accrued; the rate must be at most 1000 basis points.
    pub fn new(fee_collector: String, fee_bps: u32) -> (r: Result<Self, FeeError>)
        ensures
            fee_bps > MAX_FEE_BPS ==> r == Err::<Self, FeeError>(FeeError::InvalidFee),
            fee_bps <= MAX_FEE_BPS ==> r is Ok && r->Ok_0.fee_collector@ == fee_collector@
                && r->Ok_0.fee_bps == fee_bps && r->Ok_0.total_accumulated == 0,
    {
        if fee_bps > MAX_FEE_BPS {
            return Err(FeeError::InvalidFee);
        }
        Ok(FeeManager { fee_collector, fee_bps, total_accumulated: 0 })
    }

    /// The fee on `amount` at the manager's rate.
    pub fn calculate_fee(&self, amount: u64) -> (r: u64)
        ensures
            r == fee_u64(amount, self.fee_bps),
    {
        let a = amount as u128;
        let b = self.fee_bps as u128;
        assert(a * b <= u64::MAX * u32::MAX) by (nonlinear_arith)
            requires
                a <= u64::MAX,
                b <= u32::MAX,
        ;
        #[verifier::truncate]
        ((a * b / 10000) as u64)
    }

    /// Accrue the fee on `amount` (saturating at `u64::MAX`) and hand it back.
    pub fn accrue_fee(&mut self, amount: u64) -> (r: u64)
        ensures
            r == fee_u64(amount, old(self).fee_bps),
            final(self).total_accumulated == saturating_add_u64(old(self).total_accumulated, r),
            final(self).fee_bps == old(self).fee_bps,
            final(self).fee_collector == old(self).fee_collector,
    {
        let fee = self.calculate_fee(amount);
        self.total_accumulated = self.total_accumulated.saturating_add(fee);
        fee
    }

    /// The fees accrued so far.
    pub fn get_accumulated_fees(&self) -> (r: u64)
        ensures
            r == self.total_accumulated,
    {
        self.total_accumulated
    }

    /// Forget the accrued fees.
    pub fn reset_accumulated(&mut self)
        ensures
            final(self).total_accumulated == 0,
            final(self).fee_bps == old(self).fee_bps,
            final(self).fee_collector == old(self).fee_collector,
    {
        self.total_accumulated = 0;
    }

    /// Change the rate; it must be at most 1000 basis points.
    pub fn update_fee_bps(&mut self, new_fee_bps: u32) -> (r: Result<(), FeeError>)
        ensures
            new_fee_bps > MAX_FEE_BPS ==> r == Err::<(), FeeError>(FeeError::InvalidFee) && final(self).fee_bps
                == old(self).fee_bps,
            new_fee_bps <= MAX_FEE_BPS ==> r is Ok && final(self).fee_bps == new_fee_bps,
            final(self).total_accumulated == old(self).total_accumulated,
            final(self).fee_collector == old(self).fee_collector,
    {
        if new_fee_bps > MAX_FEE_BPS {
            return Err(FeeError::InvalidFee);
        }
        self.fee_bps = new_fee_bps;
        Ok(())
    }

    /// Change the collector.
    pub fn update_fee_collector(&mut self, new_collector: String)
        ensures
            final(self).fee_collector == new_collector,
            final(self).fee_bps == old(self).fee_bps,
            final(self).total_accumulated == old(self).total_accumulated,
    {
        self.fee_collector = new_collector;
    }
}

/// The stored fee collector and accrued fees that withdrawals work on.
pub struct FeeLedger {
    pub fee_collector: Option<String>,
    pub accumulated_fees: Option<u64>,
}

impl FeeLedger {
    /// The accrued fees, 0 while unset.
    pub open spec fn fees(&self) -> u64 {
        match self.accumulated_fees {
            Some(f) => f,
            None => 0,
        }
    }
}

/// Withdraw `amount` of the accrued fees. The stored fee collector must
/// authorise the withdrawal.
pub fn withdraw_fees(ledger: &mut FeeLedger, amount: u64) -> (r: Result<(), FeeError>)
    ensures
        old(ledger).fee_collector is None ==> r == Err::<(), FeeError>(FeeError::NoCollector),
        old(ledger).fee_collector is Some && amount > old(ledger).fees() ==> r == Err::<(), FeeError>(
            FeeError::InsufficientFees,
        ),
        old(ledger).fee_collector is Some && amount <= old(ledger).fees() ==> r is Ok,
        r is Ok ==> final(ledger).accumulated_fees == Some((old(ledger).fees() - amount) as u64),
        r is Err ==> final(ledger).accumulated_fees == old(ledger).accumulated_fees,
        final(ledger).fee_collector == old(ledger).fee_collector,
{
    if ledger.fee_collector.is_none() {
        return Err(FeeError::NoCollector);
    }
    let current_fees: u64 = match ledger.accumulated_fees {
        Some(f) => f,
        None => 0,
    };
    if amount > current_fees {
        return Err(FeeError::InsufficientFees);
    }
    ledger.accumulated_fees = Some(current_fees - amount);
    Ok(())
}

/// Accruals add up: accruing the fees on two amounts, without saturating,
/// adds both fees to the total.
pub proof fn law_accruals_add_up(total: u64, fee_bps: u32, a1: u64, a2: u64)
    requires
        total + fee_u64(a1, fee_bps) + fee_u64(a2, fee_bps) <= u64::MAX,
    ensures
        saturating_add_u64(saturating_add_u64(total, fee_u64(a1, fee_bps)), fee_u64(a2, fee_bps)) == total
            + fee_u64(a1, fee_bps) + fee_u64(a2, fee_bps),
{
}

} // verus!
