//! An employee's salary stream.
use vstd::prelude::*;
use crate::error::PayrollError;
use crate::numeric::{i64_as_u64, wrap_i64_to_u64};

verus! {

/// One account per employee.
#[derive(Clone, Copy, Debug, PartialEq, Eq)]
pub struct StaffAccount {
    /// Whether salary is accruing.
    pub active: bool,
    /// Pay per second, in USDC base units.
    pub rate: u64,
    /// USDC withdrawn so far.
    pub total_claimed: u64,
    /// Unix time at which accrual started.
    pub time_started: u64,
    /// Unix time of offboarding (zero while employed).
    pub time_ended: u64,
}

impl StaffAccount {
    /// The time up to which salary has accrued at clock reading `now`: the
    /// offboarding time once the account is closed, else the clock.
    pub open spec fn effective_time(self, now: i64) -> int {
        if !self.active && self.time_ended != 0 {
            self.time_ended as int
        } else {
            wrap_i64_to_u64(now as int)
        }
    }

    /// Salary earned from the start up to the effective time.
    pub open spec fn earned(self, now: i64) -> int {
        self.rate * (self.effective_time(now) - self.time_started)
    }

    /// What the claimable-salary computation gives at clock reading `now`:
    /// `(effective_time - time_started) * rate - total_claimed`, or an
    /// overflow error when a step leaves `u64`.
    pub open spec fn claimable_result(self, now: i64) -> Result<u64, PayrollError> {
        if self.effective_time(now) < self.time_started || self.earned(now) > u64::MAX
            || self.earned(now) < self.total_claimed {
            Err(PayrollError::ArithmeticOverflow)
        } else {
            Ok((self.earned(now) - self.total_claimed) as u64)
        }
    }

    /// Salary accrued and not yet claimed at clock reading `now`. The account
    /// is not changed.
    pub fn claimable_salary(&mut self, now: i64) -> (r: Result<u64, PayrollError>)
        ensures
            *final(self) == *old(self),
            r == old(self).claimable_result(now),
    {
        let current_time = if !self.active && self.time_ended != 0 {
            self.time_ended
        } else {
            i64_as_u64(now)
        };
        let time_passed = match current_time.checked_sub(self.time_started) {
            Some(t) => t,
            None => return Err(PayrollError::ArithmeticOverflow),
        };
        match self.rate.checked_mul(time_passed) {
            Some(x) => match x.checked_sub(self.total_claimed) {
                Some(c) => Ok(c),
                None => Err(PayrollError::ArithmeticOverflow),
            },
            None => Err(PayrollError::ArithmeticOverflow),
        }
    }
}

/// Salary streams per second: for an account that accrues by the clock,
/// the claimable salary grows by exactly the rate for every second between
/// two clock readings at or after the epoch.
pub proof fn lemma_claimable_per_second(s: StaffAccount, t1: i64, t2: i64)
    requires
        s.active || s.time_ended == 0,
        0 <= t1 <= t2,
        s.claimable_result(t1) is Ok,
        s.claimable_result(t2) is Ok,
    ensures
        s.claimable_result(t2)->Ok_0 - s.claimable_result(t1)->Ok_0 == s.rate * (t2 - t1),
        s.claimable_result(t1)->Ok_0 <= s.claimable_result(t2)->Ok_0,
{
    assert(s.rate * (t2 - s.time_started) - s.rate * (t1 - s.time_started) == s.rate * (t2
        - t1)) by (nonlinear_arith);
    assert(s.rate * (t2 - t1) >= 0) by (nonlinear_arith)
        requires
            t1 <= t2,
            s.rate >= 0,
    ;
}

} // verus!
