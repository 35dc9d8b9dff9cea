//! `collect_staff`: the operator closes an offboarded employee's account.
use vstd::prelude::*;
use crate::error::PayrollError;
use crate::staff::StaffAccount;

verus! {

/// The state the closing of an employee's account reads.
pub struct CollectStaff {
    /// The account to close.
    pub staff_account: StaffAccount,
}

impl CollectStaff {
    /// Allows closing the account at clock reading `now` only when no salary
    /// is left unpaid. The account is not changed.
    pub fn collect_close(&mut self, now: i64) -> (r: Result<(), PayrollError>)
        ensures
            *final(self) == *old(self),
            match old(self).staff_account.claimable_result(now) {
                Err(e) => r == Err::<(), PayrollError>(e),
                Ok(unpaid) => if unpaid > 0 {
                    r == Err::<(), PayrollError>(PayrollError::InvalidAccountData)
                } else {
                    r is Ok
                },
            },
    {
        let unpaid = match self.staff_account.claimable_salary(now) {
            Ok(u) => u,
            Err(e) => return Err(e),
        };
        if unpaid > 0 {
            return Err(PayrollError::InvalidAccountData);
        }
        Ok(())
    }
}

} // verus!
