//! `staff_offboard`: the operator pays an employee's outstanding salary out
//! of the safety vault and removes the employee's rate from the payroll.
use vstd::prelude::*;
use crate::error::PayrollError;
use crate::numeric::{i64_as_u64, wrap_i64_to_u64};
use crate::protocol::ProtocolVault;
use crate::staff::StaffAccount;

verus! {

/// The state an offboarding reads and updates.
pub struct StaffOffboard {
    /// The departing employee's account.
    pub staff_account: StaffAccount,
    /// The operator's vault.
    pub protocol: ProtocolVault,
}

impl StaffOffboard {
    /// Salary earned by the clock reading `now` since the start.
    pub open spec fn earned_by_clock(self, now: i64) -> int {
        self.staff_account.rate * (wrap_i64_to_u64(now as int) - self.staff_account.time_started)
    }

    /// What the final pay computation gives at clock reading `now`: salary
    /// earned by the clock less what was claimed, or an overflow error.
    pub open spec fn final_pay_result(self, now: i64) -> Result<u64, PayrollError> {
        if wrap_i64_to_u64(now as int) < self.staff_account.time_started || self.earned_by_clock(
            now,
        ) > u64::MAX || self.earned_by_clock(now) < self.staff_account.total_claimed {
            Err(PayrollError::ArithmeticOverflow)
        } else {
            Ok((self.earned_by_clock(now) - self.staff_account.total_claimed) as u64)
        }
    }

    /// The state after offboarding at clock time `nu` (unix seconds) with
    /// final pay `pay`, from the vault `p1` already brought up to `nu`: the
    /// pay leaves the safety vault and the liability and is added to what
    /// the employee claimed, the employee's rate leaves the global rate, and
    /// the account stops accruing at `nu`.
    pub open spec fn offboarded(self, p1: ProtocolVault, nu: int, pay: int) -> StaffOffboard {
        StaffOffboard {
            staff_account: StaffAccount {
                active: false,
                time_ended: nu as u64,
                total_claimed: (self.staff_account.total_claimed + pay) as u64,
                ..self.staff_account
            },
            protocol: ProtocolVault {
                safety_amount: (p1.safety_amount - pay) as u64,
                liability: (p1.liability - pay) as u64,
                global_rate: (p1.global_rate - self.staff_account.rate) as u64,
                ..p1
            },
        }
    }

    /// Offboards the employee at clock reading `now`: brings the liability
    /// up to date, pays the outstanding salary from the safety vault (which
    /// must hold it), takes it off the liability and records it as claimed,
    /// removes the employee's rate from the global rate, and stops the
    /// account's accrual at `now`. Returns the USDC to transfer to the
    /// employee. Nothing changes on error.
    pub fn claim_and_close(&mut self, now: i64) -> (r: Result<u64, PayrollError>)
        ensures
            r is Err ==> *final(self) == *old(self),
            ({
                let nu = wrap_i64_to_u64(now as int);
                let p1 = old(self).protocol.accrued(nu);
                if old(self).protocol.accrual_overflows(nu) {
                    r == Err::<u64, PayrollError>(PayrollError::ArithmeticOverflow)
                } else {
                    match old(self).final_pay_result(now) {
                        Err(e) => r == Err::<u64, PayrollError>(e),
                        Ok(pay) => if pay > p1.safety_amount {
                            r == Err::<u64, PayrollError>(PayrollError::InsufficientFunds)
                        } else if pay > p1.liability || old(self).staff_account.total_claimed + pay
                            > u64::MAX || p1.global_rate < old(self).staff_account.rate {
                            r == Err::<u64, PayrollError>(PayrollError::ArithmeticOverflow)
                        } else {
                            &&& r == Ok::<u64, PayrollError>(pay)
                            &&& *final(self) == old(self).offboarded(p1, nu, pay as int)
                        },
                    }
                }
            }),
    {
        let mut protocol = self.protocol;
        if let Err(e) = protocol.update_liability(now) {
            return Err(e);
        }
        let current_time = i64_as_u64(now);
        let time_passed = match current_time.checked_sub(self.staff_account.time_started) {
            Some(t) => t,
            None => return Err(PayrollError::ArithmeticOverflow),
        };
        let claimable_salary = match self.staff_account.rate.checked_mul(time_passed) {
            Some(x) => match x.checked_sub(self.staff_account.total_claimed) {
                Some(c) => c,
                None => return Err(PayrollError::ArithmeticOverflow),
            },
            None => return Err(PayrollError::ArithmeticOverflow),
        };
        let mut staff = self.staff_account;
        if claimable_salary > 0 {
            if protocol.safety_amount < claimable_salary {
                return Err(PayrollError::InsufficientFunds);
            }
            protocol.safety_amount = protocol.safety_amount - claimable_salary;
            protocol.liability = match protocol.liability.checked_sub(claimable_salary) {
                Some(v) => v,
                None => return Err(PayrollError::ArithmeticOverflow),
            };
            staff.total_claimed = match staff.total_claimed.checked_add(claimable_salary) {
                Some(v) => v,
                None => return Err(PayrollError::ArithmeticOverflow),
            };
        }
        protocol.global_rate = match protocol.global_rate.checked_sub(self.staff_account.rate) {
            Some(v) => v,
            None => return Err(PayrollError::ArithmeticOverflow),
        };
        staff.active = false;
        staff.time_ended = current_time;
        self.protocol = protocol;
        self.staff_account = staff;
        Ok(claimable_salary)
    }
}

} // verus!
