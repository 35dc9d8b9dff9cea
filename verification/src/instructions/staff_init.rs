//! `staff_init`: the operator puts an employee on the payroll.
use vstd::prelude::*;
use crate::error::PayrollError;
use crate::numeric::{i64_as_u64, wrap_i64_to_u64};
use crate::protocol::ProtocolVault;
use crate::staff::StaffAccount;

verus! {

/// Seconds in a year of 365.25 days.
pub const SECONDS_PER_YEAR: u64 = 31_557_600;

/// The state an employee's initialisation reads and writes.
pub struct StaffInit {
    /// The operator's vault.
    pub protocol: ProtocolVault,
    /// The new employee's account.
    pub staff_account: StaffAccount,
}

/// The vault after an employee with per-second `rate` joins at clock time
/// `nu`: the liability is first brought up to `nu`, then the rate joins the
/// global rate.
pub open spec fn onboarded(v: ProtocolVault, rate: int, nu: int) -> ProtocolVault {
    ProtocolVault { global_rate: (v.accrued(nu).global_rate + rate) as u64, ..v.accrued(nu) }
}

/// The account of an employee with per-second `rate` who joins at `nu`.
pub open spec fn new_staff(rate: int, nu: int) -> StaffAccount {
    StaffAccount {
        active: true,
        rate: rate as u64,
        total_claimed: 0,
        time_started: nu as u64,
        time_ended: 0,
    }
}

impl StaffInit {
    /// Opens the employee's account at clock reading `now` with the
    /// per-second rate of `annualized_salary` (rounded down): brings the
    /// liability up to date first, so the new employee is charged nothing
    /// before starting, then adds the rate to the global rate. Nothing
    /// changes on error.
    pub fn init(&mut self, annualized_salary: u64, now: i64) -> (r: Result<(), PayrollError>)
        ensures
            r is Err ==> *final(self) == *old(self),
            ({
                let rate = annualized_salary / SECONDS_PER_YEAR;
                let nu = wrap_i64_to_u64(now as int);
                if old(self).protocol.accrual_overflows(nu) {
                    r == Err::<(), PayrollError>(PayrollError::ArithmeticOverflow)
                } else if old(self).protocol.global_rate + rate > u64::MAX {
                    r == Err::<(), PayrollError>(PayrollError::ArithmeticOverflow)
                } else {
                    &&& r is Ok
                    &&& final(self).staff_account == new_staff(rate as int, nu)
                    &&& final(self).protocol == onboarded(old(self).protocol, rate as int, nu)
                }
            }),
    {
        let rate_sec = annualized_salary / SECONDS_PER_YEAR;
        let mut protocol = self.protocol;
        if let Err(e) = protocol.update_liability(now) {
            return Err(e);
        }
        protocol.global_rate = match protocol.global_rate.checked_add(rate_sec) {
            Some(v) => v,
            None => return Err(PayrollError::ArithmeticOverflow),
        };
        self.staff_account = StaffAccount {
            active: true,
            rate: rate_sec,
            total_claimed: 0,
            time_started: i64_as_u64(now),
            time_ended: 0,
        };
        self.protocol = protocol;
        Ok(())
    }
}

} // verus!
