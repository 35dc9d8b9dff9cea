//! `staff_claim`: an employee withdraws the salary accrued so far.
use vstd::prelude::*;
use crate::error::PayrollError;
use crate::kamino::{redeem_collateral_data, redeem_reserve_collateral_data};
use crate::numeric::{min_int, wrap_i64_to_u64};
use crate::protocol::ProtocolVault;
use crate::staff::StaffAccount;

verus! {

/// Claims below this amount (1 USDC) cost more to process than they pay.
pub const MINIMUM_CLAIM: u64 = 1_000_000;

/// The state a claim reads and updates.
pub struct StaffClaim {
    /// The claiming employee's account.
    pub staff_account: StaffAccount,
    /// The employer's vault.
    pub protocol: ProtocolVault,
    /// kUSDC held by the protocol's collateral token account.
    pub protocol_ktoken_amount: u64,
}

/// What the caller does after a claim step.
pub enum ClaimStep {
    /// The safety vault cannot cover the claim: redeem `ktoken` kUSDC through
    /// Kamino's `redeem_reserve_collateral` with instruction data `data`,
    /// record it with `k_withdrawal`, and resume with `finish_claim`.
    Redeem { claimable: u64, ktoken: u64, data: Vec<u8> },
    /// Transfer `amount` USDC from the safety vault to the employee; the
    /// claim is complete.
    Pay { amount: u64 },
}

/// An employee is never paid more than earned: a settled claim of the
/// claimable salary leaves the total claimed within the salary earned by
/// the effective time.
pub proof fn lemma_claims_within_earned(s: StaffClaim, now: i64, usdc_received: u64)
    requires
        s.staff_account.claimable_result(now) is Ok,
        s.settle_result(s.staff_account.claimable_result(now)->Ok_0, usdc_received) is Ok,
    ensures
        s.settled(
            s.settle_result(s.staff_account.claimable_result(now)->Ok_0, usdc_received)->Ok_0
                as int,
            usdc_received as int,
        ).staff_account.total_claimed <= s.staff_account.earned(now),
{
}

impl StaffClaim {
    /// What settling a claim of `claimable` gives once `usdc_received` USDC
    /// came back from Kamino: the amount paid, which is the claim capped by
    /// the liquidity at hand, or the error that refuses it.
    pub open spec fn settle_result(self, claimable: u64, usdc_received: u64) -> Result<
        u64,
        PayrollError,
    > {
        let total_liq = self.protocol.safety_amount + usdc_received;
        let paid = min_int(claimable as int, total_liq);
        if total_liq > u64::MAX {
            Err(PayrollError::ArithmeticOverflow)
        } else if paid < MINIMUM_CLAIM {
            Err(PayrollError::InsufficientFunds)
        } else if self.staff_account.total_claimed + paid > u64::MAX {
            Err(PayrollError::ArithmeticOverflow)
        } else if self.protocol.liability < paid {
            Err(PayrollError::ArithmeticOverflow)
        } else {
            Ok(paid as u64)
        }
    }

    /// The state after paying `paid` out of the safety vault topped up by
    /// `usdc_received`.
    pub open spec fn settled(self, paid: int, usdc_received: int) -> StaffClaim {
        StaffClaim {
            staff_account: StaffAccount {
                total_claimed: (self.staff_account.total_claimed + paid) as u64,
                ..self.staff_account
            },
            protocol: ProtocolVault {
                safety_amount: (self.protocol.safety_amount + usdc_received - paid) as u64,
                liability: (self.protocol.liability - paid) as u64,
                ..self.protocol
            },
            ..self
        }
    }

    /// The state with the vault's liability brought up to clock reading `now`.
    pub open spec fn accrued(self, now: i64) -> StaffClaim {
        StaffClaim { protocol: self.protocol.accrued(wrap_i64_to_u64(now as int)), ..self }
    }

    /// Completes a claim of `claimable` USDC after `usdc_received` USDC came
    /// back from Kamino: pays what the safety vault now holds, up to the
    /// claim, if that reaches the minimum claim. Returns the amount to
    /// transfer to the employee. Nothing changes on error.
    pub fn finish_claim(&mut self, claimable: u64, usdc_received: u64) -> (r: Result<
        u64,
        PayrollError,
    >)
        ensures
            r == old(self).settle_result(claimable, usdc_received),
            r is Err ==> *final(self) == *old(self),
            r matches Ok(paid) ==> {
                &&& *final(self) == old(self).settled(paid as int, usdc_received as int)
                &&& MINIMUM_CLAIM <= paid <= claimable
                &&& final(self).protocol.safety_amount + paid == old(self).protocol.safety_amount
                    + usdc_received
                &&& final(self).staff_account.total_claimed == old(self).staff_account.total_claimed
                    + paid
                &&& final(self).protocol.liability + paid == old(self).protocol.liability
            },
    {
        let total_liq = match self.protocol.safety_amount.checked_add(usdc_received) {
            Some(v) => v,
            None => return Err(PayrollError::ArithmeticOverflow),
        };
        let paid = if claimable < total_liq {
            claimable
        } else {
            total_liq
        };
        if paid < MINIMUM_CLAIM {
            return Err(PayrollError::InsufficientFunds);
        }
        let total_claimed = match self.staff_account.total_claimed.checked_add(paid) {
            Some(v) => v,
            None => return Err(PayrollError::ArithmeticOverflow),
        };
        let liability = match self.protocol.liability.checked_sub(paid) {
            Some(v) => v,
            None => return Err(PayrollError::ArithmeticOverflow),
        };
        self.protocol.safety_amount = total_liq - paid;
        self.staff_account.total_claimed = total_claimed;
        self.protocol.liability = liability;
        Ok(paid)
    }

    /// Records the Kamino redemption of `ktoken` kUSDC that a `Redeem` step
    /// asked for, from the protocol's USDC balance before and after it.
    /// Returns the USDC received. Nothing changes on error.
    pub fn k_withdrawal(&mut self, ktoken: u64, balance_before: u64, balance_after: u64) -> (r:
        Result<u64, PayrollError>)
        ensures
            r is Err <==> balance_after < balance_before || old(self).protocol.yield_amount
                < ktoken,
            r is Err ==> r == Err::<u64, PayrollError>(PayrollError::ArithmeticOverflow)
                && *final(self) == *old(self),
            r is Ok ==> r == Ok::<u64, PayrollError>((balance_after - balance_before) as u64)
                && *final(self) == (StaffClaim {
                protocol: ProtocolVault {
                    yield_amount: (old(self).protocol.yield_amount - ktoken) as u64,
                    ..old(self).protocol
                },
                ..*old(self)
            }),
    {
        self.protocol.record_redemption(ktoken, balance_before, balance_after)
    }

    /// Starts a claim at clock reading `now`, with the Kamino reserve's
    /// account data `reserve`. Brings the vault's liability up to date and
    /// computes the employee's claimable salary. When the safety vault covers
    /// it, the claim is settled at once; otherwise the step asks for the
    /// kUSDC redemption that covers the shortfall. Nothing changes on error.
    pub fn claim(&mut self, now: i64, reserve: &[u8]) -> (r: Result<ClaimStep, PayrollError>)
        ensures
            ({
                let nu = wrap_i64_to_u64(now as int);
                let s1 = old(self).accrued(now);
                let c = old(self).staff_account.claimable_result(now);
                &&& r is Err ==> *final(self) == *old(self)
                &&& old(self).protocol.accrual_overflows(nu) ==> r == Err::<ClaimStep, PayrollError>(
                    PayrollError::ArithmeticOverflow,
                )
                &&& !old(self).protocol.accrual_overflows(nu) ==> match c {
                    Err(e) => r == Err::<ClaimStep, PayrollError>(e),
                    Ok(claimable) => if claimable == 0 {
                        r == Err::<ClaimStep, PayrollError>(PayrollError::InsufficientFunds)
                    } else if claimable > s1.protocol.safety_amount {
                        match ProtocolVault::ktoken_to_burn_result(
                            reserve@,
                            (claimable - s1.protocol.safety_amount) as u64,
                            old(self).protocol_ktoken_amount,
                        ) {
                            Err(e) => r == Err::<ClaimStep, PayrollError>(e),
                            Ok(kt) => if kt == 0 {
                                r == Err::<ClaimStep, PayrollError>(PayrollError::InvalidArgument)
                            } else {
                                &&& r matches Ok(ClaimStep::Redeem { claimable: c2, ktoken, data })
                                    && c2 == claimable && ktoken == kt && data@
                                    == redeem_collateral_data(kt)
                                &&& *final(self) == s1
                            },
                        }
                    } else {
                        match s1.settle_result(claimable, 0) {
                            Err(e) => r == Err::<ClaimStep, PayrollError>(e),
                            Ok(paid) => {
                                &&& paid == claimable
                                &&& r matches Ok(ClaimStep::Pay { amount }) && amount == paid
                                &&& *final(self) == s1.settled(paid as int, 0)
                            },
                        }
                    },
                }
            }),
    {
        let original = self.protocol;
        let mut protocol = self.protocol;
        if let Err(e) = protocol.update_liability(now) {
            return Err(e);
        }
        let mut staff = self.staff_account;
        let claimable = match staff.claimable_salary(now) {
            Ok(c) => c,
            Err(e) => return Err(e),
        };
        if claimable == 0 {
            return Err(PayrollError::InsufficientFunds);
        }
        if claimable > protocol.safety_amount {
            let debit_pool = claimable - protocol.safety_amount;
            let ktoken = match protocol.ktoken_to_burn(
                debit_pool,
                self.protocol_ktoken_amount,
                reserve,
            ) {
                Ok(k) => k,
                Err(e) => return Err(e),
            };
            if ktoken == 0 {
                return Err(PayrollError::InvalidArgument);
            }
            self.protocol = protocol;
            return Ok(ClaimStep::Redeem {
                claimable,
                ktoken,
                data: redeem_reserve_collateral_data(ktoken),
            });
        }
        self.protocol = protocol;
        match self.finish_claim(claimable, 0) {
            Ok(amount) => Ok(ClaimStep::Pay { amount }),
            Err(e) => {
                self.protocol = original;
                Err(e)
            },
        }
    }
}

} // verus!
