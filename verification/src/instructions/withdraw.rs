//! `cfo_withdraw`: the operator takes capital out of the payroll.
use vstd::prelude::*;
use crate::error::PayrollError;
use crate::kamino::{redeem_collateral_data, redeem_reserve_collateral_data};
use crate::numeric::{min_int, pow2_64, u128_as_u64, wrap_i64_to_u64};
use crate::protocol::{ceil_div, ProtocolVault};
use crate::reserve::k_pool_result;

verus! {

/// The state a withdrawal reads and updates.
pub struct CFOWithdraw {
    /// The operator's vault.
    pub protocol: ProtocolVault,
    /// kUSDC held by the protocol's collateral token account.
    pub protocol_ktoken_amount: u64,
}

/// What the caller does after a withdrawal step.
pub enum WithdrawStep {
    /// Redeem `ktoken` kUSDC through Kamino's `redeem_reserve_collateral`
    /// with instruction data `data`, record it with `k_withdrawal`, and
    /// resume with `finish_withdraw`.
    Redeem { ktoken: u64, data: Vec<u8> },
    /// Transfer `amount` USDC from the safety vault to the operator; the
    /// withdrawal is complete.
    Pay { amount: u64 },
}

impl CFOWithdraw {
    /// What paying `amount` out of the safety vault topped up by
    /// `usdc_received` gives: the amount, or an overflow error when the
    /// vault cannot hold the top-up or does not hold the amount.
    pub open spec fn finish_result(self, amount: u64, usdc_received: u64) -> Result<
        u64,
        PayrollError,
    > {
        let topped = self.protocol.safety_amount + usdc_received;
        if topped > u64::MAX || topped < amount {
            Err(PayrollError::ArithmeticOverflow)
        } else {
            Ok(amount)
        }
    }

    /// The state after paying `amount` out of the safety vault topped up by
    /// `usdc_received`.
    pub open spec fn paid_out(self, amount: int, usdc_received: int) -> CFOWithdraw {
        CFOWithdraw {
            protocol: ProtocolVault {
                safety_amount: (self.protocol.safety_amount + usdc_received - amount) as u64,
                ..self.protocol
            },
            ..self
        }
    }

    /// The kUSDC that a withdrawal redeems for a shortfall `debit_pool` with
    /// pool totals `pool` and `ktoken`: the proportional amount rounded up,
    /// so the redemption is not short (truncated to 64 bits), capped by the
    /// kUSDC held.
    pub open spec fn redeem_amount(self, debit_pool: int, pool: int, ktoken: int) -> int {
        min_int(ceil_div(debit_pool * ktoken, pool) % pow2_64(), self.protocol_ktoken_amount as int)
    }

    /// Completes a withdrawal of `amount` after `usdc_received` USDC came
    /// back from Kamino. Returns the amount to transfer to the operator.
    /// Nothing changes on error.
    pub fn finish_withdraw(&mut self, amount: u64, usdc_received: u64) -> (r: Result<
        u64,
        PayrollError,
    >)
        ensures
            r == old(self).finish_result(amount, usdc_received),
            r is Err ==> *final(self) == *old(self),
            r is Ok ==> *final(self) == old(self).paid_out(amount as int, usdc_received as int),
    {
        let topped = match self.protocol.safety_amount.checked_add(usdc_received) {
            Some(v) => v,
            None => return Err(PayrollError::ArithmeticOverflow),
        };
        let remaining = match topped.checked_sub(amount) {
            Some(v) => v,
            None => return Err(PayrollError::ArithmeticOverflow),
        };
        self.protocol.safety_amount = remaining;
        Ok(amount)
    }

    /// Records the Kamino redemption of `ktoken` kUSDC that a `Redeem` step
    /// asked for, from the protocol's USDC balance before and after it.
    /// Returns the USDC received. Nothing changes on error.
    pub fn k_withdrawal(&mut self, ktoken: u64, balance_before: u64, balance_after: u64) -> (r:
        Result<u64, PayrollError>)
        ensures
            r is Err <==> balance_after < balance_before || old(self).protocol.yield_amount
                < ktoken,
            r is Err ==> r == Err::<u64, PayrollError>(PayrollError::ArithmeticOverflow)
                && *final(self) == *old(self),
            r is Ok ==> r == Ok::<u64, PayrollError>((balance_after - balance_before) as u64)
                && *final(self) == (CFOWithdraw {
                protocol: ProtocolVault {
                    yield_amount: (old(self).protocol.yield_amount - ktoken) as u64,
                    ..old(self).protocol
                },
                ..*old(self)
            }),
    {
        self.protocol.record_redemption(ktoken, balance_before, balance_after)
    }

    /// Starts a withdrawal of `amount` USDC at clock reading `now`, with the
    /// Kamino reserve's account data `reserve`. The amount may not exceed the
    /// net assets (assets less the liability owed). When the safety vault
    /// holds less than the amount, the step asks for the redemption of the
    /// kUSDC worth the shortfall, rounded up and capped by the kUSDC held
    /// (after bringing the liability up to date);
    /// otherwise the payment is settled at once. Nothing changes on error.
    pub fn withdraw(&mut self, amount: u64, now: i64, reserve: &[u8]) -> (r: Result<
        WithdrawStep,
        PayrollError,
    >)
        ensures
            r is Err ==> *final(self) == *old(self),
            r is Ok ==> (old(self).protocol.total_assets_result(reserve@, now) matches Ok(avail)
                && amount <= avail),
            match old(self).protocol.total_assets_result(reserve@, now) {
                Err(e) => r == Err::<WithdrawStep, PayrollError>(e),
                Ok(avail) => if avail < amount {
                    r == Err::<WithdrawStep, PayrollError>(PayrollError::InsufficientFunds)
                } else if amount > old(self).protocol.safety_amount {
                    match k_pool_result(reserve@) {
                        Err(e) => r == Err::<WithdrawStep, PayrollError>(e),
                        Ok((pool, ktoken)) => if pool == 0 || (amount
                            - old(self).protocol.safety_amount) * ktoken + pool > u128::MAX {
                            r == Err::<WithdrawStep, PayrollError>(
                                PayrollError::ArithmeticOverflow,
                            )
                        } else {
                            let kt = old(self).redeem_amount(
                                amount - old(self).protocol.safety_amount,
                                pool as int,
                                ktoken as int,
                            );
                            let nu = wrap_i64_to_u64(now as int);
                            if kt == 0 {
                                match old(self).finish_result(amount, 0) {
                                    Err(e) => r == Err::<WithdrawStep, PayrollError>(e),
                                    Ok(paid) => r matches Ok(WithdrawStep::Pay { amount: a })
                                        && a == paid && *final(self) == old(self).paid_out(
                                        paid as int,
                                        0,
                                    ),
                                }
                            } else if old(self).protocol.accrual_overflows(nu) {
                                r == Err::<WithdrawStep, PayrollError>(
                                    PayrollError::ArithmeticOverflow,
                                )
                            } else {
                                &&& r matches Ok(WithdrawStep::Redeem { ktoken: k, data })
                                    && k == kt && data@ == redeem_collateral_data(k)
                                &&& *final(self) == (CFOWithdraw {
                                    protocol: old(self).protocol.accrued(nu),
                                    ..*old(self)
                                })
                            }
                        },
                    }
                } else {
                    match old(self).finish_result(amount, 0) {
                        Err(e) => r == Err::<WithdrawStep, PayrollError>(e),
                        Ok(paid) => r matches Ok(WithdrawStep::Pay { amount: a }) && a == paid
                            && *final(self) == old(self).paid_out(paid as int, 0),
                    }
                },
            },
    {
        let available_usdc = match self.protocol.calculate_total_assets(reserve, now) {
            Ok(v) => v,
            Err(e) => return Err(e),
        };
        if available_usdc < amount {
            return Err(PayrollError::InsufficientFunds);
        }
        if amount > self.protocol.safety_amount {
            let debit_pool = amount - self.protocol.safety_amount;
            let (total_pool_usdc, total_ktoken) = match self.protocol.calculate_k_pool(reserve) {
                Ok(p) => p,
                Err(e) => return Err(e),
            };
            assert(debit_pool * total_ktoken <= u64::MAX * u64::MAX) by (nonlinear_arith)
                requires
                    total_ktoken <= u64::MAX,
            ;
            let numerator = match (debit_pool as u128).checked_mul(total_ktoken) {
                Some(x) => x,
                None => return Err(PayrollError::ArithmeticOverflow),
            };
            let proportional = match numerator.checked_add(total_pool_usdc) {
                Some(x) => match x.checked_sub(1) {
                    Some(y) => match y.checked_div(total_pool_usdc) {
                        Some(z) => u128_as_u64(z),
                        None => return Err(PayrollError::ArithmeticOverflow),
                    },
                    None => return Err(PayrollError::ArithmeticOverflow),
                },
                None => return Err(PayrollError::ArithmeticOverflow),
            };
            let ktoken_to_burn = if proportional < self.protocol_ktoken_amount {
                proportional
            } else {
                self.protocol_ktoken_amount
            };
            if ktoken_to_burn != 0 {
                let mut protocol = self.protocol;
                if let Err(e) = protocol.update_liability(now) {
                    return Err(e);
                }
                self.protocol = protocol;
                return Ok(
                    WithdrawStep::Redeem {
                        ktoken: ktoken_to_burn,
                        data: redeem_reserve_collateral_data(ktoken_to_burn),
                    },
                );
            }
        }
        match self.finish_withdraw(amount, 0) {
            Ok(a) => Ok(WithdrawStep::Pay { amount: a }),
            Err(e) => Err(e),
        }
    }
}

} // verus!
