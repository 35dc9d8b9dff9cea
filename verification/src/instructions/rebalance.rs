//! `rebalance`: a keeper tops the safety vault up from Kamino and is paid a
//! bounty; the platform takes a tax on the amount moved.
use vstd::prelude::*;
use crate::error::PayrollError;
use crate::kamino::{
    redeem_collateral_data, redeem_reserve_collateral_data, BOUNTY_AMOUNT, PLATFORM_TAX,
};
use crate::numeric::{pow2_64, u128_as_u64, wrap_i64_to_u64};
use crate::protocol::{ceil_div, safety_target_computable, ProtocolVault};
use crate::reserve::k_pool_result;

verus! {

/// The state a rebalance reads and updates.
pub struct Rebalance {
    /// The operator's vault.
    pub protocol: ProtocolVault,
}

/// What the caller does after a rebalance step.
pub enum RebalanceStep {
    /// Nothing: the vault is balanced, or the pool cannot cover the keeper's
    /// bounty and the tax. The instruction succeeds without any transfer.
    Idle,
    /// Redeem `ktoken` kUSDC through Kamino's `redeem_reserve_collateral`
    /// with instruction data `data`, record it with `k_withdrawal`, finish
    /// with `finish_rebalance`, then, when that says so, pay the keeper
    /// `BOUNTY_AMOUNT` and the platform `platform_tax`; `total_deduction` is
    /// their sum.
    Redeem { ktoken: u64, platform_tax: u64, total_deduction: u64, data: Vec<u8> },
}

/// The platform's tax on moving `amount` USDC (rounded down).
pub open spec fn platform_tax_on(amount: int) -> int {
    amount * PLATFORM_TAX / 10_000
}

impl Rebalance {
    /// Records the Kamino redemption of `ktoken` kUSDC that a `Redeem` step
    /// asked for, from the protocol's USDC balance before and after it.
    /// Returns the USDC received. Nothing changes on error.
    pub fn k_withdrawal(&mut self, ktoken: u64, balance_before: u64, balance_after: u64) -> (r:
        Result<u64, PayrollError>)
        ensures
            r is Err <==> balance_after < balance_before || old(self).protocol.yield_amount
                < ktoken,
            r is Err ==> r == Err::<u64, PayrollError>(PayrollError::ArithmeticOverflow)
                && *final(self) == *old(self),
            r is Ok ==> r == Ok::<u64, PayrollError>((balance_after - balance_before) as u64)
                && *final(self) == (Rebalance {
                protocol: ProtocolVault {
                    yield_amount: (old(self).protocol.yield_amount - ktoken) as u64,
                    ..old(self).protocol
                },
            }),
    {
        self.protocol.record_redemption(ktoken, balance_before, balance_after)
    }

    /// Completes a rebalance once `usdc_received` USDC came back from Kamino
    /// and went to the safety vault. When it covers the bounty and the tax
    /// (`total_deduction`), these leave the safety vault and the result is
    /// `true`: the caller pays the keeper and the platform. When it does not,
    /// the result is `false` and no one is paid, so the keeper never pays for
    /// a rebalance that cannot cover its cost. Nothing changes on error.
    pub fn finish_rebalance(&mut self, usdc_received: u64, total_deduction: u64) -> (r: Result<
        bool,
        PayrollError,
    >)
        ensures
            old(self).protocol.safety_amount + usdc_received > u64::MAX ==> r == Err::<
                bool,
                PayrollError,
            >(PayrollError::ArithmeticOverflow),
            old(self).protocol.safety_amount + usdc_received <= u64::MAX ==> r == Ok::<
                bool,
                PayrollError,
            >(usdc_received >= total_deduction),
            r is Err ==> *final(self) == *old(self),
            r == Ok::<bool, PayrollError>(true) ==> *final(self) == (Rebalance {
                protocol: ProtocolVault {
                    safety_amount: (old(self).protocol.safety_amount + usdc_received
                        - total_deduction) as u64,
                    ..old(self).protocol
                },
            }),
            r == Ok::<bool, PayrollError>(false) ==> *final(self) == (Rebalance {
                protocol: ProtocolVault {
                    safety_amount: (old(self).protocol.safety_amount + usdc_received) as u64,
                    ..old(self).protocol
                },
            }),
    {
        let topped = match self.protocol.safety_amount.checked_add(usdc_received) {
            Some(v) => v,
            None => return Err(PayrollError::ArithmeticOverflow),
        };
        if usdc_received < total_deduction {
            self.protocol.safety_amount = topped;
            return Ok(false);
        }
        self.protocol.safety_amount = topped - total_deduction;
        Ok(true)
    }

    /// Starts a rebalance at clock reading `now`, with the Kamino reserve's
    /// account data `reserve`. Computes what the safety vault lacks to reach
    /// its target and the tax on it; returns `Idle` when nothing is lacking
    /// or when the pool's USDC (truncated to 64 bits) cannot cover the
    /// bounty and the tax, so the keeper never pays for a rebalance that
    /// cannot pay it back. Otherwise asks for the redemption of the kUSDC
    /// worth the lacking USDC (rounded up), after bringing the liability
    /// up to the clock reading `now` when the clock could be read and the
    /// update fits `u64`. Nothing changes on error or `Idle`.
    pub fn rebalance_pay(&mut self, now: Option<i64>, reserve: &[u8]) -> (r: Result<
        RebalanceStep,
        PayrollError,
    >)
        requires
            safety_target_computable(old(self).protocol.global_rate as int),
        ensures
            r is Err ==> *final(self) == *old(self),
            r matches Ok(RebalanceStep::Idle) ==> *final(self) == *old(self),
            ({
                let p = old(self).protocol;
                let required = if p.safety_amount < p.safety_target() {
                    p.safety_target() - p.safety_amount
                } else {
                    0
                };
                let tax = platform_tax_on(required);
                let total = BOUNTY_AMOUNT + tax;
                if required == 0 {
                    r matches Ok(RebalanceStep::Idle)
                } else if required * PLATFORM_TAX > u64::MAX || total > u64::MAX {
                    r == Err::<RebalanceStep, PayrollError>(PayrollError::ArithmeticOverflow)
                } else {
                    match k_pool_result(reserve@) {
                        Err(e) => r == Err::<RebalanceStep, PayrollError>(e),
                        Ok((pool, ktoken)) => if (pool as int) % pow2_64() < total {
                            r matches Ok(RebalanceStep::Idle)
                        } else if required * ktoken + pool > u128::MAX {
                            r == Err::<RebalanceStep, PayrollError>(
                                PayrollError::ArithmeticOverflow,
                            )
                        } else {
                            let kt = ceil_div(required * ktoken, pool as int) % pow2_64();
                            if kt == 0 {
                                r == Err::<RebalanceStep, PayrollError>(
                                    PayrollError::InvalidArgument,
                                )
                            } else {
                                &&& r matches Ok(
                                    RebalanceStep::Redeem {
                                        ktoken: k,
                                        platform_tax: t,
                                        total_deduction: d,
                                        data,
                                    },
                                ) && k == kt && t == tax && d == total && data@
                                    == redeem_collateral_data(k)
                                &&& match now {
                                    Some(t) => {
                                        let nu = wrap_i64_to_u64(t as int);
                                        if p.accrual_overflows(nu) {
                                            final(self).protocol == p
                                        } else {
                                            final(self).protocol == p.accrued(nu)
                                        }
                                    },
                                    None => final(self).protocol == p,
                                }
                            }
                        },
                    }
                }
            }),
    {
        let mut protocol = self.protocol;
        let required_usdc = protocol.update_protocol();
        if required_usdc == 0 {
            return Ok(RebalanceStep::Idle);
        }
        let platform_tax = match required_usdc.checked_mul(PLATFORM_TAX) {
            Some(x) => x / 10_000,
            None => return Err(PayrollError::ArithmeticOverflow),
        };
        let total_ddt = match BOUNTY_AMOUNT.checked_add(platform_tax) {
            Some(x) => x,
            None => return Err(PayrollError::ArithmeticOverflow),
        };
        let (total_pool_usdc, total_ktoken) = match self.protocol.calculate_k_pool(reserve) {
            Ok(p) => p,
            Err(e) => return Err(e),
        };
        if u128_as_u64(total_pool_usdc) < total_ddt {
            return Ok(RebalanceStep::Idle);
        }
        assert(required_usdc * total_ktoken <= u64::MAX * u64::MAX) by (nonlinear_arith)
            requires
                total_ktoken <= u64::MAX,
        ;
        let numerator = match (required_usdc as u128).checked_mul(total_ktoken) {
            Some(x) => x,
            None => return Err(PayrollError::ArithmeticOverflow),
        };
        let ktoken_to_burn = match numerator.checked_add(total_pool_usdc) {
            Some(x) => match x.checked_sub(1) {
                Some(y) => match y.checked_div(total_pool_usdc) {
                    Some(z) => u128_as_u64(z),
                    None => return Err(PayrollError::ArithmeticOverflow),
                },
                None => return Err(PayrollError::ArithmeticOverflow),
            },
            None => return Err(PayrollError::ArithmeticOverflow),
        };
        if ktoken_to_burn == 0 {
            return Err(PayrollError::InvalidArgument);
        }
        if let Some(t) = now {
            let _ = protocol.update_liability(t);
        }
        self.protocol = protocol;
        Ok(
            RebalanceStep::Redeem {
                ktoken: ktoken_to_burn,
                platform_tax,
                total_deduction: total_ddt,
                data: redeem_reserve_collateral_data(ktoken_to_burn),
            },
        )
    }
}

} // verus!
