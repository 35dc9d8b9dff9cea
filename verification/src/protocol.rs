//! The operator's vault: where its capital sits and what it owes.
use vstd::prelude::*;
use vstd::arithmetic::div_mod::{lemma_fundamental_div_mod, lemma_mod_bound};
use crate::codec::read_u64_le;
use crate::error::PayrollError;
use crate::numeric::{
    i64_as_u64, i64_saturating_sub, min_int, pow2_64, saturating_sub_i64, u128_as_u64, u64_as_i64,
    wrap_i64_to_u64, wrap_u64_to_i64,
};
use crate::reserve::{available_amount, k_pool_result, read_k_pool, AVAILABLE_AMOUNT_OFFSET};

verus! {

/// One vault per operator.
#[derive(Clone, Copy, Debug, PartialEq, Eq)]
pub struct ProtocolVault {
    /// The operator's public key.
    pub operator: [u8; 32],
    /// USDC held in the safety vault, outside Kamino.
    pub safety_amount: u64,
    /// kUSDC (Kamino collateral) held by the protocol.
    pub yield_amount: u64,
    /// Sum of the per-second rates of all active employees.
    pub global_rate: u64,
    /// USDC owed to all employees as of `liability_timestamp`.
    pub liability: u64,
    /// Last time (unix seconds) the liability was brought up to date.
    pub liability_timestamp: u64,
}

/// Seconds of payroll the safety vault aims to hold: two days plus a fifth.
pub open spec fn safety_target_secs() -> int {
    207_360
}

/// The safety target of a vault with global rate `rate` can be computed
/// without overflowing `u64`: `rate * 86400 * 2 * 12` fits.
pub open spec fn safety_target_computable(rate: int) -> bool {
    rate * 2_073_600 <= u64::MAX
}

/// Ceiling of `n / d` for a positive `d`.
pub open spec fn ceil_div(n: int, d: int) -> int {
    (n + d - 1) / d
}

/// Rounding the redemption up never leaves the protocol short, and never
/// burns more than needed: `ceil_div(n, d)` is the least `k` with `k * d >= n`.
pub proof fn lemma_ceil_div_least_cover(n: int, d: int)
    requires
        n >= 0,
        d > 0,
    ensures
        ceil_div(n, d) * d >= n,
        (ceil_div(n, d) - 1) * d < n,
{
    let q = (n + d - 1) / d;
    let r = (n + d - 1) % d;
    lemma_fundamental_div_mod(n + d - 1, d);
    lemma_mod_bound(n + d - 1, d);
    assert(q * d >= n && (q - 1) * d < n) by (nonlinear_arith)
        requires
            n + d - 1 == d * q + r,
            0 <= r < d,
    ;
}

/// The liability ledger is path-independent: bringing it up to `t1` and then
/// to a later `t2` gives the same vault as bringing it to `t2` at once, and
/// the liability never decreases on the way.
pub proof fn lemma_accrual_composes(v: ProtocolVault, t1: int, t2: int)
    requires
        0 <= t1 <= t2 <= u64::MAX,
        !v.accrual_overflows(t1),
        !v.accrued(t1).accrual_overflows(t2),
    ensures
        v.accrued(t1).accrued(t2) == v.accrued(t2),
        v.liability <= v.accrued(t1).liability <= v.accrued(t2).liability,
{
    let ts = v.liability_timestamp as int;
    let r = v.global_rate as int;
    if t1 > ts {
        assert(r * (t1 - ts) + r * (t2 - t1) == r * (t2 - ts)) by (nonlinear_arith);
        assert(r * (t2 - t1) >= 0) by (nonlinear_arith)
            requires
                r >= 0,
                t2 >= t1,
        ;
        assert(r * (t1 - ts) >= 0) by (nonlinear_arith)
            requires
                r >= 0,
                t1 >= ts,
        ;
    } else if t2 > ts {
        assert(r * (t2 - ts) >= 0) by (nonlinear_arith)
            requires
                r >= 0,
                t2 >= ts,
        ;
    }
}

/// Withdrawable capital never grows with time alone: for clock readings at
/// or after the ledger's timestamp, a later reading gives no more net assets
/// for the same vault and reserve.
pub proof fn lemma_net_assets_shrink_with_time(
    v: ProtocolVault,
    reserve: Seq<u8>,
    now1: i64,
    now2: i64,
)
    requires
        v.liability_timestamp <= now1 <= now2,
        v.total_assets_result(reserve, now1) is Ok,
        v.total_assets_result(reserve, now2) is Ok,
    ensures
        v.total_assets_result(reserve, now2)->Ok_0 <= v.total_assets_result(reserve, now1)->Ok_0,
{
    let ts = v.liability_timestamp as int;
    assert(v.pending_secs(now1) == now1 - ts);
    assert(v.pending_secs(now2) == now2 - ts);
    assert(v.global_rate * (now1 - ts) <= v.global_rate * (now2 - ts)) by (nonlinear_arith)
        requires
            now1 - ts <= now2 - ts,
            v.global_rate >= 0,
    ;
}

impl ProtocolVault {
    /// A new vault for `operator`, holding and owing nothing.
    pub fn init(operator: [u8; 32]) -> (v: ProtocolVault)
        ensures
            v.operator == operator,
            v.safety_amount == 0,
            v.yield_amount == 0,
            v.global_rate == 0,
            v.liability == 0,
            v.liability_timestamp == 0,
    {
        ProtocolVault {
            operator,
            safety_amount: 0,
            yield_amount: 0,
            global_rate: 0,
            liability: 0,
            liability_timestamp: 0,
        }
    }

    /// The liability the vault's ledger gives at time `now_u` (unix seconds):
    /// the recorded liability plus the global rate for every second since it
    /// was recorded; the recorded value when `now_u` is not later.
    pub open spec fn liability_at(self, now_u: int) -> int {
        if now_u > self.liability_timestamp {
            self.liability + self.global_rate * (now_u - self.liability_timestamp)
        } else {
            self.liability as int
        }
    }

    /// The ledger cannot be brought up to `now_u` within `u64`.
    pub open spec fn accrual_overflows(self, now_u: int) -> bool {
        now_u > self.liability_timestamp && self.liability_at(now_u) > u64::MAX
    }

    /// The vault with its ledger brought up to `now_u`.
    pub open spec fn accrued(self, now_u: int) -> ProtocolVault {
        if now_u > self.liability_timestamp {
            ProtocolVault {
                liability: self.liability_at(now_u) as u64,
                liability_timestamp: now_u as u64,
                ..self
            }
        } else {
            self
        }
    }

    /// Brings the liability up to the clock reading `now` (unix seconds, as
    /// the runtime clock gives it).
    pub fn update_liability(&mut self, now: i64) -> (r: Result<(), PayrollError>)
        ensures
            r is Err <==> old(self).accrual_overflows(wrap_i64_to_u64(now as int)),
            r is Ok ==> *final(self) == old(self).accrued(wrap_i64_to_u64(now as int)),
            r is Err ==> r == Err::<(), PayrollError>(PayrollError::ArithmeticOverflow)
                && *final(self) == *old(self),
    {
        let current_time = i64_as_u64(now);
        let time_delta = current_time.saturating_sub(self.liability_timestamp);
        if time_delta > 0 {
            let total_amount = match self.global_rate.checked_mul(time_delta) {
                Some(x) => x,
                None => return Err(PayrollError::ArithmeticOverflow),
            };
            let liability = match self.liability.checked_add(total_amount) {
                Some(x) => x,
                None => return Err(PayrollError::ArithmeticOverflow),
            };
            self.liability = liability;
            self.liability_timestamp = current_time;
        }
        Ok(())
    }

    /// The safety vault's target: two days of payroll with a fifth on top.
    pub open spec fn safety_target(self) -> int {
        self.global_rate * safety_target_secs()
    }

    /// USDC the safety vault lacks to reach its target (zero when it is
    /// there). The vault is not changed.
    pub fn update_protocol(&mut self) -> (to_safety: u64)
        requires
            safety_target_computable(old(self).global_rate as int),
        ensures
            *final(self) == *old(self),
            old(self).safety_amount + to_safety >= old(self).safety_target(),
            to_safety == if old(self).safety_amount < old(self).safety_target() {
                old(self).safety_target() - old(self).safety_amount
            } else {
                0
            },
    {
        assert(self.global_rate * 3600 <= self.global_rate * 2_073_600) by (nonlinear_arith);
        assert(self.global_rate * 86_400 <= self.global_rate * 2_073_600) by (nonlinear_arith);
        let daily_burn_rate = self.global_rate * 3600 * 24;
        let vault_target = (daily_burn_rate * 2 * 12) / 10;
        if self.safety_amount < vault_target {
            vault_target.saturating_sub(self.safety_amount)
        } else {
            0
        }
    }

    /// Reads the Kamino pool from the reserve account data: the USDC owned by
    /// its depositors and the supply of its collateral token.
    pub fn calculate_k_pool(&self, reserve: &[u8]) -> (r: Result<(u128, u128), PayrollError>)
        ensures
            r == k_pool_result(reserve@),
    {
        read_k_pool(reserve)
    }

    /// Seconds of accrual that the net-asset computation charges at clock
    /// reading `now`: the signed difference to the ledger's timestamp
    /// (saturating), reinterpreted as unsigned.
    pub open spec fn pending_secs(self, now: i64) -> int {
        wrap_i64_to_u64(
            saturating_sub_i64(now as int, wrap_u64_to_i64(self.liability_timestamp as int)),
        )
    }

    /// The liability charged against the assets at clock reading `now`.
    pub open spec fn current_liability(self, now: i64) -> int {
        self.liability + self.global_rate * self.pending_secs(now)
    }

    /// USDC value of the vault's kUSDC in a pool holding `pool` USDC against
    /// `ktoken` kUSDC (rounded down, truncated to 64 bits); nothing when no
    /// kUSDC exists.
    pub open spec fn kusdc_value(self, pool: int, ktoken: int) -> int {
        if ktoken == 0 {
            0
        } else {
            ((self.yield_amount * pool) / ktoken) % pow2_64()
        }
    }

    /// What the net-asset computation gives for reserve data `reserve` at
    /// clock reading `now`: the safety vault plus the USDC value of the
    /// vault's kUSDC (truncated to 64 bits, as the program does), less the
    /// current liability, floored at zero; or the error that stops it.
    pub open spec fn total_assets_result(self, reserve: Seq<u8>, now: i64) -> Result<
        u64,
        PayrollError,
    > {
        match k_pool_result(reserve) {
            Err(e) => Err(e),
            Ok((pool, ktoken)) => {
                if ktoken != 0 && self.yield_amount * pool > u128::MAX {
                    Err(PayrollError::ArithmeticOverflow)
                } else {
                    let total_assets = self.safety_amount + self.kusdc_value(pool as int, ktoken as int);
                    if total_assets > u64::MAX {
                        Err(PayrollError::ArithmeticOverflow)
                    } else if self.current_liability(now) > u64::MAX {
                        Err(PayrollError::ArithmeticOverflow)
                    } else if total_assets > self.current_liability(now) {
                        Ok((total_assets - self.current_liability(now)) as u64)
                    } else {
                        Ok(0)
                    }
                }
            },
        }
    }

    /// Capital the operator may take out: total assets (safety vault plus
    /// the USDC value of the kUSDC held, which is nothing while the reserve
    /// has no kUSDC) less the liability owed at clock reading `now`, floored
    /// at zero.
    pub fn calculate_total_assets(&self, reserve: &[u8], now: i64) -> (r: Result<u64, PayrollError>)
        ensures
            r == self.total_assets_result(reserve@, now),
    {
        let (total_pool_usdc, total_ktoken) = match self.calculate_k_pool(reserve) {
            Ok(p) => p,
            Err(e) => return Err(e),
        };
        let cfo_usdc: u64 = if total_ktoken == 0 {
            0
        } else {
            let cfo_ktoken_balance = self.yield_amount as u128;
            match cfo_ktoken_balance.checked_mul(total_pool_usdc) {
                Some(v) => u128_as_u64(v / total_ktoken),
                None => return Err(PayrollError::ArithmeticOverflow),
            }
        };
        let total_assets = match self.safety_amount.checked_add(cfo_usdc) {
            Some(v) => v,
            None => return Err(PayrollError::ArithmeticOverflow),
        };
        let time_delta = i64_saturating_sub(now, u64_as_i64(self.liability_timestamp));
        let new_liability = match self.global_rate.checked_mul(i64_as_u64(time_delta)) {
            Some(v) => v,
            None => return Err(PayrollError::ArithmeticOverflow),
        };
        let current_liability = match self.liability.checked_add(new_liability) {
            Some(v) => v,
            None => return Err(PayrollError::ArithmeticOverflow),
        };
        Ok(total_assets.saturating_sub(current_liability))
    }

    /// What the kUSDC computation gives for a USDC shortfall `debit_pool`,
    /// a kUSDC balance `p_k_amount` and reserve data `reserve`: the kUSDC
    /// that redeem at least the shortfall (rounded up, truncated to 64
    /// bits), capped by the balance and by the kUSDC worth of the reserve's
    /// available liquidity; or the error that stops it.
    pub open spec fn ktoken_to_burn_result(reserve: Seq<u8>, debit_pool: u64, p_k_amount: u64) -> Result<
        u64,
        PayrollError,
    > {
        match k_pool_result(reserve) {
            Err(e) => Err(e),
            Ok((pool, ktoken)) => {
                let numerator = debit_pool * ktoken;
                if pool == 0 || numerator + pool > u128::MAX {
                    Err(PayrollError::ArithmeticOverflow)
                } else {
                    let burn = ceil_div(numerator, pool as int) % pow2_64();
                    let cap = (available_amount(reserve) * ktoken / (pool as int)) % pow2_64();
                    Ok(min_int(min_int(burn, p_k_amount as int), cap) as u64)
                }
            },
        }
    }

    /// kUSDC to redeem for a USDC shortfall `debit_pool`: rounded up so the
    /// redemption is not short, capped by the kUSDC held (`p_k_amount`) and
    /// by what the reserve's available liquidity can pay out.
    pub fn ktoken_to_burn(&self, debit_pool: u64, p_k_amount: u64, reserve: &[u8]) -> (r: Result<
        u64,
        PayrollError,
    >)
        ensures
            r == Self::ktoken_to_burn_result(reserve@, debit_pool, p_k_amount),
    {
        let (total_pool_usdc, total_ktoken) = match self.calculate_k_pool(reserve) {
            Ok(p) => p,
            Err(e) => return Err(e),
        };
        assert(debit_pool * total_ktoken <= u64::MAX * u64::MAX) by (nonlinear_arith)
            requires
                total_ktoken <= u64::MAX,
        ;
        let numerator = match (debit_pool as u128).checked_mul(total_ktoken) {
            Some(v) => v,
            None => return Err(PayrollError::ArithmeticOverflow),
        };
        let rounded = match numerator.checked_add(total_pool_usdc) {
            Some(x) => match x.checked_sub(1) {
                Some(y) => match y.checked_div(total_pool_usdc) {
                    Some(z) => z,
                    None => return Err(PayrollError::ArithmeticOverflow),
                },
                None => return Err(PayrollError::ArithmeticOverflow),
            },
            None => return Err(PayrollError::ArithmeticOverflow),
        };
        let ktoken_to_burn = u128_as_u64(rounded);
        let max_liq = read_u64_le(reserve, AVAILABLE_AMOUNT_OFFSET);
        assert(max_liq * total_ktoken <= u64::MAX * u64::MAX) by (nonlinear_arith)
            requires
                total_ktoken <= u64::MAX,
        ;
        let max_liq_k = match (max_liq as u128).checked_mul(total_ktoken) {
            Some(x) => match x.checked_div(total_pool_usdc) {
                Some(y) => u128_as_u64(y),
                None => return Err(PayrollError::ArithmeticOverflow),
            },
            None => return Err(PayrollError::ArithmeticOverflow),
        };
        let capped = if ktoken_to_burn < p_k_amount {
            ktoken_to_burn
        } else {
            p_k_amount
        };
        if capped < max_liq_k {
            Ok(capped)
        } else {
            Ok(max_liq_k)
        }
    }

    /// Records a Kamino redemption that burnt `ktoken` kUSDC: the USDC
    /// received is the growth of the protocol's USDC balance, and the burnt
    /// kUSDC leave `yield_amount`. Nothing changes on error.
    pub fn record_redemption(&mut self, ktoken: u64, balance_before: u64, balance_after: u64) -> (r:
        Result<u64, PayrollError>)
        ensures
            r is Err <==> balance_after < balance_before || old(self).yield_amount < ktoken,
            r is Err ==> r == Err::<u64, PayrollError>(PayrollError::ArithmeticOverflow)
                && *final(self) == *old(self),
            r is Ok ==> r == Ok::<u64, PayrollError>((balance_after - balance_before) as u64)
                && *final(self) == (ProtocolVault {
                yield_amount: (old(self).yield_amount - ktoken) as u64,
                ..*old(self)
            }),
    {
        let usdc_received = match balance_after.checked_sub(balance_before) {
            Some(v) => v,
            None => return Err(PayrollError::ArithmeticOverflow),
        };
        let yield_amount = match self.yield_amount.checked_sub(ktoken) {
            Some(v) => v,
            None => return Err(PayrollError::ArithmeticOverflow),
        };
        self.yield_amount = yield_amount;
        Ok(usdc_received)
    }
}

} // verus!
