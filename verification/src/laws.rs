//! Laws that say what the vault's and the employees' computations are for,
//! stated over their inputs and results alone.
use vstd::prelude::*;
use vstd::arithmetic::div_mod::{lemma_fundamental_div_mod, lemma_mod_bound, lemma_small_mod};
use crate::error::PayrollError;
use crate::instructions::claim::{StaffClaim, MINIMUM_CLAIM};
use crate::instructions::offboard::StaffOffboard;
use crate::instructions::withdraw::CFOWithdraw;
use crate::numeric::{pow2_64, wrap_i64_to_u64};
use crate::protocol::{lemma_ceil_div_least_cover, ProtocolVault};
use crate::codec::le_u64_at;
use crate::reserve::{available_amount, k_pool_result, le_u128_at, reserve_data_complete};
use crate::staff::StaffAccount;

verus! {

/// A value below `2^64` is its own remainder modulo `2^64`.
proof fn lemma_fits_u64(x: int)
    requires
        0 <= x <= u64::MAX,
    ensures
        x % pow2_64() == x,
{
    lemma_small_mod(x as nat, pow2_64() as nat);
}

/// Bringing the ledger up to a later time `t` adds the global rate for every
/// second since the ledger's timestamp, and fails exactly when that sum
/// does not fit `u64`; an earlier or equal time changes nothing.
pub proof fn law_liability_accrual(v: ProtocolVault, t: int)
    requires
        0 <= t <= u64::MAX,
    ensures
        v.accrual_overflows(t) <==> (t > v.liability_timestamp && v.liability + v.global_rate * (t
            - v.liability_timestamp) > u64::MAX),
        t > v.liability_timestamp && v.liability + v.global_rate * (t - v.liability_timestamp)
            <= u64::MAX ==> v.accrued(t) == (ProtocolVault {
            liability: (v.liability + v.global_rate * (t - v.liability_timestamp)) as u64,
            liability_timestamp: t as u64,
            ..v
        }),
        t <= v.liability_timestamp ==> v.accrued(t) == v,
{
}

/// Net assets are the safety vault plus the vault's kUSDC valued at the
/// pool's rate (`yield * pool / supply`, rounded down; nothing while no kUSDC
/// exists), less the liability accrued up to the clock, floored at zero:
/// for a clock reading not before the ledger's timestamp, whenever the
/// amounts fit their integer types.
pub proof fn law_net_assets(
    v: ProtocolVault,
    reserve: Seq<u8>,
    now: i64,
    pool: u128,
    supply: u128,
)
    requires
        k_pool_result(reserve) == Ok::<(u128, u128), PayrollError>((pool, supply)),
        v.liability_timestamp <= now,
        v.yield_amount * pool <= u128::MAX,
        v.safety_amount + (if supply == 0 {
            0
        } else {
            v.yield_amount * pool / (supply as int)
        }) <= u64::MAX,
        v.liability + v.global_rate * (now - v.liability_timestamp) <= u64::MAX,
    ensures
        ({
            let assets = v.safety_amount + (if supply == 0 {
                0
            } else {
                v.yield_amount * pool / (supply as int)
            });
            let owed = v.liability + v.global_rate * (now - v.liability_timestamp);
            v.total_assets_result(reserve, now) == Ok::<u64, PayrollError>(
                if assets > owed {
                    (assets - owed) as u64
                } else {
                    0
                },
            )
        }),
{
    if supply != 0 {
        assert(v.yield_amount * pool >= 0) by (nonlinear_arith)
            requires
                v.yield_amount >= 0,
                pool >= 0,
        ;
        lemma_fits_u64(v.yield_amount * pool / (supply as int));
    }
    assert(v.pending_secs(now) == now - v.liability_timestamp);
}

/// The kUSDC burnt for a USDC shortfall is never more than held nor more
/// than the reserve's available liquidity is worth, never more than needed
/// (one kUSDC fewer would not cover the shortfall at the pool's rate), and,
/// unless one of those caps binds, enough to cover the shortfall: whenever
/// the amounts fit `u64`.
pub proof fn law_ktoken_to_burn_covers(
    reserve: Seq<u8>,
    debit_pool: u64,
    p_k_amount: u64,
    pool: u128,
    supply: u128,
)
    requires
        k_pool_result(reserve) == Ok::<(u128, u128), PayrollError>((pool, supply)),
        pool > 0,
        debit_pool * supply + pool <= u128::MAX,
        debit_pool * supply <= u64::MAX * pool,
        available_amount(reserve) * supply / (pool as int) <= u64::MAX,
    ensures
        ProtocolVault::ktoken_to_burn_result(reserve, debit_pool, p_k_amount) is Ok,
        ({
            let r = ProtocolVault::ktoken_to_burn_result(reserve, debit_pool, p_k_amount)->Ok_0
                as int;
            let cap = available_amount(reserve) * supply / (pool as int);
            let need = debit_pool * supply;
            &&& r <= p_k_amount
            &&& r <= cap
            &&& (r - 1) * pool < need
            &&& (r < p_k_amount && r < cap ==> r * pool >= need)
        }),
{
    let need = debit_pool * supply;
    let d = pool as int;
    assert(need >= 0) by (nonlinear_arith)
        requires
            need == debit_pool * supply,
            debit_pool >= 0,
            supply >= 0,
    ;
    lemma_ceil_div_least_cover(need, d);
    let q = (need + d - 1) / d;
    lemma_fundamental_div_mod(need + d - 1, d);
    lemma_mod_bound(need + d - 1, d);
    assert(q <= u64::MAX) by (nonlinear_arith)
        requires
            need + d - 1 == d * q + (need + d - 1) % d,
            0 <= (need + d - 1) % d < d,
            need <= u64::MAX * d,
            d > 0,
    ;
    assert(q >= 0) by (nonlinear_arith)
        requires
            q == (need + d - 1) / d,
            need >= 0,
            d > 0,
    ;
    lemma_fits_u64(q);
    let cap = available_amount(reserve) * supply / d;
    assert(cap >= 0) by (nonlinear_arith)
        requires
            cap == available_amount(reserve) * supply / d,
            available_amount(reserve) >= 0,
            supply >= 0,
            d > 0,
    ;
    lemma_fits_u64(cap);
    let r = ProtocolVault::ktoken_to_burn_result(reserve, debit_pool, p_k_amount)->Ok_0 as int;
    assert(r <= q);
    assert((r - 1) * d <= (q - 1) * d) by (nonlinear_arith)
        requires
            r <= q,
            d > 0,
    ;
}

/// Claimable salary is what was earned by the effective time (the
/// offboarding time once the account is closed, else the clock) less what
/// was claimed; it is refused exactly when the clock is before the start,
/// the earnings do not fit `u64`, or more was claimed than earned.
pub proof fn law_claimable_salary(s: StaffAccount, now: i64)
    ensures
        ({
            let end = if !s.active && s.time_ended != 0 {
                s.time_ended as int
            } else {
                wrap_i64_to_u64(now as int)
            };
            let earned = s.rate * (end - s.time_started);
            &&& s.claimable_result(now) is Ok <==> (end >= s.time_started && s.total_claimed
                <= earned && earned <= u64::MAX)
            &&& s.claimable_result(now) is Ok ==> s.claimable_result(now)->Ok_0 == earned
                - s.total_claimed
        }),
{
}

/// Offboarding settles the account: the final pay is everything earned by
/// the clock less what was claimed, and afterwards the account (stopped at
/// the offboarding time, a time after the epoch) has nothing claimable at
/// any clock reading.
pub proof fn law_offboarding_settles(o: StaffOffboard, now: i64, later: i64)
    requires
        wrap_i64_to_u64(now as int) != 0,
        o.final_pay_result(now) is Ok,
    ensures
        ({
            let nu = wrap_i64_to_u64(now as int);
            let pay = o.final_pay_result(now)->Ok_0 as int;
            let after = o.offboarded(o.protocol.accrued(nu), nu, pay);
            &&& pay == o.staff_account.rate * (nu - o.staff_account.time_started)
                - o.staff_account.total_claimed
            &&& (o.staff_account.total_claimed + pay <= u64::MAX ==> after.staff_account.claimable_result(
                later,
            ) == Ok::<u64, PayrollError>(0))
        }),
{
}

/// Reading the pool from the reserve account gives the depositors' USDC,
/// `(available * 2^60 + borrowed - fees) / 2^60` with the fixed-point amounts
/// read little-endian at their offsets, and the collateral supply; it is
/// refused when the account is too short or those amounts leave `u128`.
pub proof fn law_k_pool(data: Seq<u8>)
    ensures
        ({
            let available = le_u64_at(data, 224) * 0x1000_0000_0000_0000;
            let borrowed = le_u128_at(data, 232);
            let fees = le_u128_at(data, 344) + le_u128_at(data, 360) + le_u128_at(data, 376);
            &&& data.len() < 8624 ==> k_pool_result(data) == Err::<(u128, u128), PayrollError>(
                PayrollError::InvalidAccountData,
            )
            &&& data.len() >= 8624 && (fees > u128::MAX || available + borrowed > u128::MAX
                || available + borrowed < fees) ==> k_pool_result(data) == Err::<
                (u128, u128),
                PayrollError,
            >(PayrollError::ArithmeticOverflow)
            &&& data.len() >= 8624 && fees <= u128::MAX && fees <= available + borrowed
                <= u128::MAX ==> k_pool_result(data) == Ok::<(u128, u128), PayrollError>(
                (
                    ((available + borrowed - fees) / 0x1000_0000_0000_0000) as u128,
                    le_u64_at(data, 2592) as u128,
                ),
            )
        }),
{
}

/// For a clock reading not before the ledger's timestamp and a readable
/// pool, computing net assets fails exactly when the kUSDC value, the
/// assets or the accrued liability do not fit their integer types.
pub proof fn law_net_assets_fails(
    v: ProtocolVault,
    reserve: Seq<u8>,
    now: i64,
    pool: u128,
    supply: u128,
)
    requires
        k_pool_result(reserve) == Ok::<(u128, u128), PayrollError>((pool, supply)),
        v.liability_timestamp <= now,
    ensures
        v.total_assets_result(reserve, now) is Err <==> {
            ||| supply != 0 && v.yield_amount * pool > u128::MAX
            ||| (supply == 0 || v.yield_amount * pool <= u128::MAX) && v.safety_amount + (
            if supply == 0 {
                0
            } else {
                (v.yield_amount * pool / (supply as int)) % pow2_64()
            }) > u64::MAX
            ||| v.liability + v.global_rate * (now - v.liability_timestamp) > u64::MAX
        },
        v.total_assets_result(reserve, now) is Err ==> v.total_assets_result(reserve, now)
            == Err::<u64, PayrollError>(PayrollError::ArithmeticOverflow),
{
    assert(v.pending_secs(now) == now - v.liability_timestamp);
}

/// Sizing a redemption fails only on an unreadable pool, an empty pool, or
/// a shortfall whose kUSDC worth does not fit `u128`.
pub proof fn law_ktoken_to_burn_fails(
    reserve: Seq<u8>,
    debit_pool: u64,
    p_k_amount: u64,
    pool: u128,
    supply: u128,
)
    requires
        k_pool_result(reserve) == Ok::<(u128, u128), PayrollError>((pool, supply)),
    ensures
        ProtocolVault::ktoken_to_burn_result(reserve, debit_pool, p_k_amount) is Err <==> (pool
            == 0 || debit_pool * supply + pool > u128::MAX),
        ProtocolVault::ktoken_to_burn_result(reserve, debit_pool, p_k_amount) is Err
            ==> ProtocolVault::ktoken_to_burn_result(reserve, debit_pool, p_k_amount) == Err::<
            u64,
            PayrollError,
        >(PayrollError::ArithmeticOverflow),
{
}

/// The final pay of an offboarding is refused exactly when the clock is
/// before the start, the earnings do not fit `u64`, or more was claimed
/// than earned; the offboarded vault loses the pay from the safety vault
/// and the liability, and the employee's rate from the global rate.
pub proof fn law_offboarding_pay(o: StaffOffboard, now: i64, p1: ProtocolVault, pay: int)
    ensures
        ({
            let nu = wrap_i64_to_u64(now as int);
            let earned = o.staff_account.rate * (nu - o.staff_account.time_started);
            o.final_pay_result(now) is Ok <==> (nu >= o.staff_account.time_started
                && o.staff_account.total_claimed <= earned && earned <= u64::MAX)
        }),
        o.offboarded(p1, wrap_i64_to_u64(now as int), pay).protocol == (ProtocolVault {
            safety_amount: (p1.safety_amount - pay) as u64,
            liability: (p1.liability - pay) as u64,
            global_rate: (p1.global_rate - o.staff_account.rate) as u64,
            ..p1
        }),
        !o.offboarded(p1, wrap_i64_to_u64(now as int), pay).staff_account.active,
        o.offboarded(p1, wrap_i64_to_u64(now as int), pay).staff_account.time_ended
            == wrap_i64_to_u64(now as int),
        o.offboarded(p1, wrap_i64_to_u64(now as int), pay).staff_account.rate
            == o.staff_account.rate,
        o.offboarded(p1, wrap_i64_to_u64(now as int), pay).staff_account.time_started
            == o.staff_account.time_started,
{
}

/// A claim pays the claimable salary capped by the liquidity at hand (the
/// safety vault plus what Kamino returned), and is refused when that is
/// below the minimum claim or the ledger cannot absorb it.
pub proof fn law_claim_settlement(c: StaffClaim, claimable: u64, usdc_received: u64)
    ensures
        ({
            let liquid = c.protocol.safety_amount + usdc_received;
            let paid = if claimable < liquid {
                claimable as int
            } else {
                liquid
            };
            &&& c.settle_result(claimable, usdc_received) is Ok <==> (liquid <= u64::MAX && paid
                >= MINIMUM_CLAIM && c.staff_account.total_claimed + paid <= u64::MAX && paid
                <= c.protocol.liability)
            &&& c.settle_result(claimable, usdc_received) is Ok ==> c.settle_result(
                claimable,
                usdc_received,
            )->Ok_0 == paid
            &&& liquid <= u64::MAX && paid < MINIMUM_CLAIM ==> c.settle_result(
                claimable,
                usdc_received,
            ) == Err::<u64, PayrollError>(PayrollError::InsufficientFunds)
        }),
{
}

/// A withdrawal pays exactly the amount asked, out of the safety vault
/// topped up by what Kamino returned, and is refused when that does not
/// hold the amount.
pub proof fn law_withdraw_settlement(w: CFOWithdraw, amount: u64, usdc_received: u64)
    ensures
        w.finish_result(amount, usdc_received) is Ok <==> (w.protocol.safety_amount
            + usdc_received <= u64::MAX && amount <= w.protocol.safety_amount + usdc_received),
        w.finish_result(amount, usdc_received) is Ok ==> w.finish_result(amount, usdc_received)
            == Ok::<u64, PayrollError>(amount),
        w.paid_out(amount as int, usdc_received as int).protocol.safety_amount
            == (w.protocol.safety_amount + usdc_received - amount) as u64,
{
}

/// The safety target is 2.4 days (two days plus a fifth) of the global rate.
pub proof fn law_safety_target(v: ProtocolVault)
    ensures
        v.safety_target() == v.global_rate * 86_400 * 2 * 12 / 10,
{
    assert(v.global_rate * 86_400 * 2 * 12 == v.global_rate * 207_360 * 10) by (nonlinear_arith);
}

} // verus!
