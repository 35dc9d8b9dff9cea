//! The liability ledger: the vault's `liability` is what the employer owes
//! all employees as of `liability_timestamp`, and its `global_rate` is the
//! sum of the rates of the employees whose salary accrues. Every instruction
//! that touches the ledger keeps both facts.
use vstd::prelude::*;
use crate::instructions::claim::StaffClaim;
use crate::instructions::offboard::StaffOffboard;
use crate::instructions::staff_init::{new_staff, onboarded};
use crate::numeric::wrap_i64_to_u64;
use crate::protocol::ProtocolVault;
use crate::staff::StaffAccount;

verus! {

/// The account's salary accrues by the clock (the rule `claimable_salary`
/// applies): it is active, or no offboarding time is recorded.
pub open spec fn accrues(s: StaffAccount) -> bool {
    s.active || s.time_ended == 0
}

/// What the employer owes the employee as of time `t`: salary earned up to
/// `t` (or up to the offboarding time) less what was claimed.
pub open spec fn owed_at(s: StaffAccount, t: int) -> int {
    let end = if accrues(s) {
        t
    } else {
        s.time_ended as int
    };
    s.rate * (end - s.time_started) - s.total_claimed
}

/// What the employer owes all employees in `staff` as of time `t`.
pub open spec fn total_owed(staff: Seq<StaffAccount>, t: int) -> int
    decreases staff.len(),
{
    if staff.len() == 0 {
        0
    } else {
        total_owed(staff.drop_last(), t) + owed_at(staff.last(), t)
    }
}

/// Sum of the rates of the employees in `staff` whose salary accrues.
pub open spec fn accruing_rate(staff: Seq<StaffAccount>) -> int
    decreases staff.len(),
{
    if staff.len() == 0 {
        0
    } else {
        accruing_rate(staff.drop_last()) + if accrues(staff.last()) {
            staff.last().rate as int
        } else {
            0
        }
    }
}

/// The vault's ledger agrees with the employees' accounts `staff`.
pub open spec fn ledger_holds(v: ProtocolVault, staff: Seq<StaffAccount>) -> bool {
    &&& v.global_rate == accruing_rate(staff)
    &&& v.liability == total_owed(staff, v.liability_timestamp as int)
}

/// Moving the reference time from `t1` to `t2` adds the accruing rate for
/// every second in between.
proof fn lemma_total_owed_shift(staff: Seq<StaffAccount>, t1: int, t2: int)
    ensures
        total_owed(staff, t2) == total_owed(staff, t1) + accruing_rate(staff) * (t2 - t1),
    decreases staff.len(),
{
    if staff.len() > 0 {
        let s = staff.last();
        lemma_total_owed_shift(staff.drop_last(), t1, t2);
        let a = accruing_rate(staff.drop_last());
        let r = s.rate as int;
        let st = s.time_started as int;
        assert(r * (t2 - st) - r * (t1 - st) == r * (t2 - t1)) by (nonlinear_arith);
        assert((a + r) * (t2 - t1) == a * (t2 - t1) + r * (t2 - t1)) by (nonlinear_arith);
        assert((a + 0) * (t2 - t1) == a * (t2 - t1));
    }
}

/// Replacing one account changes the totals by the difference it makes.
proof fn lemma_update(staff: Seq<StaffAccount>, i: int, x: StaffAccount, t: int)
    requires
        0 <= i < staff.len(),
    ensures
        total_owed(staff.update(i, x), t) == total_owed(staff, t) - owed_at(staff[i], t)
            + owed_at(x, t),
        accruing_rate(staff.update(i, x)) == accruing_rate(staff) - (if accrues(staff[i]) {
            staff[i].rate as int
        } else {
            0
        }) + (if accrues(x) {
            x.rate as int
        } else {
            0
        }),
    decreases staff.len(),
{
    let u = staff.update(i, x);
    if i == staff.len() - 1 {
        assert(u.drop_last() =~= staff.drop_last());
    } else {
        assert(u.drop_last() =~= staff.drop_last().update(i, x));
        lemma_update(staff.drop_last(), i, x, t);
    }
}

/// Removing one account takes its share off the totals.
proof fn lemma_remove(staff: Seq<StaffAccount>, i: int, t: int)
    requires
        0 <= i < staff.len(),
    ensures
        total_owed(staff.remove(i), t) == total_owed(staff, t) - owed_at(staff[i], t),
        accruing_rate(staff.remove(i)) == accruing_rate(staff) - (if accrues(staff[i]) {
            staff[i].rate as int
        } else {
            0
        }),
    decreases staff.len(),
{
    let u = staff.remove(i);
    if i == staff.len() - 1 {
        assert(u =~= staff.drop_last());
    } else {
        assert(u.drop_last() =~= staff.drop_last().remove(i));
        assert(u.last() == staff.last());
        lemma_remove(staff.drop_last(), i, t);
    }
}

/// What a claim or a closing computes as claimable is what the ledger counts
/// as owed, for any account that either accrues or has an offboarding time.
pub proof fn lemma_claimable_is_owed(s: StaffAccount, now: i64)
    requires
        s.claimable_result(now) is Ok,
    ensures
        s.claimable_result(now)->Ok_0 == owed_at(s, wrap_i64_to_u64(now as int)),
{
}

/// Bringing the liability up to a time `t` not before the ledger's keeps
/// the ledger in agreement with the accounts.
pub proof fn lemma_ledger_accrual(v: ProtocolVault, staff: Seq<StaffAccount>, t: int)
    requires
        ledger_holds(v, staff),
        v.liability_timestamp <= t <= u64::MAX,
        !v.accrual_overflows(t),
    ensures
        ledger_holds(v.accrued(t), staff),
        v.accrued(t).liability_timestamp == t,
{
    lemma_total_owed_shift(staff, v.liability_timestamp as int, t);
}

/// Onboarding an employee at a clock time not before the ledger's keeps the
/// ledger in agreement with the accounts, the new one included: the new
/// employee is owed nothing yet, and the new rate joins the global rate.
pub proof fn lemma_ledger_onboard(
    v: ProtocolVault,
    staff: Seq<StaffAccount>,
    rate: u64,
    nu: int,
)
    requires
        ledger_holds(v, staff),
        v.liability_timestamp <= nu <= u64::MAX,
        !v.accrual_overflows(nu),
        v.global_rate + rate <= u64::MAX,
    ensures
        ledger_holds(onboarded(v, rate as int, nu), staff.push(new_staff(rate as int, nu))),
{
    lemma_ledger_accrual(v, staff, nu);
    let n = new_staff(rate as int, nu);
    assert(staff.push(n).drop_last() =~= staff);
    assert(rate * (nu - nu) == 0) by (nonlinear_arith);
}

/// Settling a claim keeps the ledger in agreement with the accounts: what
/// is paid leaves the liability and is added to the employee's claims.
pub proof fn lemma_ledger_claim(
    c: StaffClaim,
    staff: Seq<StaffAccount>,
    i: int,
    claimable: u64,
    usdc_received: u64,
)
    requires
        ledger_holds(c.protocol, staff),
        0 <= i < staff.len(),
        staff[i] == c.staff_account,
        c.settle_result(claimable, usdc_received) is Ok,
    ensures
        ({
            let paid = c.settle_result(claimable, usdc_received)->Ok_0;
            let after = c.settled(paid as int, usdc_received as int);
            ledger_holds(after.protocol, staff.update(i, after.staff_account))
        }),
{
    let paid = c.settle_result(claimable, usdc_received)->Ok_0;
    let after = c.settled(paid as int, usdc_received as int);
    lemma_update(staff, i, after.staff_account, c.protocol.liability_timestamp as int);
}

/// Offboarding an active employee at a clock time not before the ledger's
/// (and after the epoch, since a zero offboarding time means "employed")
/// keeps the ledger in agreement with the accounts: the employee is paid
/// everything owed and stops accruing, and the rate leaves the global rate.
pub proof fn lemma_ledger_offboard(
    o: StaffOffboard,
    staff: Seq<StaffAccount>,
    i: int,
    now: i64,
)
    requires
        ledger_holds(o.protocol, staff),
        0 <= i < staff.len(),
        staff[i] == o.staff_account,
        o.staff_account.active,
        o.protocol.liability_timestamp <= wrap_i64_to_u64(now as int),
        wrap_i64_to_u64(now as int) != 0,
        !o.protocol.accrual_overflows(wrap_i64_to_u64(now as int)),
        o.final_pay_result(now) is Ok,
        o.final_pay_result(now)->Ok_0 <= o.protocol.accrued(
            wrap_i64_to_u64(now as int),
        ).liability,
        o.final_pay_result(now)->Ok_0 + o.staff_account.total_claimed <= u64::MAX,
        o.protocol.global_rate >= o.staff_account.rate,
    ensures
        ({
            let nu = wrap_i64_to_u64(now as int);
            let after = o.offboarded(
                o.protocol.accrued(nu),
                nu,
                o.final_pay_result(now)->Ok_0 as int,
            );
            ledger_holds(after.protocol, staff.update(i, after.staff_account))
        }),
{
    let nu = wrap_i64_to_u64(now as int);
    lemma_ledger_accrual(o.protocol, staff, nu);
    let pay = o.final_pay_result(now)->Ok_0 as int;
    let after = o.offboarded(o.protocol.accrued(nu), nu, pay);
    lemma_update(staff, i, after.staff_account, nu);
}

/// Closing an account that no longer accrues and is owed nothing keeps the
/// ledger in agreement with the remaining accounts.
pub proof fn lemma_ledger_close(v: ProtocolVault, staff: Seq<StaffAccount>, i: int, now: i64)
    requires
        ledger_holds(v, staff),
        0 <= i < staff.len(),
        !accrues(staff[i]),
        staff[i].claimable_result(now) == Ok::<u64, crate::error::PayrollError>(0),
    ensures
        ledger_holds(v, staff.remove(i)),
{
    lemma_remove(staff, i, v.liability_timestamp as int);
}

} // verus!
