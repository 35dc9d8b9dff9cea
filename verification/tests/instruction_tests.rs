use atlas_payroll::error::PayrollError;
use atlas_payroll::instructions::claim::{ClaimStep, StaffClaim, MINIMUM_CLAIM};
use atlas_payroll::instructions::collect_staff::CollectStaff;
use atlas_payroll::instructions::deposit::Deposit;
use atlas_payroll::instructions::offboard::StaffOffboard;
use atlas_payroll::instructions::rebalance::{Rebalance, RebalanceStep};
use atlas_payroll::instructions::staff_init::{StaffInit, SECONDS_PER_YEAR};
use atlas_payroll::instructions::withdraw::{CFOWithdraw, WithdrawStep};
use atlas_payroll::kamino::{deposit_reserve_liquidity_data, redeem_reserve_collateral_data};
use atlas_payroll::protocol::ProtocolVault;
use atlas_payroll::reserve::{
    AVAILABLE_AMOUNT_OFFSET, BORROWED_AMOUNT_SF_OFFSET, COLLATERAL_SUPPLY_OFFSET,
    DISCRIMINATOR_LEN, RESERVE_SIZE,
};
use atlas_payroll::staff::StaffAccount;

fn put_u64(data: &mut [u8], off: usize, v: u64) {
    data[off..off + 8].copy_from_slice(&v.to_le_bytes());
}

/// A reserve whose pool holds `available + borrowed` USDC against `supply` kUSDC.
fn reserve(available: u64, borrowed: u64, supply: u64) -> Vec<u8> {
    let mut d = vec![0u8; DISCRIMINATOR_LEN + RESERVE_SIZE];
    let borrowed_sf = (borrowed as u128) << 60;
    put_u64(&mut d, AVAILABLE_AMOUNT_OFFSET, available);
    put_u64(&mut d, BORROWED_AMOUNT_SF_OFFSET, borrowed_sf as u64);
    put_u64(&mut d, BORROWED_AMOUNT_SF_OFFSET + 8, (borrowed_sf >> 64) as u64);
    put_u64(&mut d, COLLATERAL_SUPPLY_OFFSET, supply);
    d
}

fn vault(safety: u64, yield_amount: u64, rate: u64, liability: u64, ts: u64) -> ProtocolVault {
    ProtocolVault {
        operator: [1u8; 32],
        safety_amount: safety,
        yield_amount,
        global_rate: rate,
        liability,
        liability_timestamp: ts,
    }
}

fn staff(active: bool, rate: u64, claimed: u64, start: u64, end: u64) -> StaffAccount {
    StaffAccount { active, rate, total_claimed: claimed, time_started: start, time_ended: end }
}

#[test]
fn claim_paid_from_safety_vault() {
    let mut c = StaffClaim {
        staff_account: staff(true, 1_000_000, 0, 0, 0),
        protocol: vault(50_000_000, 0, 1_000_000, 0, 0),
        protocol_ktoken_amount: 0,
    };
    let step = c.claim(10, &[]).unwrap();
    match step {
        ClaimStep::Pay { amount } => assert_eq!(amount, 10_000_000),
        _ => panic!("expected a payment"),
    }
    assert_eq!(c.protocol.safety_amount, 40_000_000);
    assert_eq!(c.protocol.liability, 0);
    assert_eq!(c.protocol.liability_timestamp, 10);
    assert_eq!(c.staff_account.total_claimed, 10_000_000);
}

#[test]
fn claim_redeems_the_shortfall_then_settles() {
    let d = reserve(3_000_000, 1_000_000, 2_000_000);
    let mut c = StaffClaim {
        staff_account: staff(true, 1_000_000, 0, 0, 0),
        protocol: vault(4_000_000, 2_000_000, 1_000_000, 0, 0),
        protocol_ktoken_amount: 2_000_000,
    };
    let step = c.claim(10, &d).unwrap();
    let (claimable, ktoken) = match step {
        ClaimStep::Redeem { claimable, ktoken, data } => {
            assert_eq!(data, redeem_reserve_collateral_data(ktoken));
            (claimable, ktoken)
        },
        _ => panic!("expected a redemption"),
    };
    assert_eq!(claimable, 10_000_000);
    // shortfall 6_000_000 USDC is 3_000_000 kUSDC, capped by the 1_500_000 kUSDC
    // that the reserve's 3_000_000 available USDC can pay out
    assert_eq!(ktoken, 1_500_000);
    assert_eq!(c.protocol.liability, 10_000_000);
    let received = c.k_withdrawal(ktoken, 4_000_000, 7_000_000).unwrap();
    assert_eq!(received, 3_000_000);
    assert_eq!(c.protocol.yield_amount, 500_000);
    let paid = c.finish_claim(claimable, received).unwrap();
    assert_eq!(paid, 7_000_000);
    assert_eq!(c.protocol.safety_amount, 0);
    assert_eq!(c.protocol.liability, 3_000_000);
    assert_eq!(c.staff_account.total_claimed, 7_000_000);
}

#[test]
fn claim_nothing_earned_is_refused() {
    let mut c = StaffClaim {
        staff_account: staff(true, 1_000_000, 0, 10, 0),
        protocol: vault(50_000_000, 0, 1_000_000, 0, 10),
        protocol_ktoken_amount: 0,
    };
    assert!(matches!(c.claim(10, &[]), Err(PayrollError::InsufficientFunds)));
    assert_eq!(c.protocol, vault(50_000_000, 0, 1_000_000, 0, 10));
}

#[test]
fn claim_below_minimum_is_refused() {
    let mut c = StaffClaim {
        staff_account: staff(true, 100, 0, 0, 0),
        protocol: vault(50_000_000, 0, 100, 0, 0),
        protocol_ktoken_amount: 0,
    };
    assert!(matches!(c.claim(5_000, &[]), Err(PayrollError::InsufficientFunds)));
    assert_eq!(c.protocol, vault(50_000_000, 0, 100, 0, 0));
    assert_eq!(c.staff_account.total_claimed, 0);
    assert_eq!(MINIMUM_CLAIM, 1_000_000);
}

#[test]
fn claim_settlement_caps_at_liquidity() {
    let mut c = StaffClaim {
        staff_account: staff(true, 0, 0, 0, 0),
        protocol: vault(1_500_000, 0, 0, 5_000_000, 0),
        protocol_ktoken_amount: 0,
    };
    assert_eq!(c.finish_claim(5_000_000, 500_000), Ok(2_000_000));
    assert_eq!(c.protocol.safety_amount, 0);
    assert_eq!(c.protocol.liability, 3_000_000);
    assert_eq!(c.staff_account.total_claimed, 2_000_000);
}

#[test]
fn claim_settlement_liability_underflow() {
    let mut c = StaffClaim {
        staff_account: staff(true, 0, 0, 0, 0),
        protocol: vault(5_000_000, 0, 0, 1_000_000, 0),
        protocol_ktoken_amount: 0,
    };
    assert_eq!(c.finish_claim(2_000_000, 0), Err(PayrollError::ArithmeticOverflow));
    assert_eq!(c.protocol.safety_amount, 5_000_000);
}

#[test]
fn claim_needing_zero_ktoken_is_invalid() {
    // the pool has no collateral supply, so no kUSDC would be burnt
    let d = reserve(3_000_000, 1_000_000, 0);
    let mut c = StaffClaim {
        staff_account: staff(true, 1_000_000, 0, 0, 0),
        protocol: vault(4_000_000, 2_000_000, 1_000_000, 0, 0),
        protocol_ktoken_amount: 2_000_000,
    };
    assert!(matches!(c.claim(10, &d), Err(PayrollError::InvalidArgument)));
    assert_eq!(c.protocol.liability, 0);
}

#[test]
fn redemption_record_refuses_shrinking_balance() {
    let mut c = StaffClaim {
        staff_account: staff(true, 0, 0, 0, 0),
        protocol: vault(0, 10, 0, 0, 0),
        protocol_ktoken_amount: 0,
    };
    assert_eq!(c.k_withdrawal(5, 100, 99), Err(PayrollError::ArithmeticOverflow));
    assert_eq!(c.k_withdrawal(11, 100, 120), Err(PayrollError::ArithmeticOverflow));
    assert_eq!(c.protocol.yield_amount, 10);
}

#[test]
fn withdraw_from_safety_vault() {
    let d = reserve(3_000_000, 1_000_000, 2_000_000);
    let mut w = CFOWithdraw { protocol: vault(1_000_000, 2_000_000, 0, 0, 0), protocol_ktoken_amount: 2_000_000 };
    match w.withdraw(500_000, 100, &d).unwrap() {
        WithdrawStep::Pay { amount } => assert_eq!(amount, 500_000),
        _ => panic!("expected a payment"),
    }
    assert_eq!(w.protocol.safety_amount, 500_000);
}

#[test]
fn withdraw_redeems_the_shortfall() {
    let d = reserve(3_000_000, 1_000_000, 2_000_000);
    let mut w = CFOWithdraw { protocol: vault(1_000_000, 2_000_000, 0, 0, 0), protocol_ktoken_amount: 2_000_000 };
    let ktoken = match w.withdraw(2_000_000, 100, &d).unwrap() {
        WithdrawStep::Redeem { ktoken, data } => {
            assert_eq!(data, redeem_reserve_collateral_data(ktoken));
            ktoken
        },
        _ => panic!("expected a redemption"),
    };
    assert_eq!(ktoken, 500_000);
    assert_eq!(w.protocol.liability_timestamp, 100);
    assert_eq!(w.k_withdrawal(ktoken, 1_000_000, 2_000_000), Ok(1_000_000));
    assert_eq!(w.protocol.yield_amount, 1_500_000);
    assert_eq!(w.finish_withdraw(2_000_000, 1_000_000), Ok(2_000_000));
    assert_eq!(w.protocol.safety_amount, 0);
}

#[test]
fn withdraw_redemption_rounds_up() {
    // pool 9 USDC against 7 kUSDC: a 5 USDC shortfall needs 35 / 9 = 3.9 kUSDC, so 4
    let d = reserve(9, 0, 7);
    let mut w = CFOWithdraw { protocol: vault(1, 7, 0, 0, 0), protocol_ktoken_amount: 7 };
    match w.withdraw(6, 100, &d).unwrap() {
        WithdrawStep::Redeem { ktoken, .. } => assert_eq!(ktoken, 4),
        _ => panic!("expected a redemption"),
    }
    let mut capped = CFOWithdraw { protocol: vault(1, 7, 0, 0, 0), protocol_ktoken_amount: 3 };
    match capped.withdraw(6, 100, &d).unwrap() {
        WithdrawStep::Redeem { ktoken, .. } => assert_eq!(ktoken, 3),
        _ => panic!("expected a redemption"),
    }
}

#[test]
fn withdraw_above_net_assets_is_refused() {
    let d = reserve(3_000_000, 1_000_000, 2_000_000);
    // assets 1_000_000 + 4_000_000, liability 1_000 + 10 * 100
    let mut w = CFOWithdraw { protocol: vault(1_000_000, 2_000_000, 10, 1_000, 0), protocol_ktoken_amount: 2_000_000 };
    assert!(matches!(w.withdraw(4_998_001, 100, &d), Err(PayrollError::InsufficientFunds)));
    assert_eq!(w.protocol, vault(1_000_000, 2_000_000, 10, 1_000, 0));
    assert!(matches!(w.withdraw(4_998_000, 100, &d), Ok(WithdrawStep::Redeem { .. })));
}

#[test]
fn withdraw_with_no_ktoken_to_burn_overflows_the_vault() {
    let d = reserve(3_000_000, 1_000_000, 2_000_000);
    // net assets cover the amount, but no kUSDC is held to redeem
    let mut w = CFOWithdraw { protocol: vault(1_000_000, 2_000_000, 0, 0, 0), protocol_ktoken_amount: 0 };
    assert!(matches!(w.withdraw(2_000_000, 100, &d), Err(PayrollError::ArithmeticOverflow)));
    assert_eq!(w.protocol.safety_amount, 1_000_000);
}

#[test]
fn rebalance_balanced_vault_is_idle() {
    let d = reserve(3_000_000, 1_000_000, 2_000_000);
    let mut r = Rebalance { protocol: vault(1_000_000, 0, 1, 0, 0) };
    assert!(matches!(r.rebalance_pay(Some(100), &d), Ok(RebalanceStep::Idle)));
    assert_eq!(r.protocol, vault(1_000_000, 0, 1, 0, 0));
}

#[test]
fn rebalance_illiquid_pool_is_idle() {
    let d = reserve(50_000, 0, 2_000_000);
    let mut r = Rebalance { protocol: vault(0, 0, 1, 0, 0) };
    assert!(matches!(r.rebalance_pay(Some(100), &d), Ok(RebalanceStep::Idle)));
    assert_eq!(r.protocol, vault(0, 0, 1, 0, 0));
}

#[test]
fn rebalance_tops_up_and_pays_keeper() {
    let d = reserve(3_000_000, 1_000_000, 2_000_000);
    let mut r = Rebalance { protocol: vault(0, 500_000, 1, 0, 0) };
    let (ktoken, tax, total) = match r.rebalance_pay(Some(100), &d).unwrap() {
        RebalanceStep::Redeem { ktoken, platform_tax, total_deduction, data } => {
            assert_eq!(data, redeem_reserve_collateral_data(ktoken));
            (ktoken, platform_tax, total_deduction)
        },
        RebalanceStep::Idle => panic!("expected a redemption"),
    };
    // target 207_360, tax 0.5% rounded down, bounty 100_000
    assert_eq!(tax, 1_036);
    assert_eq!(total, 101_036);
    assert_eq!(ktoken, 103_680);
    assert_eq!(r.protocol.liability, 100);
    assert_eq!(r.k_withdrawal(ktoken, 0, 207_360), Ok(207_360));
    // the kUSDC burnt leave the kUSDC balance
    assert_eq!(r.protocol.yield_amount, 500_000 - 103_680);
    assert_eq!(r.finish_rebalance(207_360, total), Ok(true));
    assert_eq!(r.protocol.safety_amount, 106_324);
}

#[test]
fn rebalance_redemption_rounds_up() {
    // pool 300_000 USDC against 7 kUSDC: 207_360 USDC is 4.84 kUSDC, so 5
    let d = reserve(300_000, 0, 7);
    let mut r = Rebalance { protocol: vault(0, 7, 1, 0, 0) };
    match r.rebalance_pay(None, &d).unwrap() {
        RebalanceStep::Redeem { ktoken, .. } => assert_eq!(ktoken, 5),
        RebalanceStep::Idle => panic!("expected a redemption"),
    }
    assert_eq!(r.protocol, vault(0, 7, 1, 0, 0));
}

#[test]
fn rebalance_short_redemption_pays_no_one() {
    let mut r = Rebalance { protocol: vault(5, 0, 1, 0, 0) };
    assert_eq!(r.finish_rebalance(100_000, 101_036), Ok(false));
    // the USDC that came back is in the safety vault
    assert_eq!(r.protocol.safety_amount, 100_005);
}

#[test]
fn deposit_zero_is_refused() {
    let mut dep = Deposit { protocol: vault(0, 0, 1, 0, 0) };
    assert_eq!(dep.transfer(0, Some(10)), Err(PayrollError::InvalidArgument));
    assert_eq!(dep.protocol, vault(0, 0, 1, 0, 0));
}

#[test]
fn deposit_builds_kamino_call_and_records_minted() {
    let mut dep = Deposit { protocol: vault(0, 40, 2, 0, 0) };
    assert_eq!(dep.transfer(5_000_000, Some(10)), Ok(deposit_reserve_liquidity_data(5_000_000)));
    assert_eq!(dep.protocol.liability, 20);
    assert_eq!(dep.finish_transfer(1_000, 3_500), Ok(2_500));
    assert_eq!(dep.protocol.yield_amount, 2_540);
    assert_eq!(dep.finish_transfer(10, 9), Err(PayrollError::ArithmeticOverflow));
}

#[test]
fn deposit_ignores_liability_failure() {
    let mut dep = Deposit { protocol: vault(0, 0, u64::MAX, 0, 0) };
    assert!(dep.transfer(1, Some(10)).is_ok());
    assert_eq!(dep.protocol, vault(0, 0, u64::MAX, 0, 0));
    assert!(dep.transfer(1, None).is_ok());
}

#[test]
fn offboard_pays_and_removes_rate() {
    let mut o = StaffOffboard { staff_account: staff(true, 100, 0, 0, 0), protocol: vault(200_000, 0, 150, 0, 0) };
    assert_eq!(o.claim_and_close(1_000), Ok(100_000));
    assert_eq!(o.protocol.safety_amount, 100_000);
    assert_eq!(o.protocol.liability, 50_000);
    assert_eq!(o.protocol.global_rate, 50);
    assert_eq!(o.staff_account, staff(false, 100, 100_000, 0, 1_000));
    // the account is frozen: nothing is owed any more, so it can be closed
    let mut c = CollectStaff { staff_account: o.staff_account };
    assert_eq!(c.collect_close(50_000), Ok(()));
}

#[test]
fn offboard_illiquid_is_refused() {
    let mut o = StaffOffboard { staff_account: staff(true, 100, 0, 0, 0), protocol: vault(99_999, 0, 100, 0, 0) };
    assert_eq!(o.claim_and_close(1_000), Err(PayrollError::InsufficientFunds));
    assert_eq!(o.protocol, vault(99_999, 0, 100, 0, 0));
    assert_eq!(o.staff_account, staff(true, 100, 0, 0, 0));
}

#[test]
fn offboard_nothing_owed_still_removes_rate() {
    let mut o = StaffOffboard { staff_account: staff(true, 100, 100_000, 0, 0), protocol: vault(0, 0, 100, 0, 1_000) };
    assert_eq!(o.claim_and_close(1_000), Ok(0));
    assert_eq!(o.protocol.global_rate, 0);
    assert_eq!(o.staff_account, staff(false, 100, 100_000, 0, 1_000));
}

#[test]
fn staff_init_sets_rate_and_accrues() {
    let mut s = StaffInit { protocol: vault(0, 0, 0, 0, 0), staff_account: staff(false, 0, 0, 0, 0) };
    assert_eq!(s.init(3 * SECONDS_PER_YEAR + 5, 1_000), Ok(()));
    assert_eq!(s.staff_account, staff(true, 3, 0, 1_000, 0));
    assert_eq!(s.protocol.global_rate, 3);
    // nothing was owed before the employee started
    assert_eq!(s.protocol.liability, 0);
    assert_eq!(s.protocol.liability_timestamp, 1_000);
}

#[test]
fn staff_init_charges_only_the_existing_rate() {
    let mut s = StaffInit { protocol: vault(0, 0, 3, 0, 0), staff_account: staff(false, 0, 0, 0, 0) };
    assert_eq!(s.init(2 * SECONDS_PER_YEAR, 10), Ok(()));
    assert_eq!(s.protocol.liability, 30);
    assert_eq!(s.protocol.global_rate, 5);
}

/// Sum over the accounts of what is owed at `t`, and of the accruing rates.
fn ledger(staff: &[StaffAccount], t: u64) -> (u64, u64) {
    let mut owed = 0;
    let mut rate = 0;
    for s in staff {
        let accrues = s.active || s.time_ended == 0;
        let end = if accrues { t } else { s.time_ended };
        owed += s.rate * (end - s.time_started) - s.total_claimed;
        if accrues {
            rate += s.rate;
        }
    }
    (owed, rate)
}

#[test]
fn ledger_matches_accounts_through_a_payroll() {
    let mut v = ProtocolVault::init([3u8; 32]);
    v.safety_amount = 1_000_000_000;
    let mut staff_accounts: Vec<StaffAccount> = Vec::new();
    for (salary, now) in [(40_000 * SECONDS_PER_YEAR, 100i64), (25_000 * SECONDS_PER_YEAR, 160)] {
        let mut i = StaffInit { protocol: v, staff_account: staff(false, 0, 0, 0, 0) };
        i.init(salary, now).unwrap();
        v = i.protocol;
        staff_accounts.push(i.staff_account);
        assert_eq!(ledger(&staff_accounts, v.liability_timestamp), (v.liability, v.global_rate));
    }
    let mut c = StaffClaim { staff_account: staff_accounts[0], protocol: v, protocol_ktoken_amount: 0 };
    assert!(matches!(c.claim(400, &[]), Ok(ClaimStep::Pay { .. })));
    v = c.protocol;
    staff_accounts[0] = c.staff_account;
    assert_eq!(ledger(&staff_accounts, v.liability_timestamp), (v.liability, v.global_rate));
    let mut o = StaffOffboard { staff_account: staff_accounts[1], protocol: v };
    o.claim_and_close(900).unwrap();
    v = o.protocol;
    staff_accounts[1] = o.staff_account;
    assert_eq!(ledger(&staff_accounts, v.liability_timestamp), (v.liability, v.global_rate));
    let mut k = CollectStaff { staff_account: staff_accounts[1] };
    k.collect_close(2_000).unwrap();
    staff_accounts.remove(1);
    assert_eq!(ledger(&staff_accounts, v.liability_timestamp), (v.liability, v.global_rate));
    v.update_liability(3_000).unwrap();
    assert_eq!(ledger(&staff_accounts, 3_000), (v.liability, v.global_rate));
}

#[test]
fn staff_init_rate_overflow_is_refused() {
    let mut s = StaffInit { protocol: vault(0, 0, u64::MAX, 0, 1_000), staff_account: staff(false, 0, 0, 0, 0) };
    assert_eq!(s.init(SECONDS_PER_YEAR, 1_000), Err(PayrollError::ArithmeticOverflow));
    assert_eq!(s.protocol.global_rate, u64::MAX);
    assert!(!s.staff_account.active);
}

#[test]
fn collect_closes_only_settled_accounts() {
    let mut c = CollectStaff { staff_account: staff(false, 2, 1_000, 0, 500) };
    assert_eq!(c.collect_close(10_000), Ok(()));
    let mut owed = CollectStaff { staff_account: staff(false, 2, 900, 0, 500) };
    assert_eq!(owed.collect_close(10_000), Err(PayrollError::InvalidAccountData));
    let mut bad = CollectStaff { staff_account: staff(false, 2, 1_001, 0, 500) };
    assert_eq!(bad.collect_close(10_000), Err(PayrollError::ArithmeticOverflow));
}
