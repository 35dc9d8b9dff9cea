use atlas_payroll::error::PayrollError;
use atlas_payroll::staff::StaffAccount;

fn staff(active: bool, rate: u64, claimed: u64, start: u64, end: u64) -> StaffAccount {
    StaffAccount { active, rate, total_claimed: claimed, time_started: start, time_ended: end }
}

#[test]
fn claimable_is_rate_times_elapsed_minus_claimed() {
    let mut s = staff(true, 10, 5, 100, 0);
    assert_eq!(s.claimable_salary(200), Ok(995));
    assert_eq!(s, staff(true, 10, 5, 100, 0));
}

#[test]
fn claimable_stops_at_offboarding_time() {
    let mut s = staff(false, 10, 0, 100, 150);
    assert_eq!(s.claimable_salary(10_000), Ok(500));
}

#[test]
fn claimable_inactive_without_end_uses_clock() {
    let mut s = staff(false, 10, 0, 100, 0);
    assert_eq!(s.claimable_salary(130), Ok(300));
}

#[test]
fn claimable_before_start_overflows() {
    let mut s = staff(true, 10, 0, 100, 0);
    assert_eq!(s.claimable_salary(99), Err(PayrollError::ArithmeticOverflow));
}

#[test]
fn claimable_overclaimed_overflows() {
    let mut s = staff(true, 10, 1_001, 100, 0);
    assert_eq!(s.claimable_salary(200), Err(PayrollError::ArithmeticOverflow));
}

#[test]
fn claimable_product_overflow() {
    let mut s = staff(true, u64::MAX, 0, 0, 0);
    assert_eq!(s.claimable_salary(2), Err(PayrollError::ArithmeticOverflow));
}

#[test]
fn claimable_grows_with_time() {
    let mut s = staff(true, 3, 7, 10, 0);
    let mut last = 0;
    for t in [13i64, 20, 21, 500, 100_000] {
        let c = s.claimable_salary(t).unwrap();
        assert!(c >= last);
        assert_eq!(s.claimable_salary(t + 7).unwrap() - c, 3 * 7);
        last = c;
    }
}
