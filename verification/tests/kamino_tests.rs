use atlas_payroll::kamino::{
    deposit_reserve_liquidity_data, get_sighash, kamino_instruction_data,
    redeem_reserve_collateral_data, sighash_from_digest, BOUNTY_AMOUNT, PLATFORM_TAX,
};

#[test]
fn sighash_of_kamino_instructions() {
    assert_eq!(get_sighash("deposit_reserve_liquidity"), [169, 201, 30, 126, 6, 205, 102, 68]);
    assert_eq!(get_sighash("redeem_reserve_collateral"), [234, 117, 181, 125, 185, 142, 220, 29]);
    assert_eq!(get_sighash(""), [193, 76, 24, 19, 16, 206, 80, 69]);
}

#[test]
fn sighash_is_digest_prefix() {
    let mut d = [0u8; 32];
    for (i, b) in d.iter_mut().enumerate() {
        *b = i as u8 * 3;
    }
    assert_eq!(sighash_from_digest(d), [0, 3, 6, 9, 12, 15, 18, 21]);
}

#[test]
fn instruction_data_is_discriminator_then_amount() {
    let data = redeem_reserve_collateral_data(0x0102_0304_0506_0708);
    assert_eq!(data, vec![234, 117, 181, 125, 185, 142, 220, 29, 8, 7, 6, 5, 4, 3, 2, 1]);
    let data = deposit_reserve_liquidity_data(5_000_000);
    let mut expected = vec![169, 201, 30, 126, 6, 205, 102, 68];
    expected.extend_from_slice(&5_000_000u64.to_le_bytes());
    assert_eq!(data, expected);
    assert_eq!(kamino_instruction_data("x", 1), vec![136, 47, 199, 109, 229, 202, 185, 245, 1, 0, 0, 0, 0, 0, 0, 0]);
}

#[test]
fn payroll_constants() {
    assert_eq!(BOUNTY_AMOUNT, 100_000);
    assert_eq!(PLATFORM_TAX, 50);
}
