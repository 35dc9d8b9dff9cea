//! Layout of the Kamino lending reserve account and the quantities the
//! payroll reads from it.
//!
//! The account starts with an 8-byte discriminator followed by the
//! zero-copy `Reserve` record (8616 bytes, all fields little-endian). Kamino
//! stores its scaled-fraction amounts as `u128` values split into two `u64`
//! words (low word first) with `2^60` as the scale.
use vstd::prelude::*;
use crate::codec::{le_u64_at, read_u64_le};
use crate::error::PayrollError;
use crate::numeric::pow2_64;

verus! {

/// Length of the account discriminator that precedes the reserve record.
pub const DISCRIMINATOR_LEN: usize = 8;

/// Size in bytes of the reserve record.
pub const RESERVE_SIZE: usize = 8616;

/// Account-data offset of `liquidity.available_amount` (`u64`).
pub const AVAILABLE_AMOUNT_OFFSET: usize = 224;

/// Account-data offset of `liquidity.borrowed_amount_sf` (two `u64` words).
pub const BORROWED_AMOUNT_SF_OFFSET: usize = 232;

/// Account-data offset of `liquidity.accumulated_protocol_fees_sf`.
pub const PROTOCOL_FEES_SF_OFFSET: usize = 344;

/// Account-data offset of `liquidity.accumulated_referrer_fees_sf`.
pub const REFERRER_FEES_SF_OFFSET: usize = 360;

/// Account-data offset of `liquidity.pending_referrer_fees_sf`.
pub const PENDING_REFERRER_FEES_SF_OFFSET: usize = 376;

/// Account-data offset of `collateral.mint_total_supply` (`u64`).
pub const COLLATERAL_SUPPLY_OFFSET: usize = 2592;

/// The scale of Kamino's fixed-point amounts: `2^60`.
pub const WAD: u128 = 0x1000_0000_0000_0000;

/// The `u128` stored as two little-endian `u64` words at `off`, low word first.
pub open spec fn le_u128_at(data: Seq<u8>, off: int) -> int {
    le_u64_at(data, off) + le_u64_at(data, off + 8) * pow2_64()
}

/// The account data is long enough to hold the discriminator and the record.
pub open spec fn reserve_data_complete(data: Seq<u8>) -> bool {
    data.len() >= DISCRIMINATOR_LEN + RESERVE_SIZE
}

/// USDC (base units) that the reserve holds uninvested.
pub open spec fn available_amount(data: Seq<u8>) -> int {
    le_u64_at(data, AVAILABLE_AMOUNT_OFFSET as int)
}

/// The available amount in scaled-fraction form.
pub open spec fn available_sf(data: Seq<u8>) -> int {
    available_amount(data) * WAD
}

/// The amount lent out, in scaled-fraction form.
pub open spec fn borrowed_sf(data: Seq<u8>) -> int {
    le_u128_at(data, BORROWED_AMOUNT_SF_OFFSET as int)
}

/// Protocol, referrer and pending referrer fees, in scaled-fraction form.
pub open spec fn fees_sf(data: Seq<u8>) -> int {
    le_u128_at(data, PROTOCOL_FEES_SF_OFFSET as int) + le_u128_at(
        data,
        REFERRER_FEES_SF_OFFSET as int,
    ) + le_u128_at(data, PENDING_REFERRER_FEES_SF_OFFSET as int)
}

/// Total supply of the reserve's collateral token (kUSDC).
pub open spec fn collateral_supply(data: Seq<u8>) -> int {
    le_u64_at(data, COLLATERAL_SUPPLY_OFFSET as int)
}

/// The pool totals do not fit `u128`, or the fees exceed the gross liquidity.
pub open spec fn pool_arith_fails(data: Seq<u8>) -> bool {
    ||| fees_sf(data) > u128::MAX
    ||| available_sf(data) + borrowed_sf(data) > u128::MAX
    ||| available_sf(data) + borrowed_sf(data) < fees_sf(data)
}

/// USDC owned by the depositors of the reserve: available plus borrowed
/// minus fees, rounded down to base units.
pub open spec fn pool_liquidity(data: Seq<u8>) -> int {
    (available_sf(data) + borrowed_sf(data) - fees_sf(data)) / (WAD as int)
}

/// What reading the pool from the reserve account gives: the pool's USDC and
/// the collateral supply, or the error that stops the reading.
pub open spec fn k_pool_result(data: Seq<u8>) -> Result<(u128, u128), PayrollError> {
    if !reserve_data_complete(data) {
        Err(PayrollError::InvalidAccountData)
    } else if pool_arith_fails(data) {
        Err(PayrollError::ArithmeticOverflow)
    } else {
        Ok((pool_liquidity(data) as u128, collateral_supply(data) as u128))
    }
}

/// Reads a `u128` stored as two little-endian `u64` words (low word first).
pub fn read_split_u128(data: &[u8], off: usize) -> (v: u128)
    requires
        off + 16 <= data.len(),
    ensures
        v == le_u128_at(data@, off as int),
{
    let lo = read_u64_le(data, off);
    let hi = read_u64_le(data, off + 8);
    assert(((lo as u128) | ((hi as u128) << 64u128)) == (lo as u128) + (hi as u128)
        * 0x1_0000_0000_0000_0000u128) by (bit_vector);
    (lo as u128) | ((hi as u128) << 64u128)
}

/// Reads the pool's USDC and the collateral supply from the reserve account
/// data.
pub fn read_k_pool(data: &[u8]) -> (r: Result<(u128, u128), PayrollError>)
    ensures
        r == k_pool_result(data@),
{
    if data.len() < DISCRIMINATOR_LEN + RESERVE_SIZE {
        return Err(PayrollError::InvalidAccountData);
    }
    let available = read_u64_le(data, AVAILABLE_AMOUNT_OFFSET) as u128;
    let available_sf = match available.checked_mul(WAD) {
        Some(v) => v,
        None => return Err(PayrollError::InvalidAccountData),
    };
    let borrowed_sf = read_split_u128(data, BORROWED_AMOUNT_SF_OFFSET);
    let protocol_fees_sf = read_split_u128(data, PROTOCOL_FEES_SF_OFFSET);
    let referrer_fees_sf = read_split_u128(data, REFERRER_FEES_SF_OFFSET);
    let pending_referrer_fees_sf = read_split_u128(data, PENDING_REFERRER_FEES_SF_OFFSET);
    let fees_sf = match protocol_fees_sf.checked_add(referrer_fees_sf) {
        Some(x) => match x.checked_add(pending_referrer_fees_sf) {
            Some(y) => y,
            None => return Err(PayrollError::ArithmeticOverflow),
        },
        None => return Err(PayrollError::ArithmeticOverflow),
    };
    let gross = match available_sf.checked_add(borrowed_sf) {
        Some(x) => x,
        None => return Err(PayrollError::ArithmeticOverflow),
    };
    let net = match gross.checked_sub(fees_sf) {
        Some(x) => x,
        None => return Err(PayrollError::ArithmeticOverflow),
    };
    let total_pool_usdc = net / WAD;
    let total_ktoken = read_u64_le(data, COLLATERAL_SUPPLY_OFFSET) as u128;
    Ok((total_pool_usdc, total_ktoken))
}

} // verus!
