//! Constants of the payroll and the instruction data sent to Kamino.
//!
//! Kamino is an Anchor program: an instruction's data starts with the first
//! eight bytes of the SHA-256 digest of `"global:"` followed by the
//! instruction's name, and continues with its arguments (here one `u64`,
//! little-endian).
use vstd::prelude::*;
use vstd::string::StringSliceAdditionalSpecFns;
use crate::codec::{le_bytes, le_u64_at, lemma_le_bytes_roundtrip, u64_to_le_bytes};

verus! {

/// Bounty paid to the keeper for a rebalance: $1.00 in USDC base units.
pub const BOUNTY_AMOUNT: u64 = 100_000;

/// Platform tax on the amount a rebalance moves, in basis points (0.5%).
pub const PLATFORM_TAX: u64 = 50;

/// The SHA-256 digest of `data`.
pub uninterp spec fn sha256_digest(data: Seq<u8>) -> Seq<u8>;

/// Calls `solana_program::hash::hash` (SHA-256) and returns the digest's
/// bytes. Trusted: the contract only says that the 32 bytes returned are the
/// digest of the input, a function of the input bytes alone.
#[verifier::external_body]
fn sha256(data: &[u8]) -> (digest: [u8; 32])
    ensures
        digest@ == sha256_digest(data@),
{
    solana_program::hash::hash(data).to_bytes()
}

/// The bytes of `"global:"`, the namespace of Anchor's global instructions.
pub open spec fn global_namespace() -> Seq<u8> {
    seq![0x67u8, 0x6cu8, 0x6fu8, 0x62u8, 0x61u8, 0x6cu8, 0x3au8]
}

/// The eight-byte discriminator of the instruction whose name has the UTF-8
/// bytes `name`.
pub open spec fn spec_sighash(name: Seq<u8>) -> Seq<u8> {
    sha256_digest(global_namespace() + name).subrange(0, 8)
}

/// The first eight bytes of a digest.
pub fn sighash_from_digest(digest: [u8; 32]) -> (sighash: [u8; 8])
    ensures
        sighash@ == digest@.subrange(0, 8),
{
    let sighash = [
        digest[0],
        digest[1],
        digest[2],
        digest[3],
        digest[4],
        digest[5],
        digest[6],
        digest[7],
    ];
    assert(sighash@ =~= digest@.subrange(0, 8));
    sighash
}

/// The discriminator of the Anchor instruction `name`: the first eight bytes
/// of `sha256("global:" ++ name)`.
pub fn get_sighash(name: &str) -> (sighash: [u8; 8])
    ensures
        sighash@ == spec_sighash(name.spec_bytes()),
{
    let mut image: Vec<u8> = vec![0x67u8, 0x6cu8, 0x6fu8, 0x62u8, 0x61u8, 0x6cu8, 0x3au8];
    let bytes = name.as_bytes();
    let n = bytes.len();
    assert(image@ =~= global_namespace());
    for i in 0..n
        invariant
            n == bytes@.len(),
            image@ =~= global_namespace() + bytes@.subrange(0, i as int),
    {
        image.push(bytes[i]);
        assert(bytes@.subrange(0, i + 1) =~= bytes@.subrange(0, i as int).push(bytes@[i as int]));
    }
    assert(bytes@.subrange(0, n as int) =~= bytes@);
    let digest = sha256(image.as_slice());
    sighash_from_digest(digest)
}

/// Data of a Kamino instruction `name` that takes one `u64` argument: the
/// instruction's discriminator followed by `amount`, little-endian.
pub fn kamino_instruction_data(name: &str, amount: u64) -> (data: Vec<u8>)
    ensures
        data@ == spec_sighash(name.spec_bytes()) + le_bytes(amount),
        data@.len() == 16,
        le_u64_at(data@, 8) == amount,
{
    let sighash = get_sighash(name);
    let amount_bytes = u64_to_le_bytes(amount);
    let mut data: Vec<u8> = Vec::new();
    for i in 0..8
        invariant
            data@ =~= sighash@.subrange(0, i as int),
    {
        data.push(sighash[i]);
    }
    for i in 0..8
        invariant
            data@ =~= sighash@ + amount_bytes@.subrange(0, i as int),
    {
        data.push(amount_bytes[i]);
    }
    proof {
        lemma_le_bytes_roundtrip(amount);
        assert(data@.subrange(8, 16) =~= le_bytes(amount));
        assert(forall|i: int| 0 <= i < 8 ==> data@[8 + i] == le_bytes(amount)[i]);
    }
    data
}

/// Data of Kamino's `redeem_reserve_collateral` instruction burning `ktoken`
/// kUSDC.
pub open spec fn redeem_collateral_data(ktoken: u64) -> Seq<u8> {
    spec_sighash("redeem_reserve_collateral".spec_bytes()) + le_bytes(ktoken)
}

/// Data of Kamino's `deposit_reserve_liquidity` instruction depositing
/// `amount` USDC.
pub open spec fn deposit_liquidity_data(amount: u64) -> Seq<u8> {
    spec_sighash("deposit_reserve_liquidity".spec_bytes()) + le_bytes(amount)
}

/// Builds the data of a `redeem_reserve_collateral` instruction.
pub fn redeem_reserve_collateral_data(ktoken: u64) -> (data: Vec<u8>)
    ensures
        data@ == redeem_collateral_data(ktoken),
{
    kamino_instruction_data("redeem_reserve_collateral", ktoken)
}

/// Builds the data of a `deposit_reserve_liquidity` instruction.
pub fn deposit_reserve_liquidity_data(amount: u64) -> (data: Vec<u8>)
    ensures
        data@ == deposit_liquidity_data(amount),
{
    kamino_instruction_data("deposit_reserve_liquidity", amount)
}

} // verus!
