//! `deposit`: the operator deposits USDC into Kamino on the vault's behalf.
use vstd::prelude::*;
use crate::error::PayrollError;
use crate::kamino::{deposit_liquidity_data, deposit_reserve_liquidity_data};
use crate::numeric::wrap_i64_to_u64;
use crate::protocol::ProtocolVault;

verus! {

/// The state a deposit reads and updates.
pub struct Deposit {
    /// The operator's vault.
    pub protocol: ProtocolVault,
}

impl Deposit {
    /// Starts a deposit of `deposit` USDC. A zero amount is refused. The
    /// liability is brought up to the clock reading `now` when the clock
    /// could be read and the update fits `u64`; a failure there does not
    /// stop the deposit. Returns the data of the Kamino
    /// `deposit_reserve_liquidity` instruction to invoke.
    pub fn transfer(&mut self, deposit: u64, now: Option<i64>) -> (r: Result<Vec<u8>, PayrollError>)
        ensures
            deposit == 0 ==> r is Err && r == Err::<Vec<u8>, PayrollError>(
                PayrollError::InvalidArgument,
            ) && *final(self) == *old(self),
            deposit != 0 ==> (r matches Ok(data) && data@ == deposit_liquidity_data(deposit)),
            deposit != 0 ==> match now {
                Some(t) => if old(self).protocol.accrual_overflows(wrap_i64_to_u64(t as int)) {
                    *final(self) == *old(self)
                } else {
                    final(self).protocol == old(self).protocol.accrued(wrap_i64_to_u64(t as int))
                },
                None => *final(self) == *old(self),
            },
    {
        if deposit == 0 {
            return Err(PayrollError::InvalidArgument);
        }
        if let Some(t) = now {
            let _ = self.protocol.update_liability(t);
        }
        Ok(deposit_reserve_liquidity_data(deposit))
    }

    /// Records the kUSDC that the Kamino deposit minted, from the protocol's
    /// kUSDC balance before and after it. Returns the amount minted. Nothing
    /// changes on error.
    pub fn finish_transfer(&mut self, ktoken_before: u64, ktoken_after: u64) -> (r: Result<
        u64,
        PayrollError,
    >)
        ensures
            r is Err <==> ktoken_after < ktoken_before || old(self).protocol.yield_amount + (
            ktoken_after - ktoken_before) > u64::MAX,
            r is Err ==> r == Err::<u64, PayrollError>(PayrollError::ArithmeticOverflow)
                && *final(self) == *old(self),
            r is Ok ==> r == Ok::<u64, PayrollError>((ktoken_after - ktoken_before) as u64)
                && *final(self) == (Deposit {
                protocol: ProtocolVault {
                    yield_amount: (old(self).protocol.yield_amount + (ktoken_after
                        - ktoken_before)) as u64,
                    ..old(self).protocol
                },
            }),
    {
        let ktoken_minted = match ktoken_after.checked_sub(ktoken_before) {
            Some(v) => v,
            None => return Err(PayrollError::ArithmeticOverflow),
        };
        let yield_amount = match self.protocol.yield_amount.checked_add(ktoken_minted) {
            Some(v) => v,
            None => return Err(PayrollError::ArithmeticOverflow),
        };
        self.protocol.yield_amount = yield_amount;
        Ok(ktoken_minted)
    }
}

} // verus!
