//! Atlas Payroll: per-second salary streaming with idle employer capital
//! parked in a Kamino lending reserve.
//!
//! The library holds the accounting of the payroll program: the operator's
//! vault and its liability ledger, the employees' accrual, the reading of the
//! Kamino reserve account, the redemption arithmetic, the instruction data
//! sent to Kamino, and the decision steps of every instruction. Token
//! transfers and cross-program invocations are performed by the caller, which
//! hands the observed results back to the step functions.

pub mod codec;
pub mod error;
pub mod numeric;
pub mod reserve;
pub mod protocol;
pub mod staff;
pub mod kamino;
pub mod instructions;
pub mod ledger;
pub mod laws;
